use lua_bridge::cli::ServeArgs;
use lua_bridge::script::{
    bind_global, build_script, Binding, Ctx, IoFault, Reply, ScriptError, Side, VERSION,
};
use lua_bridge::server::{find_entry, EntryKind, HandlerEvent};
use mlua::Lua;

fn bind_all(lua: &Lua, args: &ServeArgs) {
    for binding in build_script(args) {
        if !bind_global(lua, binding).unwrap() {
            let stand_in = lua.create_function(|_, _arg: String| Ok(())).unwrap();
            lua.globals().set(binding.name(), stand_in).unwrap();
        }
    }
}

#[test]
fn bridge_binds_identifier_version_and_helper() {
    let lua = Lua::new();
    assert_eq!(bind_global(&lua, Binding::InstanceId), Ok(true));
    assert_eq!(bind_global(&lua, Binding::Version), Ok(true));
    assert_eq!(bind_global(&lua, Binding::BytesToString), Ok(true));
    let globals = lua.globals();
    assert_eq!(globals.get::<_, String>("_instance_id").unwrap(), format!("{:p}", &lua));
    assert!(globals.get::<_, String>("_instance_id").unwrap().starts_with("0x"));
    assert_eq!(globals.get::<_, String>("_version").unwrap(), VERSION);
    let text: String = lua.load("return bytes_to_string({80, 73, 78, 71})").eval().unwrap();
    assert_eq!(text, "PING");
    let empty: String = lua.load("return bytes_to_string({})").eval().unwrap();
    assert_eq!(empty, "");
    let shown: String = lua.load("return bytes_to_string({102, 255})").eval().unwrap();
    assert!(shown.contains("FromUtf8Error"));
}

#[test]
fn log_and_store_functions_are_left_to_the_host() {
    let lua = Lua::new();
    for binding in [Binding::Info, Binding::Error, Binding::Warn, Binding::Query, Binding::Get] {
        assert_eq!(bind_global(&lua, binding), Ok(false));
    }
    for binding in [Binding::Info, Binding::Query, Binding::Get] {
        assert!(lua.globals().get::<_, mlua::Value>(binding.name()).unwrap().is_nil());
    }
}

#[test]
fn unconfigured_store_function_is_a_nil_global() {
    let lua = Lua::new();
    bind_all(&lua, &ServeArgs::with_defaults(String::new(), "redis://127.0.0.1/".to_string()));
    lua.load("info('up')").exec().unwrap();
    lua.load("get('key')").exec().unwrap();
    let failure = lua.load("query('select 1')").exec().unwrap_err();
    assert!(matches!(failure, mlua::Error::RuntimeError(_)));
    assert!(failure.to_string().contains("nil"));
}

#[test]
fn entry_lookup_tells_missing_from_not_callable() {
    let lua = Lua::new();
    let args = ServeArgs::with_defaults(String::new(), String::new());
    assert_eq!(find_entry(&lua, &args), HandlerEvent::Entry(EntryKind::Missing));
    lua.load("handle = 5").exec().unwrap();
    assert_eq!(find_entry(&lua, &args), HandlerEvent::Entry(EntryKind::NotCallable));
    lua.load("function handle(ctx) end").exec().unwrap();
    assert_eq!(find_entry(&lua, &args), HandlerEvent::Entry(EntryKind::Callable));
    lua.load("function other(ctx) end").exec().unwrap();
    let mut renamed = ServeArgs::with_defaults(String::new(), String::new());
    renamed.script_entry = "other".to_string();
    assert_eq!(find_entry(&lua, &renamed), HandlerEvent::Entry(EntryKind::Callable));
    renamed.script_entry = "absent".to_string();
    assert_eq!(find_entry(&lua, &renamed), HandlerEvent::Entry(EntryKind::Missing));
}

#[test]
fn refused_binding_is_an_interpreter_error() {
    let lua = Lua::new();
    lua.load("setmetatable(_G, { __newindex = function() error('sealed') end })").exec().unwrap();
    assert_eq!(bind_global(&lua, Binding::Version), Err(ScriptError::Interpreter));
    assert_eq!(bind_global(&lua, Binding::InstanceId), Err(ScriptError::Interpreter));
    assert_eq!(bind_global(&lua, Binding::BytesToString), Err(ScriptError::Interpreter));
    assert_eq!(bind_global(&lua, Binding::Info), Ok(false));
    assert!(lua.globals().get::<_, mlua::Value>("_version").unwrap().is_nil());
}

fn raised_kind(reply: Reply) -> std::io::ErrorKind {
    match Ctx::to_lua_result(reply) {
        Err(mlua::Error::ExternalError(cause)) => {
            cause.downcast_ref::<std::io::Error>().expect("an I/O error").kind()
        }
        other => panic!("not raised: {:?}", other),
    }
}

#[test]
fn failed_reply_is_raised_in_the_script() {
    assert_eq!(raised_kind(Reply::Failed(IoFault::BrokenPipe)), std::io::ErrorKind::BrokenPipe);
    assert_eq!(raised_kind(Reply::Failed(IoFault::NotConnected)), std::io::ErrorKind::NotConnected);
    assert_eq!(raised_kind(Reply::Failed(IoFault::Other)), std::io::ErrorKind::Other);
}

#[test]
fn other_replies_pass_to_the_script() {
    for reply in [
        Reply::Bytes(b"PING".to_vec()),
        Reply::Tagged(Side::Backend, vec![]),
        Reply::Written(0),
        Reply::Done,
    ] {
        assert_eq!(Ctx::to_lua_result(reply.clone()).unwrap(), reply);
    }
}

#[test]
fn identifier_and_version_are_read_only_in_a_script() {
    let lua = Lua::new();
    bind_all(&lua, &ServeArgs::with_defaults(String::new(), String::new()));
    let id: String = lua.globals().get("_instance_id").unwrap();
    lua.load("_version = 'changed'; _instance_id = 'changed'; _G._version = 7").exec().unwrap();
    assert_eq!(lua.load("return _version").eval::<String>().unwrap(), VERSION);
    assert_eq!(lua.load("return _instance_id").eval::<String>().unwrap(), id);
    assert_eq!(lua.globals().get::<_, String>("_version").unwrap(), VERSION);
}

#[test]
fn other_globals_stay_assignable() {
    let lua = Lua::new();
    bind_all(&lua, &ServeArgs::with_defaults(String::new(), String::new()));
    lua.load("counter = 1; counter = counter + 1; info = 5; t = {}; t[1] = 'x'").exec().unwrap();
    assert_eq!(lua.load("return counter").eval::<i64>().unwrap(), 2);
    assert_eq!(lua.load("return info").eval::<i64>().unwrap(), 5);
    lua.load("function handle(ctx) end").exec().unwrap();
    let args = ServeArgs::with_defaults(String::new(), String::new());
    assert_eq!(find_entry(&lua, &args), HandlerEvent::Entry(EntryKind::Callable));
}

#[test]
fn two_interpreters_have_different_identifiers() {
    let first = Lua::new();
    let second = Lua::new();
    assert_eq!(bind_global(&first, Binding::InstanceId), Ok(true));
    assert_eq!(bind_global(&second, Binding::InstanceId), Ok(true));
    let a: String = first.globals().get("_instance_id").unwrap();
    let b: String = second.globals().get("_instance_id").unwrap();
    assert!(!a.is_empty() && !b.is_empty());
    assert_ne!(a, b);
}

#[test]
fn failed_lookup_counts_as_missing_entry() {
    let lua = Lua::new();
    lua.load("setmetatable(_G, { __index = function() error('no lookups') end })").exec().unwrap();
    let args = ServeArgs::with_defaults(String::new(), String::new());
    assert_eq!(find_entry(&lua, &args), HandlerEvent::Entry(EntryKind::Missing));
}
