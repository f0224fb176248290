use lua_bridge::cli::{Cli, Command, ServeArgs, DEFAULT_BUF_SIZE};
use lua_bridge::script::{
    build_script, bytes_to_string, log_line, read_text, resolve_global, stores_assignment,
    Binding, ScriptError, VERSION,
};

fn args(mysql_uri: &str, redis_uri: &str) -> ServeArgs {
    ServeArgs::with_defaults(mysql_uri.to_string(), redis_uri.to_string())
}

#[test]
fn defaults_follow_the_command_line_table() {
    let a = args("", "");
    assert_eq!(a.listen, "0.0.0.0:8080");
    assert_eq!(a.backend, "127.0.0.1:8081");
    assert_eq!(a.buf_size, 32768);
    assert_eq!(DEFAULT_BUF_SIZE, 32768);
    assert_eq!(a.mysql_uri, "");
    assert_eq!(a.redis_uri, "");
    assert_eq!(a.script, "app.lua");
    assert_eq!(a.script_entry, "handle");
}

#[test]
fn cli_carries_the_serve_settings() {
    let cli = Cli { command: Command::Serve(args("mysql://h/db", "")) };
    assert_eq!(cli.serve_args().mysql_uri, "mysql://h/db");
    assert_eq!(cli.serve_args().script_entry, "handle");
}

#[test]
fn bindings_without_stores() {
    assert_eq!(
        build_script(&args("", "")),
        vec![
            Binding::InstanceId,
            Binding::Version,
            Binding::Info,
            Binding::Error,
            Binding::Warn,
            Binding::BytesToString,
        ]
    );
}

#[test]
fn bindings_with_both_stores() {
    assert_eq!(
        build_script(&args("mysql://root@localhost/db", "redis://127.0.0.1/")),
        vec![
            Binding::InstanceId,
            Binding::Version,
            Binding::Info,
            Binding::Error,
            Binding::Warn,
            Binding::BytesToString,
            Binding::Query,
            Binding::Get,
        ]
    );
}

#[test]
fn bindings_with_one_store() {
    let only_redis = build_script(&args("", "redis://127.0.0.1/"));
    assert_eq!(only_redis.len(), 7);
    assert_eq!(only_redis[6], Binding::Get);
    let only_mysql = build_script(&args("mysql://root@localhost/db", ""));
    assert_eq!(only_mysql.len(), 7);
    assert_eq!(only_mysql[6], Binding::Query);
}

#[test]
fn empty_uri_leaves_the_store_function_unresolved() {
    let a = args("", "");
    assert_eq!(resolve_global(&a, "query"), Err(ScriptError::Unresolved));
    assert_eq!(resolve_global(&a, "get"), Err(ScriptError::Unresolved));
    assert_eq!(resolve_global(&a, "no_such_name"), Err(ScriptError::Unresolved));
    assert_eq!(resolve_global(&a, "info"), Ok(Binding::Info));
    let b = args("mysql://root@localhost/db", "");
    assert_eq!(resolve_global(&b, "query"), Ok(Binding::Query));
    assert_eq!(resolve_global(&b, "get"), Err(ScriptError::Unresolved));
    let c = args("", "redis://127.0.0.1/");
    assert_eq!(resolve_global(&c, "get"), Ok(Binding::Get));
    assert_eq!(resolve_global(&c, "query"), Err(ScriptError::Unresolved));
}

#[test]
fn every_binding_is_found_by_its_name() {
    let all = build_script(&args("m", "r"));
    for binding in all {
        assert_eq!(Binding::named(binding.name()), Some(binding));
    }
    assert_eq!(Binding::named("Info"), None);
    assert_eq!(Binding::named(""), None);
    assert_eq!(Binding::InstanceId.name(), "_instance_id");
    assert_eq!(Binding::Version.name(), "_version");
    assert_eq!(Binding::BytesToString.name(), "bytes_to_string");
    assert_eq!(VERSION, "0.1.0");
}

#[test]
fn log_line_drops_the_trailing_newline_only() {
    assert_eq!(log_line("hello\n"), "[scripts] hello");
    assert_eq!(log_line("hello"), "[scripts] hello");
    assert_eq!(log_line("a\nb\n"), "[scripts] a\nb");
    assert_eq!(log_line("\n"), "[scripts] ");
    assert_eq!(log_line(""), "[scripts] ");
}

#[test]
fn log_line_keeps_trailing_spaces_and_tabs() {
    assert_eq!(log_line("hello "), "[scripts] hello ");
    assert_eq!(log_line("hello \n"), "[scripts] hello ");
    assert_eq!(log_line("hello\t"), "[scripts] hello\t");
    assert_eq!(log_line("  hello \t\n"), "[scripts]   hello \t");
    assert_eq!(log_line("hello\n "), "[scripts] hello\n ");
    assert_eq!(log_line("x\u{3000}"), "[scripts] x\u{3000}");
}

#[test]
fn log_line_takes_one_newline_and_nothing_before_it() {
    assert_eq!(log_line("hello\n\n"), "[scripts] hello\n");
    assert_eq!(log_line("hello\r\n"), "[scripts] hello\r");
    assert_eq!(log_line("h\u{e9}llo \u{4e16}\n"), "[scripts] h\u{e9}llo \u{4e16}");
}

#[test]
fn bytes_to_string_decodes_text() {
    assert_eq!(bytes_to_string(b"PING".to_vec()), "PING");
    assert_eq!(bytes_to_string("h\u{e9}llo \u{4e16}".as_bytes().to_vec()), "h\u{e9}llo \u{4e16}");
    assert_eq!(bytes_to_string(vec![]), "");
}

#[test]
fn bytes_to_string_tolerates_bad_bytes() {
    let shown = bytes_to_string(vec![0x66, 0x6f, 0xff]);
    assert_ne!(shown, "");
    assert!(shown.contains("FromUtf8Error"));
    assert!(shown.contains("valid_up_to: 2"));
    assert_eq!(shown, bytes_to_string(vec![0x66, 0x6f, 0xff]));
}

#[test]
fn read_text_is_strict() {
    assert_eq!(read_text(b"PING".to_vec()), Ok("PING".to_string()));
    assert_eq!(read_text(vec![]), Ok(String::new()));
    assert_eq!(read_text(vec![0x66, 0x6f, 0xff]), Err(ScriptError::InvalidText));
    assert_eq!(read_text(vec![0xc3]), Err(ScriptError::InvalidText));
    assert_eq!(read_text(vec![0xc3, 0xa9]), Ok("\u{e9}".to_string()));
}

#[test]
fn only_identifier_and_version_are_read_only() {
    for binding in build_script(&args("m", "r")) {
        let expected = binding == Binding::InstanceId || binding == Binding::Version;
        assert_eq!(binding.read_only(), expected);
        assert_eq!(stores_assignment(&Some(binding.name().to_string())), !expected);
    }
    assert!(stores_assignment(&Some("anything_else".to_string())));
    assert!(stores_assignment(&Some(String::new())));
    assert!(stores_assignment(&None));
    assert!(!stores_assignment(&Some("_version".to_string())));
    assert!(!stores_assignment(&Some("_instance_id".to_string())));
}
