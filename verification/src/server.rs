//! The accept loop, the life of one connection and the reload watcher, each as
//! a function from what happened to what to do next.

use vstd::prelude::*;
use crate::cli::ServeArgs;
use crate::script::{build_script, Binding, Ctx, Side, StreamEndpoint};

verus! {

/// What the accept loop learns.
#[derive(Debug, Clone, Copy, PartialEq, Eq, Structural)]
pub enum ServerEvent {
    /// The process is up.
    Start,
    /// The script ran in a trial interpreter; this is what its entry name
    /// stands for.
    ScriptChecked(EntryKind),
    /// The script could not be read or did not run.
    ScriptFailed,
    /// The listen address is bound.
    Bound,
    /// The listen address could not be bound.
    BindFailed,
    /// A client has connected.
    Accepted,
    /// Accepting a client failed.
    AcceptFailed,
    /// The backend took the connection for the client last accepted.
    Dialed,
    /// The backend could not be reached for the client last accepted.
    DialFailed,
    /// The session of the client last accepted runs in a unit of its own.
    Dispatched,
    /// The client last accepted was closed, whether or not that went well.
    ClientClosed,
}

/// Why the server gives up.
#[derive(Debug, Clone, Copy, PartialEq, Eq, Structural)]
pub enum Fatal {
    /// The listen address could not be bound.
    Bind,
    /// The script could not be read or did not run.
    Script,
    /// The script does not define the entry function.
    Configuration(ConfigurationError),
}

/// What the accept loop does next.
#[derive(Debug, Clone, Copy, PartialEq, Eq, Structural)]
pub enum ServerAction {
    /// Run the script in a trial interpreter and look its entry name up.
    CheckScript,
    /// Bind the listen address.
    Bind,
    /// Wait for the next client.
    Accept,
    /// Connect to the backend, once.
    Dial,
    /// Run the script on this context in a unit of its own, and do not wait
    /// for it.
    Dispatch(Ctx),
    /// Close the client and report the failed dial.
    CloseClient,
    /// End the process with a failure status.
    Exit(Fatal),
}

/// What the name of the entry function stands for in the interpreter.
#[derive(Debug, Clone, Copy, PartialEq, Eq, Structural)]
pub enum EntryKind {
    /// No global of that name.
    Missing,
    /// A global that cannot be called.
    NotCallable,
    /// A function.
    Callable,
}

/// A deployment that cannot serve.
#[derive(Debug, Clone, Copy, PartialEq, Eq, Structural)]
pub enum ConfigurationError {
    /// The script defines no global of the configured name.
    EntryMissing,
    /// The global of the configured name is no function.
    EntryNotCallable,
}

/// What happens in the life of one connection.
#[derive(Debug, Clone, Copy, PartialEq, Eq, Structural)]
pub enum HandlerEvent {
    /// The connection was dispatched.
    Start,
    /// The globals are bound and the script source has run.
    Built,
    /// Binding the globals or running the script source failed.
    BuildFailed,
    /// The entry name was looked up.
    Entry(EntryKind),
    /// The entry function returned.
    Returned,
    /// The entry function raised an error.
    Raised,
}

/// What the unit of one connection does next.
#[derive(Debug)]
pub enum HandlerAction {
    /// Make a fresh interpreter, bind these globals, run the script source.
    Build(Vec<Binding>),
    /// Look the entry name up.
    Resolve,
    /// Call the entry function with the context.
    Call,
    /// The session is over: shut these sides down and drop the interpreter.
    Close(Vec<Side>),
}

/// What the reload watcher remembers between ticks.
#[derive(Debug, Clone, Copy, PartialEq, Eq, Structural)]
pub struct ReloadState {
    /// Modification time of the script when last looked at.
    pub last_time: Option<u64>,
}

/// The next move of the accept loop, as a plain value.
pub open spec fn spec_serve(buf_size: usize, event: ServerEvent) -> ServerAction {
    match event {
        ServerEvent::Start => ServerAction::CheckScript,
        ServerEvent::ScriptFailed => ServerAction::Exit(Fatal::Script),
        ServerEvent::ScriptChecked(EntryKind::Callable) => ServerAction::Bind,
        ServerEvent::ScriptChecked(EntryKind::Missing) => ServerAction::Exit(
            Fatal::Configuration(ConfigurationError::EntryMissing),
        ),
        ServerEvent::ScriptChecked(EntryKind::NotCallable) => ServerAction::Exit(
            Fatal::Configuration(ConfigurationError::EntryNotCallable),
        ),
        ServerEvent::BindFailed => ServerAction::Exit(Fatal::Bind),
        ServerEvent::Accepted => ServerAction::Dial,
        ServerEvent::Dialed => ServerAction::Dispatch(
            Ctx {
                buf_size,
                client_stream: StreamEndpoint { closed: false },
                backend_stream: StreamEndpoint { closed: false },
            },
        ),
        ServerEvent::DialFailed => ServerAction::CloseClient,
        ServerEvent::Bound
        | ServerEvent::AcceptFailed
        | ServerEvent::Dispatched
        | ServerEvent::ClientClosed => ServerAction::Accept,
    }
}

/// The next move of the accept loop.
///
/// Before anything is bound the script is tried once: a script that does not
/// run, or that leaves the entry name undefined or not callable, ends the
/// process, and so does a failed bind. Nothing that happens to a connection
/// does: a backend that cannot be reached costs the client its connection, is
/// not tried again, and the loop accepts the next client. A connection that
/// was paired gets a context with both sides open and the configured buffer
/// size.
pub fn serve(args: &ServeArgs, event: ServerEvent) -> (action: ServerAction)
    ensures
        action == spec_serve(args.buf_size, event),
{
    match event {
        ServerEvent::Start => ServerAction::CheckScript,
        ServerEvent::ScriptFailed => ServerAction::Exit(Fatal::Script),
        ServerEvent::ScriptChecked(kind) => match resolve_entry(kind) {
            Ok(_) => ServerAction::Bind,
            Err(error) => ServerAction::Exit(Fatal::Configuration(error)),
        },
        ServerEvent::BindFailed => ServerAction::Exit(Fatal::Bind),
        ServerEvent::Accepted => ServerAction::Dial,
        ServerEvent::Dialed => ServerAction::Dispatch(Ctx::new(args.buf_size)),
        ServerEvent::DialFailed => ServerAction::CloseClient,
        ServerEvent::Bound
        | ServerEvent::AcceptFailed
        | ServerEvent::Dispatched
        | ServerEvent::ClientClosed => ServerAction::Accept,
    }
}

/// Once the server accepts clients, nothing that it learns ends it: the only
/// events that lead to an exit are a failed bind and a script that cannot
/// serve, and both come before the first client.
pub proof fn lemma_connections_never_end_the_server(buf_size: usize, event: ServerEvent)
    ensures
        spec_serve(buf_size, event) is Exit <==> (event == ServerEvent::BindFailed || event
            == ServerEvent::ScriptFailed || event == ServerEvent::ScriptChecked(EntryKind::Missing)
            || event == ServerEvent::ScriptChecked(EntryKind::NotCallable)),
        spec_serve(buf_size, event) is Dispatch <==> event == ServerEvent::Dialed,
        spec_serve(buf_size, event) is CloseClient <==> event == ServerEvent::DialFailed,
{
}

/// Calls `Table::get` on the table that `Lua::globals` gives and tells the
/// kinds of value apart: a function, nil, anything else. An error of the
/// lookup is handed on. The result depends on what the script has defined,
/// so nothing is claimed of it.
#[verifier::external_body]
fn global_kind(lua: &mlua::Lua, name: &str) -> (res: Result<EntryKind, mlua::Error>) {
    match lua.globals().get::<_, mlua::Value>(name) {
        Ok(mlua::Value::Function(_)) => Ok(EntryKind::Callable),
        Ok(mlua::Value::Nil) => Ok(EntryKind::Missing),
        Ok(_) => Ok(EntryKind::NotCallable),
        Err(error) => Err(error),
    }
}

/// Looks the configured entry name up in `lua`. What comes back depends on
/// the script alone; a lookup that the interpreter fails counts as a missing
/// name. [`resolve_entry`], [`serve`] and [`handle`] say what follows from
/// each kind.
pub fn find_entry(lua: &mlua::Lua, args: &ServeArgs) -> (event: HandlerEvent)
    ensures
        event is Entry,
{
    match global_kind(lua, args.script_entry.as_str()) {
        Ok(kind) => HandlerEvent::Entry(kind),
        Err(_) => HandlerEvent::Entry(EntryKind::Missing),
    }
}

/// Whether the configured entry name can be called.
pub fn resolve_entry(kind: EntryKind) -> (res: Result<(), ConfigurationError>)
    ensures
        res == match kind {
            EntryKind::Callable => Ok::<(), ConfigurationError>(()),
            EntryKind::Missing => Err(ConfigurationError::EntryMissing),
            EntryKind::NotCallable => Err(ConfigurationError::EntryNotCallable),
        },
{
    match kind {
        EntryKind::Callable => Ok(()),
        EntryKind::Missing => Err(ConfigurationError::EntryMissing),
        EntryKind::NotCallable => Err(ConfigurationError::EntryNotCallable),
    }
}

/// Whether `event` ends the session of a connection.
pub open spec fn ends_session(event: HandlerEvent) -> bool {
    match event {
        HandlerEvent::Start | HandlerEvent::Built => false,
        HandlerEvent::Entry(kind) => kind != EntryKind::Callable,
        HandlerEvent::BuildFailed | HandlerEvent::Returned | HandlerEvent::Raised => true,
    }
}

/// The next move in the life of one connection.
///
/// However the session ends, by a return of the entry function, by an error it
/// raised, or before it was ever called, both sides are closed afterwards: the
/// sides that the script left open are handed out to be shut down, the client
/// first. Until then the context is left alone.
pub fn handle(args: &ServeArgs, ctx: &mut Ctx, event: HandlerEvent) -> (action: HandlerAction)
    ensures
        ends_session(event) ==> {
            &&& action matches HandlerAction::Close(sides) && sides@ == Ctx::open_sides(*old(ctx))
            &&& final(ctx).is_closed(Side::Client)
            &&& final(ctx).is_closed(Side::Backend)
            &&& final(ctx).buf_size == old(ctx).buf_size
        },
        !ends_session(event) ==> *final(ctx) == *old(ctx),
        event == HandlerEvent::Start ==> (action matches HandlerAction::Build(bindings)
            && bindings@ == crate::script::spec_bindings(args.mysql_uri@, args.redis_uri@)),
        event == HandlerEvent::Built ==> action is Resolve,
        event == HandlerEvent::Entry(EntryKind::Callable) ==> action is Call,
{
    match event {
        HandlerEvent::Start => HandlerAction::Build(build_script(args)),
        HandlerEvent::Built => HandlerAction::Resolve,
        HandlerEvent::Entry(kind) => match resolve_entry(kind) {
            Ok(_) => HandlerAction::Call,
            Err(_) => HandlerAction::Close(ctx.teardown()),
        },
        HandlerEvent::BuildFailed | HandlerEvent::Returned | HandlerEvent::Raised => {
            HandlerAction::Close(ctx.teardown())
        },
    }
}

impl ReloadState {
    /// The state before the first tick.
    pub fn new() -> (state: ReloadState)
        ensures
            state.last_time.is_none(),
    {
        ReloadState { last_time: None }
    }

    /// Whether the script is to be run again, given what this state holds and
    /// the modification time seen at a tick (`None` where the file could not be
    /// looked at).
    pub open spec fn reloads(&self, modified: Option<u64>) -> bool {
        match (self.last_time, modified) {
            (Some(last), Some(seen)) => seen > last,
            _ => false,
        }
    }

    /// The state after a tick that saw `modified`.
    pub open spec fn after(&self, modified: Option<u64>) -> ReloadState {
        match (self.last_time, modified) {
            (None, Some(_)) => ReloadState { last_time: modified },
            (Some(last), Some(seen)) => if seen > last {
                ReloadState { last_time: modified }
            } else {
                *self
            },
            (_, None) => *self,
        }
    }

    /// One tick of the watcher. The first time that the file is seen sets the
    /// baseline and reloads nothing. Later the script is reloaded when the time
    /// seen is past the one remembered, which then takes its place whether or
    /// not the reload goes well. A file that cannot be looked at changes
    /// nothing.
    pub fn tick(&mut self, modified: Option<u64>) -> (reload: bool)
        ensures
            reload == old(self).reloads(modified),
            *final(self) == old(self).after(modified),
    {
        match modified {
            None => false,
            Some(seen) => match self.last_time {
                None => {
                    self.last_time = modified;
                    false
                },
                Some(last) => {
                    if seen > last {
                        self.last_time = modified;
                        true
                    } else {
                        false
                    }
                },
            },
        }
    }
}

/// The remembered time never goes back, and a tick that reloads is followed
/// by one that does not when the file stayed as it was.
pub proof fn lemma_reload_once_per_change(state: ReloadState, modified: Option<u64>)
    ensures
        !state.after(modified).reloads(modified),
        state.after(modified).after(modified) == state.after(modified),
        state.last_time is Some && state.after(modified).last_time is Some
            ==> state.after(modified).last_time->Some_0 >= state.last_time->Some_0,
        state.last_time is None ==> !state.reloads(modified),
{
}

} // verus!
