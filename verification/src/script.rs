//! The connection context handed to a script, and the bindings a script sees.
//!
//! A primitive of the context is decided from what the stream gave. The caller
//! performs the read, write or readiness race and passes what happened to the
//! method of that primitive, which updates the half-close state and answers
//! with a [`Step`]: the reply owed to the script and the sides to shut down,
//! in order. The reply stands whether or not those shutdowns go well.

use vstd::prelude::*;
use vstd::utf8::*;
use crate::cli::ServeArgs;

verus! {

/// One of the two streams of a proxied session.
#[derive(Debug, Clone, Copy, PartialEq, Eq, Structural)]
pub enum Side {
    Client,
    Backend,
}

/// What the bridge tells apart in a failed stream operation.
#[derive(Debug, Clone, Copy, PartialEq, Eq, Structural)]
pub enum IoFault {
    /// The peer no longer reads.
    BrokenPipe,
    /// The stream is not connected.
    NotConnected,
    /// Any other fault.
    Other,
}

/// Half-close state of one stream.
#[derive(Debug, Clone, Copy, PartialEq, Eq, Structural)]
pub struct StreamEndpoint {
    /// A shutdown has been issued for this stream.
    pub closed: bool,
}

/// What a primitive hands back to the script.
#[derive(Debug, Clone, PartialEq, Eq)]
pub enum Reply {
    /// Bytes read from the side that was asked for.
    Bytes(Vec<u8>),
    /// Bytes read by a race, with the side that was serviced.
    Tagged(Side, Vec<u8>),
    /// Number of bytes written.
    Written(usize),
    /// A close was carried out.
    Done,
    /// The call fails with this fault.
    Failed(IoFault),
}

/// Outcome of one primitive: the sides to shut down, in order, and the
/// reply, which no failure of a shutdown changes.
#[derive(Debug, Clone, PartialEq, Eq)]
pub struct Step {
    pub closes: Vec<Side>,
    pub reply: Reply,
}

/// The object passed to the entry function of a script.
#[derive(Debug, Clone, Copy, PartialEq, Eq, Structural)]
pub struct Ctx {
    /// Read size used when a script asks for size zero.
    pub buf_size: usize,
    pub client_stream: StreamEndpoint,
    pub backend_stream: StreamEndpoint,
}

impl Side {
    /// The tag under which a race reports this side.
    pub fn name(self) -> (tag: &'static str)
        ensures
            self == Side::Client ==> tag@ == "client"@,
            self == Side::Backend ==> tag@ == "backend"@,
    {
        match self {
            Side::Client => "client",
            Side::Backend => "backend",
        }
    }

    /// The opposite stream.
    pub open spec fn peer(self) -> Side {
        match self {
            Side::Client => Side::Backend,
            Side::Backend => Side::Client,
        }
    }
}

impl Ctx {
    /// A context over two streams that are both open.
    pub fn new(buf_size: usize) -> (ctx: Ctx)
        ensures
            ctx.buf_size == buf_size,
            !ctx.is_closed(Side::Client),
            !ctx.is_closed(Side::Backend),
    {
        Ctx {
            buf_size,
            client_stream: StreamEndpoint { closed: false },
            backend_stream: StreamEndpoint { closed: false },
        }
    }

    /// Whether a shutdown has been issued for `side`.
    pub open spec fn is_closed(&self, side: Side) -> bool {
        match side {
            Side::Client => self.client_stream.closed,
            Side::Backend => self.backend_stream.closed,
        }
    }

    /// This context with `side` marked as shut down.
    pub open spec fn with_closed(self, side: Side) -> Ctx {
        match side {
            Side::Client => Ctx { client_stream: StreamEndpoint { closed: true }, ..self },
            Side::Backend => Ctx { backend_stream: StreamEndpoint { closed: true }, ..self },
        }
    }

    /// The shutdown that closing `side` takes: one if the side is still open,
    /// none if it was shut down before.
    pub open spec fn closing(&self, side: Side) -> Seq<Side> {
        if self.is_closed(side) {
            Seq::empty()
        } else {
            seq![side]
        }
    }

    /// The number of bytes a read asks for: `size`, or the configured buffer
    /// size where `size` is zero.
    pub open spec fn spec_read_size(&self, size: usize) -> usize {
        if size > 0 {
            size
        } else {
            self.buf_size
        }
    }

    /// Whether a shutdown has been issued for `side`.
    pub fn closed(&self, side: Side) -> (closed: bool)
        ensures
            closed == self.is_closed(side),
    {
        match side {
            Side::Client => self.client_stream.closed,
            Side::Backend => self.backend_stream.closed,
        }
    }

    /// The number of bytes to ask the stream for when a script reads `size`.
    pub fn read_size(&self, size: usize) -> (n: usize)
        ensures
            n == self.spec_read_size(size),
    {
        if size > 0 {
            size
        } else {
            self.buf_size
        }
    }

    /// Marks `side` as shut down and appends the shutdown it takes, if any.
    fn shut(&mut self, side: Side, closes: &mut Vec<Side>)
        ensures
            *final(self) == old(self).with_closed(side),
            final(closes)@ == old(closes)@ + old(self).closing(side),
    {
        let was_closed: bool = self.closed(side);
        match side {
            Side::Client => {
                self.client_stream.closed = true;
            },
            Side::Backend => {
                self.backend_stream.closed = true;
            },
        }
        if !was_closed {
            closes.push(side);
        }
    }

    /// What a read comes to when the peer is gone: the empty result.
    pub open spec fn peer_gone(outcome: Result<Vec<u8>, IoFault>) -> bool {
        match outcome {
            Ok(data) => data@.len() == 0,
            Err(IoFault::BrokenPipe) | Err(IoFault::NotConnected) => true,
            Err(IoFault::Other) => false,
        }
    }

    /// Decides a read on `side` from what the stream gave.
    ///
    /// Bytes are passed on as they came. A peer that is gone is no error: an
    /// empty read, a broken pipe and a stream that is not connected all shut
    /// the side down and give the empty result, whether or not the shutdown
    /// goes well. Any other fault fails the call and leaves the context as it
    /// was.
    pub fn read_stream(&mut self, side: Side, outcome: Result<Vec<u8>, IoFault>) -> (step: Step)
        ensures
            Self::yields_data(outcome) ==> {
                &&& step.reply == Reply::Bytes(outcome->Ok_0)
                &&& step.closes@.len() == 0
                &&& *final(self) == *old(self)
            },
            Self::peer_gone(outcome) ==> {
                &&& step.reply matches Reply::Bytes(data) && data@.len() == 0
                &&& step.closes@ == old(self).closing(side)
                &&& *final(self) == old(self).with_closed(side)
            },
            outcome == Err::<Vec<u8>, IoFault>(IoFault::Other) ==> {
                &&& step.reply == Reply::Failed(IoFault::Other)
                &&& step.closes@.len() == 0
                &&& *final(self) == *old(self)
            },
    {
        let mut closes: Vec<Side> = Vec::new();
        match outcome {
            Ok(data) => {
                if data.len() == 0 {
                    self.shut(side, &mut closes);
                }
                Step { closes, reply: Reply::Bytes(data) }
            },
            Err(IoFault::Other) => Step { closes, reply: Reply::Failed(IoFault::Other) },
            Err(_) => {
                self.shut(side, &mut closes);
                Step { closes, reply: Reply::Bytes(Vec::new()) }
            },
        }
    }

    /// Decides a write on `side` from what the stream gave.
    ///
    /// A write never fails the call. A broken pipe or a stream that is not
    /// connected shuts the side down and counts as zero bytes written; any other
    /// fault counts as zero bytes written and leaves the side as it was.
    pub fn write_stream(&mut self, side: Side, outcome: Result<usize, IoFault>) -> (step: Step)
        ensures
            match outcome {
                Ok(n) => {
                    &&& step.reply == Reply::Written(n)
                    &&& step.closes@.len() == 0
                    &&& *final(self) == *old(self)
                },
                Err(IoFault::Other) => {
                    &&& step.reply == Reply::Written(0)
                    &&& step.closes@.len() == 0
                    &&& *final(self) == *old(self)
                },
                Err(_) => {
                    &&& step.reply == Reply::Written(0)
                    &&& step.closes@ == old(self).closing(side)
                    &&& *final(self) == old(self).with_closed(side)
                },
            },
    {
        let mut closes: Vec<Side> = Vec::new();
        match outcome {
            Ok(n) => Step { closes, reply: Reply::Written(n) },
            Err(IoFault::Other) => Step { closes, reply: Reply::Written(0) },
            Err(_) => {
                self.shut(side, &mut closes);
                Step { closes, reply: Reply::Written(0) }
            },
        }
    }

    /// Closes `side`. A second close of the same side asks for no shutdown, and
    /// a failed shutdown does not fail the call.
    pub fn close_stream(&mut self, side: Side) -> (step: Step)
        ensures
            step.reply == Reply::Done,
            step.closes@ == old(self).closing(side),
            *final(self) == old(self).with_closed(side),
    {
        let mut closes: Vec<Side> = Vec::new();
        self.shut(side, &mut closes);
        Step { closes, reply: Reply::Done }
    }

    /// Closes both sides, the client first. The backend is shut down whether or
    /// not the shutdown of the client goes well.
    pub fn close_all(&mut self) -> (step: Step)
        ensures
            step.reply == Reply::Done,
            step.closes@ == old(self).closing(Side::Client) + old(self).closing(Side::Backend),
            *final(self) == old(self).with_closed(Side::Client).with_closed(Side::Backend),
    {
        let mut closes: Vec<Side> = Vec::new();
        self.shut(Side::Client, &mut closes);
        self.shut(Side::Backend, &mut closes);
        Step { closes, reply: Reply::Done }
    }

    /// Decides a race from the side that became readable first and what its
    /// stream then gave.
    ///
    /// Only `ready` is serviced. Bytes go back under its tag. An empty read or a
    /// fault of any kind ends the session: both sides are shut down, the client
    /// first, and an empty result goes back under the tag of `ready`, whether or
    /// not the shutdowns go well.
    pub fn select(&mut self, ready: Side, outcome: Result<Vec<u8>, IoFault>) -> (step: Step)
        ensures
            Self::yields_data(outcome) ==> {
                &&& step.reply == Reply::Tagged(ready, outcome->Ok_0)
                &&& step.closes@.len() == 0
                &&& *final(self) == *old(self)
            },
            !Self::yields_data(outcome) ==> {
                &&& step.reply matches Reply::Tagged(side, data) && side == ready && data@.len() == 0
                &&& step.closes@ == old(self).closing(Side::Client) + old(self).closing(Side::Backend)
                &&& *final(self) == old(self).with_closed(Side::Client).with_closed(Side::Backend)
            },
    {
        let mut closes: Vec<Side> = Vec::new();
        match outcome {
            Ok(data) => {
                if data.len() > 0 {
                    return Step { closes, reply: Reply::Tagged(ready, data) };
                }
            },
            Err(_) => {},
        }
        self.shut(Side::Client, &mut closes);
        self.shut(Side::Backend, &mut closes);
        Step { closes, reply: Reply::Tagged(ready, Vec::new()) }
    }

    /// Whether a read gave at least one byte.
    pub open spec fn yields_data(outcome: Result<Vec<u8>, IoFault>) -> bool {
        outcome matches Ok(data) && data@.len() > 0
    }

    /// Ends the session after the entry function has returned or raised: the
    /// sides that are still open, the client first, each to be shut down once.
    pub fn teardown(&mut self) -> (sides: Vec<Side>)
        ensures
            final(self).is_closed(Side::Client),
            final(self).is_closed(Side::Backend),
            final(self).buf_size == old(self).buf_size,
            sides@ == Self::open_sides(*old(self)),
    {
        let mut sides: Vec<Side> = Vec::new();
        if !self.client_stream.closed {
            sides.push(Side::Client);
            self.client_stream.closed = true;
        }
        if !self.backend_stream.closed {
            sides.push(Side::Backend);
            self.backend_stream.closed = true;
        }
        sides
    }

    /// The sides of `ctx` for which no shutdown was issued, the client first.
    pub open spec fn open_sides(ctx: Ctx) -> Seq<Side> {
        (if ctx.is_closed(Side::Client) {
            Seq::<Side>::empty()
        } else {
            seq![Side::Client]
        }) + (if ctx.is_closed(Side::Backend) {
            Seq::<Side>::empty()
        } else {
            seq![Side::Backend]
        })
    }
}

/// A method of the context, as a script calls it.
#[derive(Debug, Clone, Copy, PartialEq, Eq, Structural)]
pub enum Method {
    ReadClient,
    WriteClient,
    ReadBackend,
    WriteBackend,
    ReadClientStr,
    WriteClientStr,
    ReadBackendStr,
    WriteBackendStr,
    CloseClient,
    CloseBackend,
    CloseAll,
    Close,
    Select,
}

/// The stream operation that a method call starts with.
#[derive(Debug, Clone, Copy, PartialEq, Eq, Structural)]
pub enum Request {
    /// Read at most `size` bytes from `side`; `text` where the script wants
    /// the result as text, decoded strictly.
    Read { side: Side, size: usize, text: bool },
    /// Write the argument to `side`; `text` where the argument is text.
    Write { side: Side, text: bool },
    /// Close one side.
    Close { side: Side },
    /// Close both sides.
    CloseAll,
    /// Wait for either side to become readable, then read at most `size`
    /// bytes from it.
    Race { size: usize },
}

impl Method {
    /// The name under which a script calls the method.
    pub open spec fn spec_name(self) -> Seq<char> {
        match self {
            Method::ReadClient => "read_client"@,
            Method::WriteClient => "write_client"@,
            Method::ReadBackend => "read_backend"@,
            Method::WriteBackend => "write_backend"@,
            Method::ReadClientStr => "read_client_str"@,
            Method::WriteClientStr => "write_client_str"@,
            Method::ReadBackendStr => "read_backend_str"@,
            Method::WriteBackendStr => "write_backend_str"@,
            Method::CloseClient => "close_client"@,
            Method::CloseBackend => "close_backend"@,
            Method::CloseAll => "close_all"@,
            Method::Close => "close"@,
            Method::Select => "select"@,
        }
    }

    /// The stream operation that the method starts with when called with
    /// `size` on a context whose buffer size is `buf_size`. Methods that take
    /// no size ignore it.
    pub open spec fn spec_request(self, buf_size: usize, size: usize) -> Request {
        let size = if size > 0 {
            size
        } else {
            buf_size
        };
        match self {
            Method::ReadClient => Request::Read { side: Side::Client, size, text: false },
            Method::ReadBackend => Request::Read { side: Side::Backend, size, text: false },
            Method::ReadClientStr => Request::Read { side: Side::Client, size, text: true },
            Method::ReadBackendStr => Request::Read { side: Side::Backend, size, text: true },
            Method::WriteClient => Request::Write { side: Side::Client, text: false },
            Method::WriteBackend => Request::Write { side: Side::Backend, text: false },
            Method::WriteClientStr => Request::Write { side: Side::Client, text: true },
            Method::WriteBackendStr => Request::Write { side: Side::Backend, text: true },
            Method::CloseClient => Request::Close { side: Side::Client },
            Method::CloseBackend => Request::Close { side: Side::Backend },
            Method::CloseAll | Method::Close => Request::CloseAll,
            Method::Select => Request::Race { size },
        }
    }

    /// The name under which a script calls the method.
    pub fn name(self) -> (name: &'static str)
        ensures
            name@ == self.spec_name(),
    {
        match self {
            Method::ReadClient => "read_client",
            Method::WriteClient => "write_client",
            Method::ReadBackend => "read_backend",
            Method::WriteBackend => "write_backend",
            Method::ReadClientStr => "read_client_str",
            Method::WriteClientStr => "write_client_str",
            Method::ReadBackendStr => "read_backend_str",
            Method::WriteBackendStr => "write_backend_str",
            Method::CloseClient => "close_client",
            Method::CloseBackend => "close_backend",
            Method::CloseAll => "close_all",
            Method::Close => "close",
            Method::Select => "select",
        }
    }
}

impl Ctx {
    /// The methods that a script finds on the context, in the order in which
    /// they are registered.
    pub fn add_methods() -> (methods: Vec<Method>)
        ensures
            methods@ == seq![
                Method::ReadClient,
                Method::WriteClient,
                Method::ReadBackend,
                Method::WriteBackend,
                Method::ReadClientStr,
                Method::WriteClientStr,
                Method::ReadBackendStr,
                Method::WriteBackendStr,
                Method::CloseClient,
                Method::CloseBackend,
                Method::CloseAll,
                Method::Close,
                Method::Select,
            ],
    {
        let mut methods: Vec<Method> = Vec::new();
        methods.push(Method::ReadClient);
        methods.push(Method::WriteClient);
        methods.push(Method::ReadBackend);
        methods.push(Method::WriteBackend);
        methods.push(Method::ReadClientStr);
        methods.push(Method::WriteClientStr);
        methods.push(Method::ReadBackendStr);
        methods.push(Method::WriteBackendStr);
        methods.push(Method::CloseClient);
        methods.push(Method::CloseBackend);
        methods.push(Method::CloseAll);
        methods.push(Method::Close);
        methods.push(Method::Select);
        assert(methods@ =~= seq![
            Method::ReadClient,
            Method::WriteClient,
            Method::ReadBackend,
            Method::WriteBackend,
            Method::ReadClientStr,
            Method::WriteClientStr,
            Method::ReadBackendStr,
            Method::WriteBackendStr,
            Method::CloseClient,
            Method::CloseBackend,
            Method::CloseAll,
            Method::Close,
            Method::Select,
        ]);
        methods
    }

    /// The stream operation that a call of `method` with `size` starts with.
    /// A size of zero stands for the configured buffer size.
    pub fn request(&self, method: Method, size: usize) -> (request: Request)
        ensures
            request == method.spec_request(self.buf_size, size),
    {
        let size: usize = self.read_size(size);
        match method {
            Method::ReadClient => Request::Read { side: Side::Client, size, text: false },
            Method::ReadBackend => Request::Read { side: Side::Backend, size, text: false },
            Method::ReadClientStr => Request::Read { side: Side::Client, size, text: true },
            Method::ReadBackendStr => Request::Read { side: Side::Backend, size, text: true },
            Method::WriteClient => Request::Write { side: Side::Client, text: false },
            Method::WriteBackend => Request::Write { side: Side::Backend, text: false },
            Method::WriteClientStr => Request::Write { side: Side::Client, text: true },
            Method::WriteBackendStr => Request::Write { side: Side::Backend, text: true },
            Method::CloseClient => Request::Close { side: Side::Client },
            Method::CloseBackend => Request::Close { side: Side::Backend },
            Method::CloseAll | Method::Close => Request::CloseAll,
            Method::Select => Request::Race { size },
        }
    }
}

/// Closing is idempotent: a side that was shut down takes no second shutdown,
/// and closing it again leaves the context as it is. Closing one side leaves
/// the other as it was.
pub proof fn lemma_close_idempotent(ctx: Ctx, side: Side)
    ensures
        ctx.with_closed(side).is_closed(side),
        ctx.with_closed(side).closing(side) == Seq::<Side>::empty(),
        ctx.with_closed(side).with_closed(side) == ctx.with_closed(side),
        ctx.with_closed(side).is_closed(side.peer()) == ctx.is_closed(side.peer()),
        ctx.with_closed(side).buf_size == ctx.buf_size,
{
}

/// A side is shut down at most once: whatever was closed before, the
/// shutdowns that closing both sides takes are exactly the sides still open,
/// and afterwards no side is open.
pub proof fn lemma_no_side_left_open(ctx: Ctx)
    ensures
        Ctx::open_sides(ctx.with_closed(Side::Client).with_closed(Side::Backend)) == Seq::<
            Side,
        >::empty(),
        Ctx::open_sides(ctx).len() == ctx.closing(Side::Client).len() + ctx.closing(Side::Backend).len(),
        forall|i: int|
            0 <= i < Ctx::open_sides(ctx).len() ==> !ctx.is_closed(#[trigger] Ctx::open_sides(ctx)[i]),
        ctx.is_closed(Side::Client) && ctx.is_closed(Side::Backend) ==> Ctx::open_sides(ctx).len()
            == 0,
{
}

/// A global that the bridge binds into an interpreter before the script runs.
#[derive(Debug, Clone, Copy, PartialEq, Eq, Structural)]
pub enum Binding {
    /// Read-only identifier of the interpreter instance.
    InstanceId,
    /// Read-only version string.
    Version,
    /// Log function, level info.
    Info,
    /// Log function, level error.
    Error,
    /// Log function, level warn.
    Warn,
    /// Tolerant conversion of bytes to text.
    BytesToString,
    /// Relational store access.
    Query,
    /// Key-value store access.
    Get,
}

/// Why a call from a script fails.
#[derive(Debug, Clone, Copy, PartialEq, Eq, Structural)]
pub enum ScriptError {
    /// The name is not bound in the interpreter.
    Unresolved,
    /// The bytes read are not UTF-8 text.
    InvalidText,
    /// The interpreter refused to bind a global.
    Interpreter,
}

/// Version string that scripts see.
pub const VERSION: &'static str = "0.1.0";

/// `text` without the newline at its end, if it ends in one. Nothing else is
/// taken away: spaces, tabs, a carriage return and any earlier newline stay.
pub open spec fn without_trailing_newline(text: Seq<char>) -> Seq<char> {
    if text.len() > 0 && text.last() == '\n' {
        text.drop_last()
    } else {
        text
    }
}

/// The debug rendering of the error with which `String::from_utf8` rejects
/// `bytes`.
pub uninterp spec fn utf8_error_text(bytes: Seq<u8>) -> Seq<char>;

/// What a script sees of `bytes` as text: the text they encode, or the
/// rendering of the decoding error where they encode none.
pub open spec fn spec_bytes_to_string(bytes: Seq<u8>) -> Seq<char> {
    if bytes.len() == 0 {
        Seq::empty()
    } else if valid_utf8(bytes) {
        decode_utf8(bytes)
    } else {
        utf8_error_text(bytes)
    }
}

/// The globals bound for the given store URIs, in binding order.
pub open spec fn spec_bindings(mysql_uri: Seq<char>, redis_uri: Seq<char>) -> Seq<Binding> {
    seq![
        Binding::InstanceId,
        Binding::Version,
        Binding::Info,
        Binding::Error,
        Binding::Warn,
        Binding::BytesToString,
    ] + (if mysql_uri.len() == 0 {
        Seq::<Binding>::empty()
    } else {
        seq![Binding::Query]
    }) + (if redis_uri.len() == 0 {
        Seq::<Binding>::empty()
    } else {
        seq![Binding::Get]
    })
}

/// The binding that `name` resolves to under the given store URIs, if any.
pub open spec fn spec_resolve(
    mysql_uri: Seq<char>,
    redis_uri: Seq<char>,
    name: Seq<char>,
) -> Option<Binding> {
    match Binding::spec_named(name) {
        Some(binding) => if spec_bindings(mysql_uri, redis_uri).contains(binding) {
            Some(binding)
        } else {
            None
        },
        None => None,
    }
}

/// The interpreter of one connection. It is never shared between connections.
#[verifier::external_type_specification]
#[verifier::external_body]
pub struct ExLua(mlua::Lua);

/// The error with which the interpreter refuses an operation.
#[verifier::external_type_specification]
#[verifier::external_body]
pub struct ExLuaError(mlua::Error);

/// Formats the address of the interpreter, which tells the instances of one
/// process apart. The text differs from run to run, so nothing is claimed of
/// it.
#[verifier::external_body]
fn instance_id(lua: &mlua::Lua) -> (id: String) {
    format!("{:p}", lua)
}

/// A table of the interpreter.
#[verifier::external_type_specification]
#[verifier::external_body]
pub struct ExTable<'lua>(mlua::Table<'lua>);

/// A value of the interpreter.
#[verifier::external_type_specification]
#[verifier::external_body]
pub struct ExValue<'lua>(mlua::Value<'lua>);

/// Tells a string key from any other with the variants of `mlua::Value`, and
/// calls `mlua::String::to_str` on it: the key as text, or nothing where the
/// key is no string or no UTF-8.
#[verifier::external_body]
fn key_text<'lua>(key: &mlua::Value<'lua>) -> (text: Option<String>) {
    match key {
        mlua::Value::String(text) => text.to_str().ok().map(|text| text.to_owned()),
        _ => None,
    }
}

/// Calls `Table::raw_set` with a key and a value of the interpreter. Nothing
/// is claimed of the result.
#[verifier::external_body]
fn raw_store<'lua>(
    table: &mlua::Table<'lua>,
    key: mlua::Value<'lua>,
    value: mlua::Value<'lua>,
) -> (res: Result<(), mlua::Error>) {
    table.raw_set(key, value)
}

/// Calls `Table::raw_set` with a name and a text. Nothing is claimed of the
/// result.
#[verifier::external_body]
fn raw_store_text<'lua>(table: &mlua::Table<'lua>, name: &str, value: &str) -> (res: Result<
    (),
    mlua::Error,
>) {
    table.raw_set(name, value)
}

/// Calls `Table::get_metatable` on the table that `Lua::globals` gives.
/// Nothing is claimed of the result.
#[verifier::external_body]
fn globals_metatable<'lua>(lua: &'lua mlua::Lua) -> (meta: Option<mlua::Table<'lua>>) {
    lua.globals().get_metatable()
}

/// Calls `Table::raw_get` for the table that a metatable holds as `__index`.
/// Nothing is claimed of the result.
#[verifier::external_body]
fn constants_of<'lua>(meta: &mlua::Table<'lua>) -> (res: Result<mlua::Table<'lua>, mlua::Error>) {
    meta.raw_get("__index")
}

/// Gives the globals a metatable, with `Lua::create_table`,
/// `Lua::create_function`, `Table::raw_set` and `Table::set_metatable`: names
/// that the globals lack are read from a table of constants, which is handed
/// back, and every assignment to such a name goes to [`store_global`]. Nothing
/// is claimed of the result.
#[verifier::external_body]
fn guard_globals<'lua>(lua: &'lua mlua::Lua) -> (res: Result<mlua::Table<'lua>, mlua::Error>) {
    let constants = lua.create_table()?;
    let meta = lua.create_table()?;
    let guard = lua.create_function(
        |_, (globals, key, value): (mlua::Table, mlua::Value, mlua::Value)| {
            store_global(&globals, key, value)
        },
    )?;
    meta.raw_set("__index", constants.clone())?;
    meta.raw_set("__newindex", guard)?;
    lua.globals().set_metatable(Some(meta));
    Ok(constants)
}

/// Whether an assignment of a script to the global `key` is carried out. It
/// is unless the key names a read-only binding; a key that is no text names
/// none.
pub open spec fn spec_stores(key: Option<String>) -> bool {
    match key {
        Some(name) => match Binding::spec_named(name@) {
            Some(binding) => !binding.spec_read_only(),
            None => true,
        },
        None => true,
    }
}

/// Whether an assignment of a script to the global `key` is carried out:
/// the read-only bindings keep their value, every other name takes the new
/// one.
pub fn stores_assignment(key: &Option<String>) -> (stores: bool)
    ensures
        stores == spec_stores(*key),
{
    match key {
        Some(name) => match Binding::named(name.as_str()) {
            Some(binding) => !binding.read_only(),
            None => true,
        },
        None => true,
    }
}

/// An assignment of a script to a name that the globals lack: stored, unless
/// [`stores_assignment`] says that the name is read-only, in which case
/// nothing happens and the script goes on.
fn store_global<'lua>(
    globals: &mlua::Table<'lua>,
    key: mlua::Value<'lua>,
    value: mlua::Value<'lua>,
) -> (res: Result<(), mlua::Error>) {
    let name = key_text(&key);
    if stores_assignment(&name) {
        raw_store(globals, key, value)
    } else {
        Ok(())
    }
}

/// Binds a read-only global: the value goes into the table of constants
/// behind the globals, which is set up on first use, so that the name never
/// stands among the globals themselves and every assignment to it passes
/// [`store_global`].
fn set_global_constant(lua: &mlua::Lua, name: &str, value: &str) -> (res: Result<
    (),
    mlua::Error,
>) {
    let constants = match globals_metatable(lua) {
        Some(meta) => constants_of(&meta),
        None => guard_globals(lua),
    };
    match constants {
        Ok(table) => raw_store_text(&table, name, value),
        Err(error) => Err(error),
    }
}

/// Calls `Lua::create_function` with a function that hands its argument to
/// [`bytes_to_string`], and `Table::set` to bind it to `name` in the globals.
/// Nothing is claimed of the result.
#[verifier::external_body]
fn set_global_decoder(lua: &mlua::Lua, name: &str) -> (res: Result<(), mlua::Error>) {
    let decoder = lua.create_function(|_, bytes: Vec<u8>| Ok(bytes_to_string(bytes)))?;
    lua.globals().set(name, decoder)
}

/// Calls `mlua::Error::external` on a `std::io::Error` of the kind that
/// `fault` names. Nothing is claimed of the error that comes back.
#[verifier::external_body]
fn external_error(fault: IoFault) -> (error: mlua::Error) {
    mlua::Error::external(std::io::Error::from(match fault {
        IoFault::BrokenPipe => std::io::ErrorKind::BrokenPipe,
        IoFault::NotConnected => std::io::ErrorKind::NotConnected,
        IoFault::Other => std::io::ErrorKind::Other,
    }))
}

impl Ctx {
    /// The reply as the interpreter takes it: a failure is raised in the
    /// script as an error, any other reply is passed on as it is.
    pub fn to_lua_result(reply: Reply) -> (res: Result<Reply, mlua::Error>)
        ensures
            res is Err <==> reply is Failed,
            res matches Ok(passed) ==> passed == reply,
    {
        match reply {
            Reply::Failed(fault) => Err(external_error(fault)),
            passed => Ok(passed),
        }
    }
}

/// Calls `String::from_utf8`. Bytes that are valid UTF-8 come back as the text
/// they encode; any others are rejected, and what comes back is the debug
/// rendering of the error.
#[verifier::external_body]
fn decode_text(bytes: Vec<u8>) -> (res: Result<String, String>)
    ensures
        res.is_ok() == valid_utf8(bytes@),
        res matches Ok(text) ==> text@ == decode_utf8(bytes@),
        res matches Err(shown) ==> shown@ == utf8_error_text(bytes@),
{
    String::from_utf8(bytes).map_err(|e| format!("{:?}", e))
}

/// The line that a log function of a script hands to the log sink: the
/// message after a fixed prefix, without the newline at its end.
pub fn log_line(message: &str) -> (line: String)
    ensures
        line@ == "[scripts] "@ + without_trailing_newline(message@),
{
    let n: usize = message.unicode_len();
    let mut line = String::from_str("[scripts] ");
    if n > 0 && message.get_char(n - 1) == '\n' {
        let kept = message.substring_char(0, n - 1);
        assert(kept@ =~= message@.drop_last());
        line.append(kept);
    } else {
        line.append(message);
    }
    line
}

/// Text for a script out of bytes that may not be text. Never fails: bytes
/// that are not UTF-8 come back as a rendering of the decoding error.
pub fn bytes_to_string(bytes: Vec<u8>) -> (text: String)
    ensures
        text@ == spec_bytes_to_string(bytes@),
{
    if bytes.len() == 0 {
        return String::new();
    }
    match decode_text(bytes) {
        Ok(text) => text,
        Err(shown) => shown,
    }
}

/// Text for the text variants of a read. Unlike [`bytes_to_string`] this is
/// strict: bytes that are not UTF-8 fail the call.
pub fn read_text(bytes: Vec<u8>) -> (res: Result<String, ScriptError>)
    ensures
        res.is_ok() == valid_utf8(bytes@),
        res matches Ok(text) ==> text@ == decode_utf8(bytes@),
        res matches Err(error) ==> error == ScriptError::InvalidText,
{
    match decode_text(bytes) {
        Ok(text) => Ok(text),
        Err(_) => Err(ScriptError::InvalidText),
    }
}

impl Binding {
    /// The name under which the binding is found in the interpreter.
    pub open spec fn spec_name(self) -> Seq<char> {
        match self {
            Binding::InstanceId => "_instance_id"@,
            Binding::Version => "_version"@,
            Binding::Info => "info"@,
            Binding::Error => "error"@,
            Binding::Warn => "warn"@,
            Binding::BytesToString => "bytes_to_string"@,
            Binding::Query => "query"@,
            Binding::Get => "get"@,
        }
    }

    /// The binding that carries `name`, if any.
    pub open spec fn spec_named(name: Seq<char>) -> Option<Binding> {
        if name == "_instance_id"@ {
            Some(Binding::InstanceId)
        } else if name == "_version"@ {
            Some(Binding::Version)
        } else if name == "info"@ {
            Some(Binding::Info)
        } else if name == "error"@ {
            Some(Binding::Error)
        } else if name == "warn"@ {
            Some(Binding::Warn)
        } else if name == "bytes_to_string"@ {
            Some(Binding::BytesToString)
        } else if name == "query"@ {
            Some(Binding::Query)
        } else if name == "get"@ {
            Some(Binding::Get)
        } else {
            None
        }
    }

    /// Whether a script can read the binding and not assign to it: so for the
    /// instance identifier and the version.
    pub open spec fn spec_read_only(self) -> bool {
        self == Binding::InstanceId || self == Binding::Version
    }

    /// Whether a script can read the binding and not assign to it.
    pub fn read_only(self) -> (read_only: bool)
        ensures
            read_only == self.spec_read_only(),
    {
        match self {
            Binding::InstanceId | Binding::Version => true,
            _ => false,
        }
    }

    /// The name under which the binding is found in the interpreter.
    pub fn name(self) -> (name: &'static str)
        ensures
            name@ == self.spec_name(),
    {
        match self {
            Binding::InstanceId => "_instance_id",
            Binding::Version => "_version",
            Binding::Info => "info",
            Binding::Error => "error",
            Binding::Warn => "warn",
            Binding::BytesToString => "bytes_to_string",
            Binding::Query => "query",
            Binding::Get => "get",
        }
    }

    /// The binding that carries `name`, if any.
    pub fn named(name: &str) -> (found: Option<Binding>)
        ensures
            found == Self::spec_named(name@),
    {
        let name: String = name.to_owned();
        if name == "_instance_id".to_owned() {
            Some(Binding::InstanceId)
        } else if name == "_version".to_owned() {
            Some(Binding::Version)
        } else if name == "info".to_owned() {
            Some(Binding::Info)
        } else if name == "error".to_owned() {
            Some(Binding::Error)
        } else if name == "warn".to_owned() {
            Some(Binding::Warn)
        } else if name == "bytes_to_string".to_owned() {
            Some(Binding::BytesToString)
        } else if name == "query".to_owned() {
            Some(Binding::Query)
        } else if name == "get".to_owned() {
            Some(Binding::Get)
        } else {
            None
        }
    }
}

/// Whether the bridge binds `binding` by itself. The log functions need the
/// log sink and the store functions need the pools, which the host owns.
pub open spec fn bound_by_bridge(binding: Binding) -> bool {
    binding == Binding::InstanceId || binding == Binding::Version || binding
        == Binding::BytesToString
}

/// Binds `binding` into the globals of `lua` where the bridge can do so by
/// itself: the instance identifier as the address of the interpreter, the
/// version as [`VERSION`], and the byte helper as [`bytes_to_string`]. The
/// identifier and the version are bound read-only (see
/// [`Binding::spec_read_only`] and [`stores_assignment`]).
///
/// `Ok(true)` says that the global is bound, `Ok(false)` that it is left to
/// the host, which happens for the log and store functions and for no other.
/// A failure comes from the interpreter alone.
pub fn bind_global(lua: &mlua::Lua, binding: Binding) -> (res: Result<bool, ScriptError>)
    ensures
        !bound_by_bridge(binding) ==> res == Ok::<bool, ScriptError>(false),
        bound_by_bridge(binding) ==> res == Ok::<bool, ScriptError>(true) || res == Err::<
            bool,
            ScriptError,
        >(ScriptError::Interpreter),
{
    let outcome = match binding {
        Binding::InstanceId => {
            let id = instance_id(lua);
            set_global_constant(lua, binding.name(), id.as_str())
        },
        Binding::Version => set_global_constant(lua, binding.name(), VERSION),
        Binding::BytesToString => set_global_decoder(lua, binding.name()),
        _ => {
            return Ok(false);
        },
    };
    match outcome {
        Ok(_) => Ok(true),
        Err(_) => Err(ScriptError::Interpreter),
    }
}

/// The three log functions, in binding order.
fn register_log_function(bindings: &mut Vec<Binding>)
    ensures
        final(bindings)@ == old(bindings)@ + seq![Binding::Info, Binding::Error, Binding::Warn],
{
    bindings.push(Binding::Info);
    bindings.push(Binding::Error);
    bindings.push(Binding::Warn);
    assert(bindings@ =~= old(bindings)@ + seq![Binding::Info, Binding::Error, Binding::Warn]);
}

/// The helper functions.
fn register_help_function(bindings: &mut Vec<Binding>)
    ensures
        final(bindings)@ == old(bindings)@ + seq![Binding::BytesToString],
{
    bindings.push(Binding::BytesToString);
    assert(bindings@ =~= old(bindings)@ + seq![Binding::BytesToString]);
}

/// Relational store access, bound only where a URI is configured.
fn register_mysql_function(bindings: &mut Vec<Binding>, uri: &str)
    ensures
        final(bindings)@ == old(bindings)@ + (if uri@.len() == 0 {
            Seq::<Binding>::empty()
        } else {
            seq![Binding::Query]
        }),
{
    if !uri.is_empty() {
        bindings.push(Binding::Query);
    }
    assert(bindings@ =~= old(bindings)@ + (if uri@.len() == 0 {
        Seq::<Binding>::empty()
    } else {
        seq![Binding::Query]
    }));
}

/// Key-value store access, bound only where a URI is configured.
fn register_redis_function(bindings: &mut Vec<Binding>, uri: &str)
    ensures
        final(bindings)@ == old(bindings)@ + (if uri@.len() == 0 {
            Seq::<Binding>::empty()
        } else {
            seq![Binding::Get]
        }),
{
    if !uri.is_empty() {
        bindings.push(Binding::Get);
    }
    assert(bindings@ =~= old(bindings)@ + (if uri@.len() == 0 {
        Seq::<Binding>::empty()
    } else {
        seq![Binding::Get]
    }));
}

/// The globals to bind into a fresh interpreter before the script source is
/// run, in binding order. A store function is bound only where its URI is
/// configured.
pub fn build_script(args: &ServeArgs) -> (bindings: Vec<Binding>)
    ensures
        bindings@ == spec_bindings(args.mysql_uri@, args.redis_uri@),
{
    let mut bindings: Vec<Binding> = Vec::new();
    bindings.push(Binding::InstanceId);
    bindings.push(Binding::Version);
    register_log_function(&mut bindings);
    register_help_function(&mut bindings);
    register_mysql_function(&mut bindings, args.mysql_uri.as_str());
    register_redis_function(&mut bindings, args.redis_uri.as_str());
    assert(bindings@ =~= spec_bindings(args.mysql_uri@, args.redis_uri@));
    bindings
}

/// Resolves a global name as the interpreter would after [`build_script`]:
/// a name that is not bound is unresolved, whatever it would have stood for.
pub fn resolve_global(args: &ServeArgs, name: &str) -> (res: Result<Binding, ScriptError>)
    ensures
        match spec_resolve(args.mysql_uri@, args.redis_uri@, name@) {
            Some(binding) => res == Ok::<Binding, ScriptError>(binding),
            None => res == Err::<Binding, ScriptError>(ScriptError::Unresolved),
        },
{
    let bindings = build_script(args);
    match Binding::named(name) {
        Some(binding) => {
            let mut i: usize = 0;
            while i < bindings.len()
                invariant
                    i <= bindings@.len(),
                    bindings@ == spec_bindings(args.mysql_uri@, args.redis_uri@),
                    Binding::spec_named(name@) == Some(binding),
                    forall|j: int| 0 <= j < i ==> bindings@[j] != binding,
                decreases bindings@.len() - i,
            {
                if bindings[i] == binding {
                    assert(bindings@[i as int] == binding);
                    return Ok(binding);
                }
                i = i + 1;
            }
            Err(ScriptError::Unresolved)
        },
        None => Err(ScriptError::Unresolved),
    }
}

/// The names of two bindings differ unless the bindings are the same.
pub proof fn lemma_names_distinct(a: Binding, b: Binding)
    ensures
        a.spec_name() == b.spec_name() <==> a == b,
        Binding::spec_named(a.spec_name()) == Some(a),
{
    reveal_strlit("_instance_id");
    reveal_strlit("_version");
    reveal_strlit("info");
    reveal_strlit("error");
    reveal_strlit("warn");
    reveal_strlit("bytes_to_string");
    reveal_strlit("query");
    reveal_strlit("get");
    assert("_instance_id"@.len() == 12);
    assert("_version"@.len() == 8);
    assert("info"@.len() == 4 && "info"@[0] == 'i');
    assert("error"@.len() == 5 && "error"@[0] == 'e');
    assert("warn"@.len() == 4 && "warn"@[0] == 'w');
    assert("bytes_to_string"@.len() == 15);
    assert("query"@.len() == 5 && "query"@[0] == 'q');
    assert("get"@.len() == 3);
}

/// A script can assign to every global but the instance identifier and the
/// version: those two names, and no other, keep the value they were bound
/// with.
pub proof fn lemma_only_constants_are_kept(name: String)
    ensures
        spec_stores(Some(name)) <==> (name@ != "_instance_id"@ && name@ != "_version"@),
        spec_stores(None),
{
    if let Some(binding) = Binding::spec_named(name@) {
        lemma_names_distinct(binding, Binding::InstanceId);
        lemma_names_distinct(binding, Binding::Version);
    }
}

/// A store function whose URI is empty is not bound: its name resolves to
/// nothing, exactly as a name that the bridge never heard of. With a URI set,
/// the name resolves to the store function.
pub proof fn lemma_store_bound_iff_configured(mysql_uri: Seq<char>, redis_uri: Seq<char>)
    ensures
        spec_resolve(mysql_uri, redis_uri, "query"@) == (if mysql_uri.len() == 0 {
            None
        } else {
            Some(Binding::Query)
        }),
        spec_resolve(mysql_uri, redis_uri, "get"@) == (if redis_uri.len() == 0 {
            None
        } else {
            Some(Binding::Get)
        }),
{
    lemma_names_distinct(Binding::Query, Binding::Query);
    lemma_names_distinct(Binding::Get, Binding::Get);
    let all = spec_bindings(mysql_uri, redis_uri);
    if mysql_uri.len() != 0 {
        assert(all[6] == Binding::Query);
    }
    if redis_uri.len() != 0 {
        assert(all[all.len() - 1] == Binding::Get);
    }
}

} // verus!
