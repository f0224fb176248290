//! Registry of the pools shared by all connections.
//!
//! A pool is set up once per store and URI, on first use, and kept for the
//! life of the process. The registry hands out handles: the position of a pool
//! in the order of setup. Setting a pool up is slow and may fail, so it is the
//! caller's work; the registry decides when it is due and records its result.
//! The caller holds the registry under one lock from [`Registry::get_pool`] to
//! [`Registry::install`].

use vstd::prelude::*;

verus! {

/// The backing stores that scripts can reach.
#[derive(Debug, Clone, Copy, PartialEq, Eq, Structural)]
pub enum StoreKind {
    /// The relational store behind `query`.
    Relational,
    /// The key-value store behind `get`.
    KeyValue,
}

/// What identifies a pool: the store and the configured URI.
#[derive(Debug)]
pub struct PoolKey {
    pub kind: StoreKind,
    pub uri: String,
}

/// Answer of the registry to a script that needs a pool.
#[derive(Debug, Clone, Copy, PartialEq, Eq, Structural)]
pub enum Lookup {
    /// The pool exists; this is its handle.
    Cached(usize),
    /// No pool yet: it has to be set up and installed.
    Setup,
}

/// Why no pool could be handed out.
#[derive(Debug, Clone, Copy, PartialEq, Eq, Structural)]
pub enum PoolError {
    /// The driver of the store does not accept the URI.
    BadUri,
    /// The store could not be reached.
    Unreachable,
}

/// The error with which the relational driver rejects a URI.
#[verifier::external_type_specification]
#[verifier::external_body]
pub struct ExUrlError(r2d2_mysql::mysql::UrlError);

/// The error with which the key-value driver rejects a URI.
#[verifier::external_type_specification]
#[verifier::external_body]
pub struct ExRedisError(redis::RedisError);

/// Whether `mysql::Opts::from_url` accepts `uri`.
pub uninterp spec fn mysql_url_accepted(uri: Seq<char>) -> bool;

/// Whether `redis::Client::open` accepts `uri`.
pub uninterp spec fn redis_url_accepted(uri: Seq<char>) -> bool;

/// Whether the driver of `kind` accepts `uri`.
pub open spec fn uri_accepted(kind: StoreKind, uri: Seq<char>) -> bool {
    match kind {
        StoreKind::Relational => mysql_url_accepted(uri),
        StoreKind::KeyValue => redis_url_accepted(uri),
    }
}

/// What setting a pool up comes to, from whether the driver accepted the URI
/// and whether the store then answered.
pub open spec fn spec_setup_result(accepted: bool, connected: bool) -> Result<(), PoolError> {
    if !accepted {
        Err(PoolError::BadUri)
    } else if !connected {
        Err(PoolError::Unreachable)
    } else {
        Ok(())
    }
}

/// Calls `mysql::Opts::from_url`, which only parses: the outcome depends on the
/// text of the URI alone. The options it builds are dropped.
#[verifier::external_body]
fn parse_mysql_uri(uri: &str) -> (res: Result<(), r2d2_mysql::mysql::UrlError>)
    ensures
        res.is_ok() == mysql_url_accepted(uri@),
{
    r2d2_mysql::mysql::Opts::from_url(uri).map(|_| ())
}

/// Calls `redis::Client::open`, which checks the URI and opens no connection:
/// the outcome depends on the text of the URI alone. The client it builds is
/// dropped.
#[verifier::external_body]
fn parse_redis_uri(uri: &str) -> (res: Result<(), redis::RedisError>)
    ensures
        res.is_ok() == redis_url_accepted(uri@),
{
    redis::Client::open(uri).map(|_| ())
}

/// Whether the driver of `kind` accepts `uri`, before any connection is tried.
pub fn check_uri(kind: StoreKind, uri: &str) -> (res: Result<(), PoolError>)
    ensures
        res == spec_setup_result(uri_accepted(kind, uri@), true),
{
    match kind {
        StoreKind::Relational => match parse_mysql_uri(uri) {
            Ok(_) => setup_result(true, true),
            Err(_) => setup_result(false, true),
        },
        StoreKind::KeyValue => match parse_redis_uri(uri) {
            Ok(_) => setup_result(true, true),
            Err(_) => setup_result(false, true),
        },
    }
}

/// What setting a pool up comes to: a URI that the driver rejects is a bad
/// URI whether or not anything answered, an accepted one is unreachable if
/// nothing answered.
pub fn setup_result(accepted: bool, connected: bool) -> (res: Result<(), PoolError>)
    ensures
        res == spec_setup_result(accepted, connected),
{
    if !accepted {
        Err(PoolError::BadUri)
    } else if !connected {
        Err(PoolError::Unreachable)
    } else {
        Ok(())
    }
}

/// The pools of the process, in the order in which they were set up.
#[derive(Debug)]
pub struct Registry {
    keys: Vec<PoolKey>,
}

/// No key stands at two places.
pub open spec fn distinct(keys: Seq<(StoreKind, Seq<char>)>) -> bool {
    forall|i: int, j: int| 0 <= i < j < keys.len() ==> keys[i] != keys[j]
}

/// `handle` is a place where `key` stands.
pub open spec fn holds(
    keys: Seq<(StoreKind, Seq<char>)>,
    key: (StoreKind, Seq<char>),
    handle: int,
) -> bool {
    0 <= handle < keys.len() && keys[handle] == key
}

/// What the registry answers for `key`.
pub open spec fn answers(
    keys: Seq<(StoreKind, Seq<char>)>,
    key: (StoreKind, Seq<char>),
    lookup: Lookup,
) -> bool {
    match lookup {
        Lookup::Cached(handle) => holds(keys, key, handle as int),
        Lookup::Setup => !keys.contains(key),
    }
}

/// A successful setup of `key` leads from `before` to `after` and gives
/// `handle`: a key that is there keeps its place and nothing changes, a new key
/// goes to the end.
pub open spec fn installed(
    before: Seq<(StoreKind, Seq<char>)>,
    key: (StoreKind, Seq<char>),
    after: Seq<(StoreKind, Seq<char>)>,
    handle: int,
) -> bool {
    if before.contains(key) {
        after == before && holds(before, key, handle)
    } else {
        after == before.push(key) && handle == before.len()
    }
}

impl PoolKey {
    /// The key as a plain value.
    pub open spec fn view(&self) -> (StoreKind, Seq<char>) {
        (self.kind, self.uri@)
    }
}

impl Registry {
    /// The keys of the pools, by handle.
    pub closed spec fn view(&self) -> Seq<(StoreKind, Seq<char>)> {
        self.keys@.map_values(|key: PoolKey| key@)
    }

    /// Every pool has a key of its own.
    pub open spec fn wf(&self) -> bool {
        distinct(self@)
    }

    /// A registry without pools.
    pub fn new() -> (registry: Registry)
        ensures
            registry@.len() == 0,
            registry.wf(),
    {
        Registry { keys: Vec::new() }
    }

    /// The number of pools that were set up.
    pub fn len(&self) -> (n: usize)
        ensures
            n == self@.len(),
    {
        self.keys.len()
    }

    /// The handle of the pool for a store and URI, or the request to set it
    /// up.
    pub fn get_pool(&self, kind: StoreKind, uri: &str) -> (lookup: Lookup)
        ensures
            answers(self@, (kind, uri@), lookup),
    {
        let wanted: String = uri.to_owned();
        let mut i: usize = 0;
        while i < self.keys.len()
            invariant
                i <= self.keys@.len(),
                wanted@ == uri@,
                self@.len() == self.keys@.len(),
                forall|j: int| 0 <= j < i ==> self@[j] != (kind, uri@),
            decreases self.keys@.len() - i,
        {
            assert(self@[i as int] == self.keys@[i as int]@);
            if self.keys[i].kind == kind && self.keys[i].uri == wanted {
                return Lookup::Cached(i);
            }
            i = i + 1;
        }
        Lookup::Setup
    }

    /// Records the result of setting up the pool for a store and URI.
    ///
    /// A failed setup caches nothing and fails the call. After a successful one
    /// the pool has a handle: the one it already had if the key was installed
    /// before, else the next free one.
    pub fn install(&mut self, kind: StoreKind, uri: &str, setup: Result<(), PoolError>) -> (res:
        Result<usize, PoolError>)
        requires
            old(self).wf(),
        ensures
            final(self).wf(),
            setup matches Err(error) ==> res == Err::<usize, PoolError>(error) && final(self)@
                == old(self)@,
            setup is Ok ==> (res matches Ok(handle) && installed(
                old(self)@,
                (kind, uri@),
                final(self)@,
                handle as int,
            )),
    {
        match setup {
            Err(error) => {
                return Err(error);
            },
            Ok(_) => {},
        }
        match self.get_pool(kind, uri) {
            Lookup::Cached(handle) => Ok(handle),
            Lookup::Setup => {
                let handle: usize = self.keys.len();
                self.keys.push(PoolKey { kind, uri: uri.to_owned() });
                assert(self@ =~= old(self)@.push((kind, uri@)));
                Ok(handle)
            },
        }
    }
}

/// Two scripts that need the pool of one store and URI share one pool: the
/// second setup changes nothing and gives the handle of the first, the registry
/// grew by at most one pool, the key stands at that handle and nowhere else,
/// and from then on a lookup answers with that handle and never asks for a
/// setup.
pub proof fn lemma_one_pool_per_key(
    start: Seq<(StoreKind, Seq<char>)>,
    key: (StoreKind, Seq<char>),
    first: Seq<(StoreKind, Seq<char>)>,
    first_handle: int,
    second: Seq<(StoreKind, Seq<char>)>,
    second_handle: int,
)
    requires
        distinct(start),
        installed(start, key, first, first_handle),
        installed(first, key, second, second_handle),
    ensures
        second == first,
        second_handle == first_handle,
        first.len() <= start.len() + 1,
        distinct(second),
        forall|handle: int| holds(second, key, handle) <==> handle == first_handle,
        forall|lookup: Lookup|
            answers(second, key, lookup) ==> (lookup matches Lookup::Cached(handle) && handle
                == first_handle),
{
    if !start.contains(key) {
        assert(first[start.len() as int] == key);
    }
    assert(holds(first, key, first_handle));
    assert(first.contains(key));
}

} // verus!
