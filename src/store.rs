//! The link store: a key-value capability with SET-with-expiry, GET and
//! EXPIRE. `StoreModel` says what a store holds; `MemoryStore` keeps it in
//! memory; the redis functions reach a redis server.
use vstd::prelude::*;
use vstd::string::StringExecFns;
use simple_redis::client::Client;
use simple_redis::types::RedisError;

verus! {

#[verifier::external_type_specification]
#[verifier::external_body]
pub struct ExClient(Client);

#[verifier::external_type_specification]
#[verifier::external_body]
pub struct ExRedisError(RedisError);

/// What a store answered to one request.
#[derive(Debug)]
pub enum StoreReply {
    /// The write was acknowledged.
    Done,
    /// The key holds this value.
    Value(String),
    /// The key holds nothing (absent or expired).
    Missing,
    /// The store was reached and refused the request.
    Refused,
    /// The store could not be reached, or failed the request; the text
    /// says why.
    Unavailable(String),
}

/// The view of a `StoreReply`.
pub enum Reply {
    Done,
    Value(Seq<char>),
    Missing,
    Refused,
    Unavailable,
}

impl View for StoreReply {
    type V = Reply;

    open spec fn view(&self) -> Reply {
        match self {
            StoreReply::Done => Reply::Done,
            StoreReply::Value(v) => Reply::Value(v@),
            StoreReply::Missing => Reply::Missing,
            StoreReply::Refused => Reply::Refused,
            StoreReply::Unavailable(_) => Reply::Unavailable,
        }
    }
}

/// One request to a store.
pub enum StoreRequest {
    /// `SET key value EX seconds`.
    Write { key: String, value: String, seconds: u64 },
    /// `GET key`.
    Lookup { key: String },
    /// `EXPIRE key 0`.
    Expire { key: String },
}

/// The view of a `StoreRequest`.
pub enum Request {
    Write(Seq<char>, Seq<char>, nat),
    Lookup(Seq<char>),
    Expire(Seq<char>),
}

impl View for StoreRequest {
    type V = Request;

    open spec fn view(&self) -> Request {
        match self {
            StoreRequest::Write { key, value, seconds } => Request::Write(key@, value@, *seconds as nat),
            StoreRequest::Lookup { key } => Request::Lookup(key@),
            StoreRequest::Expire { key } => Request::Expire(key@),
        }
    }
}

/// The live mappings of a store, and whether it can be reached.
pub struct StoreModel {
    pub live: Map<Seq<char>, Seq<char>>,
    pub connected: bool,
}

/// `SET key value EX seconds`: a zero expiry is refused.
pub open spec fn set_step(st: StoreModel, key: Seq<char>, value: Seq<char>, seconds: nat) -> (
    StoreModel,
    Reply,
) {
    if !st.connected {
        (st, Reply::Unavailable)
    } else if seconds == 0 {
        (st, Reply::Refused)
    } else {
        (StoreModel { live: st.live.insert(key, value), connected: true }, Reply::Done)
    }
}

/// `GET key`.
pub open spec fn get_step(st: StoreModel, key: Seq<char>) -> Reply {
    if !st.connected {
        Reply::Unavailable
    } else if st.live.contains_key(key) {
        Reply::Value(st.live[key])
    } else {
        Reply::Missing
    }
}

/// `EXPIRE key 0`: the mapping ends at once.
pub open spec fn expire_step(st: StoreModel, key: Seq<char>) -> (StoreModel, Reply) {
    if !st.connected {
        (st, Reply::Unavailable)
    } else {
        (StoreModel { live: st.live.remove(key), connected: true }, Reply::Done)
    }
}

/// What a store does with one request, and its reply.
pub open spec fn run_step(st: StoreModel, req: Request) -> (StoreModel, Reply) {
    match req {
        Request::Write(k, v, seconds) => set_step(st, k, v, seconds),
        Request::Lookup(k) => (st, get_step(st, k)),
        Request::Expire(k) => expire_step(st, k),
    }
}

/// The replies that a request of each kind may get from a store.
pub open spec fn reply_fits(req: Request, r: Reply) -> bool {
    match req {
        Request::Lookup(_) => r is Value || r is Missing || r is Unavailable,
        _ => r is Done || r is Refused || r is Unavailable,
    }
}

/// A store held in memory: parallel lists of keys and values, keys unique.
pub struct MemoryStore {
    keys: Vec<String>,
    values: Vec<String>,
    connected: bool,
    live: Ghost<Map<Seq<char>, Seq<char>>>,
}

impl View for MemoryStore {
    type V = StoreModel;

    closed spec fn view(&self) -> StoreModel {
        StoreModel { live: self.live@, connected: self.connected }
    }
}

impl MemoryStore {
    pub closed spec fn wf(&self) -> bool {
        &&& self.keys@.len() == self.values@.len()
        &&& forall|i: int, j: int|
            0 <= i < j < self.keys@.len() ==> self.keys@[i]@ != self.keys@[j]@
        &&& forall|i: int|
            0 <= i < self.keys@.len() ==> #[trigger] self.live@.contains_key(self.keys@[i]@)
                && self.live@[self.keys@[i]@] == self.values@[i]@
        &&& forall|k: Seq<char>|
            #[trigger] self.live@.contains_key(k) ==> exists|i: int|
                0 <= i < self.keys@.len() && self.keys@[i]@ == k
    }

    /// An empty store that can be reached.
    pub fn new() -> (r: MemoryStore)
        ensures
            r.wf(),
            r@.live == Map::<Seq<char>, Seq<char>>::empty(),
            r@.connected,
    {
        MemoryStore {
            keys: Vec::new(),
            values: Vec::new(),
            connected: true,
            live: Ghost(Map::empty()),
        }
    }

    /// Cuts the store off (or connects it again): while cut off, every
    /// request is answered `Unavailable` and nothing changes.
    pub fn set_connected(&mut self, connected: bool)
        requires
            old(self).wf(),
        ensures
            final(self).wf(),
            final(self)@.live == old(self)@.live,
            final(self)@.connected == connected,
    {
        self.connected = connected;
    }

    fn find(&self, key: &String) -> (r: Option<usize>)
        requires
            self.wf(),
        ensures
            match r {
                Some(i) => i < self.keys@.len() && self.keys@[i as int]@ == key@,
                None => !self.live@.contains_key(key@),
            },
    {
        let mut i: usize = 0;
        while i < self.keys.len()
            invariant
                self.wf(),
                i <= self.keys@.len(),
                forall|j: int| 0 <= j < i ==> self.keys@[j]@ != key@,
            decreases self.keys@.len() - i,
        {
            if self.keys[i] == *key {
                return Some(i);
            }
            i = i + 1;
        }
        None
    }

    /// Answers one request.
    pub fn run(&mut self, req: &StoreRequest) -> (r: StoreReply)
        requires
            old(self).wf(),
        ensures
            final(self).wf(),
            (final(self)@, r@) == run_step(old(self)@, req@),
    {
        match req {
            StoreRequest::Write { key, value, seconds } => self.set(key, value, *seconds),
            StoreRequest::Lookup { key } => self.get(key),
            StoreRequest::Expire { key } => self.expire(key),
        }
    }

    fn disconnected() -> (r: StoreReply)
        ensures
            r@ is Unavailable,
    {
        StoreReply::Unavailable(String::from_str("store disconnected"))
    }

    /// `SET key value EX seconds`.
    fn set(&mut self, key: &String, value: &String, seconds: u64) -> (r: StoreReply)
        requires
            old(self).wf(),
        ensures
            final(self).wf(),
            (final(self)@, r@) == set_step(old(self)@, key@, value@, seconds as nat),
    {
        if !self.connected {
            return Self::disconnected();
        }
        if seconds == 0 {
            return StoreReply::Refused;
        }
        let ghost old_live = self.live@;
        match self.find(key) {
            Some(i) => {
                self.values.set(i, value.clone());
                self.live = Ghost(old_live.insert(key@, value@));
                assert forall|k: Seq<char>| #[trigger] self.live@.contains_key(k) implies exists|
                    j: int,
                | 0 <= j < self.keys@.len() && self.keys@[j]@ == k by {
                    if k != key@ {
                        assert(old_live.contains_key(k));
                    } else {
                        assert(self.keys@[i as int]@ == k);
                    }
                }
            },
            None => {
                self.keys.push(key.clone());
                self.values.push(value.clone());
                self.live = Ghost(old_live.insert(key@, value@));
                let ghost n = self.keys@.len() - 1;
                assert(self.keys@[n]@ == key@);
                assert forall|k: Seq<char>| #[trigger] self.live@.contains_key(k) implies exists|
                    j: int,
                | 0 <= j < self.keys@.len() && self.keys@[j]@ == k by {
                    if k != key@ {
                        assert(old_live.contains_key(k));
                        let j = choose|j: int|
                            0 <= j < old(self).keys@.len() && old(self).keys@[j]@ == k;
                        assert(self.keys@[j]@ == k);
                    } else {
                        assert(self.keys@[n]@ == k);
                    }
                }
                assert forall|a: int, b: int|
                    0 <= a < b < self.keys@.len() implies self.keys@[a]@ != self.keys@[b]@ by {
                    if b == n {
                        assert(old_live.contains_key(old(self).keys@[a]@));
                    }
                }
            },
        }
        assert(self@.live =~= old_live.insert(key@, value@));
        StoreReply::Done
    }

    /// `GET key`.
    fn get(&self, key: &String) -> (r: StoreReply)
        requires
            self.wf(),
        ensures
            r@ == get_step(self@, key@),
    {
        if !self.connected {
            return Self::disconnected();
        }
        match self.find(key) {
            Some(i) => StoreReply::Value(self.values[i].clone()),
            None => StoreReply::Missing,
        }
    }

    /// `EXPIRE key 0`.
    fn expire(&mut self, key: &String) -> (r: StoreReply)
        requires
            old(self).wf(),
        ensures
            final(self).wf(),
            (final(self)@, r@) == expire_step(old(self)@, key@),
    {
        if !self.connected {
            return Self::disconnected();
        }
        let ghost old_live = self.live@;
        match self.find(key) {
            Some(i) => {
                let ghost old_keys = self.keys@;
                let ghost old_values = self.values@;
                self.keys.remove(i);
                self.values.remove(i);
                self.live = Ghost(old_live.remove(key@));
                assert forall|j: int| 0 <= j < self.keys@.len() implies #[trigger] self.live@.contains_key(
                    self.keys@[j]@,
                ) && self.live@[self.keys@[j]@] == self.values@[j]@ by {
                    let oj = if j < i { j } else { j + 1 };
                    assert(self.keys@[j] == old_keys[oj]);
                    assert(self.values@[j] == old_values[oj]);
                    assert(old_keys[i as int]@ == key@);
                    if oj < i {
                        assert(old_keys[oj]@ != old_keys[i as int]@);
                    } else {
                        assert(old_keys[i as int]@ != old_keys[oj]@);
                    }
                    assert(old_live.contains_key(old_keys[oj]@));
                    assert(old_live[old_keys[oj]@] == old_values[oj]@);
                }
                assert forall|k: Seq<char>| #[trigger] self.live@.contains_key(k) implies exists|
                    j: int,
                | 0 <= j < self.keys@.len() && self.keys@[j]@ == k by {
                    assert(old_live.contains_key(k));
                    let oj = choose|j: int| 0 <= j < old_keys.len() && old_keys[j]@ == k;
                    if oj < i {
                        assert(self.keys@[oj]@ == k);
                    } else {
                        assert(oj != i);
                        assert(self.keys@[oj - 1]@ == k);
                    }
                }
                assert forall|a: int, b: int|
                    0 <= a < b < self.keys@.len() implies self.keys@[a]@ != self.keys@[b]@ by {
                    let oa = if a < i { a } else { a + 1 };
                    let ob = if b < i { b } else { b + 1 };
                    assert(self.keys@[a] == old_keys[oa]);
                    assert(self.keys@[b] == old_keys[ob]);
                }
            },
            None => {
                self.live = Ghost(old_live.remove(key@));
                assert(self.live@ =~= old_live);
            },
        }
        assert(self@.live =~= old_live.remove(key@));
        StoreReply::Done
    }
}

/// The address of the redis server that holds the links.
pub const REDIS_ADDRESS: &'static str = "redis://127.0.0.1:6379/";

/// Relies on `simple_redis::create`: makes a client for the address; the
/// connection is opened by the first command.
#[verifier::external_body]
fn redis_client(address: &str) -> (r: Result<Client, RedisError>) {
    simple_redis::create(address)
}

/// Relies on `simple_redis::client::Client::setex`: `SETEX key seconds value`.
#[verifier::external_body]
fn redis_setex(client: &mut Client, key: &str, value: &str, seconds: usize) -> (r: Result<(), RedisError>) {
    client.setex(key, value, seconds)
}

/// Relies on `simple_redis::client::Client::run_command`: `GET key`, with a
/// missing key read as `None`.
#[verifier::external_body]
fn redis_get(client: &mut Client, key: &str) -> (r: Result<Option<String>, RedisError>) {
    client.run_command::<Option<String>>("GET", vec![key])
}

/// Relies on `simple_redis::client::Client::expire`: `EXPIRE key seconds`.
#[verifier::external_body]
fn redis_expire(client: &mut Client, key: &str, seconds: usize) -> (r: Result<(), RedisError>) {
    client.expire(key, seconds)
}

/// Relies on simple_redis's `Display` for `RedisError`: the text of the
/// error.
#[verifier::external_body]
fn error_text(e: &RedisError) -> (r: String) {
    e.to_string()
}

/// A handle on a redis server, reused for any number of requests.
pub struct RedisStore {
    client: Client,
}

impl RedisStore {
    /// A handle on the server at `address`; the connection is opened by the
    /// first request. Fails only on an address that cannot be parsed.
    pub fn open(address: &str) -> (r: Result<RedisStore, String>) {
        match redis_client(address) {
            Ok(client) => Ok(RedisStore { client }),
            Err(e) => Err(error_text(&e)),
        }
    }

    /// Sends `req` to the server as one command: `SETEX key seconds value`,
    /// `GET key` or `EXPIRE key 0`. Any failure is `Unavailable`, with the
    /// server's or the connection's error text.
    pub fn run(&mut self, req: &StoreRequest) -> (r: StoreReply)
        ensures
            reply_fits(req@, r@),
    {
        match req {
            StoreRequest::Write { key, value, seconds } => match redis_setex(
                &mut self.client,
                key.as_str(),
                value.as_str(),
                *seconds as usize,
            ) {
                Ok(()) => StoreReply::Done,
                Err(e) => StoreReply::Unavailable(error_text(&e)),
            },
            StoreRequest::Lookup { key } => match redis_get(&mut self.client, key.as_str()) {
                Ok(Some(v)) => StoreReply::Value(v),
                Ok(None) => StoreReply::Missing,
                Err(e) => StoreReply::Unavailable(error_text(&e)),
            },
            StoreRequest::Expire { key } => match redis_expire(&mut self.client, key.as_str(), 0) {
                Ok(()) => StoreReply::Done,
                Err(e) => StoreReply::Unavailable(error_text(&e)),
            },
        }
    }
}

} // verus!
