//! A short link and its lifecycle: create, register, resolve, expire.
use vstd::prelude::*;
use vstd::string::StringExecFns;
use crate::slug::{slug_of, valid_url, lower_of, calculate_short, is_valid_url};
use crate::store::{
    StoreReply, StoreRequest, Request, Reply, MemoryStore, RedisStore, REDIS_ADDRESS, set_step,
    get_step, expire_step, reply_fits,
};

verus! {

/// Seconds a link lives when no time-to-live is given: one hour.
pub const DEFAULT_TTL: u16 = 3600;

/// Relies on `chrono::Utc::now` and `DateTime::timestamp`: the current UTC
/// time in whole seconds since the epoch. Nothing is known of its value.
#[verifier::external_body]
fn now_timestamp() -> (r: i64) {
    chrono::Utc::now().timestamp()
}

/// A URL that the grammar did not accept, kept as it was given.
#[derive(Debug)]
pub struct ValidationError {
    pub input: String,
}

impl ValidationError {
    /// The text shown for this error.
    pub fn message(&self) -> (r: String)
        ensures
            r@ == "URL Provided is not valid."@,
    {
        String::from_str("URL Provided is not valid.")
    }
}

/// Why an id could not be resolved.
#[derive(Clone, Copy, Debug, PartialEq, Eq, Structural)]
pub enum ResolveError {
    /// No live mapping: never registered, or expired.
    NotFound,
    /// The store could not be reached, or failed the read.
    StoreUnavailable,
}

/// The view of a `ShortURL`.
pub struct LinkView {
    pub id: Seq<char>,
    pub url: Seq<char>,
    pub created_at: i64,
    pub ttl: u16,
}

/// One short link. Its fields are read through getters: only `expire`
/// changes one of them, the time-to-live, to zero.
#[derive(Debug)]
pub struct ShortURL {
    id: String,
    url: String,
    created_at: i64,
    ttl: u16,
}

impl View for ShortURL {
    type V = LinkView;

    closed spec fn view(&self) -> LinkView {
        LinkView { id: self.id@, url: self.url@, created_at: self.created_at, ttl: self.ttl }
    }
}

/// What `register` returns for the store's reply.
pub open spec fn register_result(reply: Reply) -> bool {
    reply is Done
}

/// What `resolve` returns for the store's reply.
pub open spec fn resolve_result(reply: Reply) -> Result<Seq<char>, ResolveError> {
    match reply {
        Reply::Value(v) => Ok(v),
        Reply::Missing => Err(ResolveError::NotFound),
        _ => Err(ResolveError::StoreUnavailable),
    }
}

pub open spec fn result_view(r: Result<String, ResolveError>) -> Result<Seq<char>, ResolveError> {
    match r {
        Ok(v) => Ok(v@),
        Err(e) => Err(e),
    }
}

/// The record that `create` builds for an accepted URL.
pub open spec fn created(url: Seq<char>, ttl: Option<u16>, created_at: i64) -> LinkView {
    LinkView {
        id: slug_of(url),
        url,
        created_at,
        ttl: match ttl {
            Some(t) => t,
            None => DEFAULT_TTL,
        },
    }
}

/// Whether `create` accepts `url` (text too long to index is not accepted).
pub open spec fn accepted(url: Seq<char>) -> bool {
    lower_of(url).len() < usize::MAX - 512 && valid_url(url)
}

/// The store's reply to `register` decides its result.
pub fn register_outcome(reply: &StoreReply) -> (r: bool)
    ensures
        r == register_result(reply@),
{
    match reply {
        StoreReply::Done => true,
        _ => false,
    }
}

/// The store's reply to a lookup decides what `resolve` returns.
pub fn resolve_outcome(reply: StoreReply) -> (r: Result<String, ResolveError>)
    ensures
        result_view(r) == resolve_result(reply@),
{
    match reply {
        StoreReply::Value(v) => Ok(v),
        StoreReply::Missing => Err(ResolveError::NotFound),
        _ => Err(ResolveError::StoreUnavailable),
    }
}

/// The request that looks `id` up.
pub fn get_request(id: &str) -> (r: StoreRequest)
    ensures
        r@ == Request::Lookup(id@),
{
    StoreRequest::Lookup { key: String::from_str(id) }
}

/// Looks `id` up through a redis handle: the value, `NotFound` for a
/// missing key, `StoreUnavailable` for any failure to reach or read the store.
pub fn resolve_on(store: &mut RedisStore, id: &str) -> (r: Result<String, ResolveError>)
    ensures
        exists|reply: Reply|
            reply_fits(Request::Lookup(id@), reply) && result_view(r) == resolve_result(reply),
{
    let reply = store.run(&get_request(id));
    resolve_outcome(reply)
}

/// Looks `id` up in the redis store at the default address.
pub fn resolve(id: &str) -> (r: Result<String, ResolveError>)
    ensures
        exists|reply: Reply|
            reply_fits(Request::Lookup(id@), reply) && result_view(r) == resolve_result(reply),
{
    match RedisStore::open(REDIS_ADDRESS) {
        Ok(mut store) => resolve_on(&mut store, id),
        Err(_) => {
            let r = Err(ResolveError::StoreUnavailable);
            assert(reply_fits(Request::Lookup(id@), Reply::Unavailable) && result_view(r)
                == resolve_result(Reply::Unavailable));
            r
        },
    }
}

/// Looks `id` up in `store`.
pub fn resolve_in(store: &mut MemoryStore, id: &str) -> (r: Result<String, ResolveError>)
    requires
        old(store).wf(),
    ensures
        final(store).wf(),
        final(store)@ == old(store)@,
        result_view(r) == resolve_result(get_step(old(store)@, id@)),
{
    let reply = store.run(&get_request(id));
    resolve_outcome(reply)
}

impl ShortURL {
    pub fn id(&self) -> (r: &String)
        ensures
            r@ == self@.id,
    {
        &self.id
    }

    pub fn url(&self) -> (r: &String)
        ensures
            r@ == self@.url,
    {
        &self.url
    }

    pub fn created_at(&self) -> (r: i64)
        ensures
            r == self@.created_at,
    {
        self.created_at
    }

    pub fn ttl(&self) -> (r: u16)
        ensures
            r == self@.ttl,
    {
        self.ttl
    }

    /// Creates the record of `url`, made at `created_at`, when the grammar
    /// accepts it; the store is not touched.
    pub fn new_at(url: &str, ttl: Option<u16>, created_at: i64) -> (r: Result<
        ShortURL,
        ValidationError,
    >)
        ensures
            r is Ok <==> accepted(url@),
            r matches Ok(s) ==> s@ == created(url@, ttl, created_at),
            r matches Err(e) ==> e.input@ == url@,
    {
        if is_valid_url(url) {
            Ok(
                ShortURL {
                    id: calculate_short(url),
                    url: String::from_str(url),
                    ttl: match ttl {
                        Some(t) => t,
                        None => DEFAULT_TTL,
                    },
                    created_at,
                },
            )
        } else {
            Err(ValidationError { input: String::from_str(url) })
        }
    }

    /// Creates the record of `url` at the current time.
    pub fn new(url: &str, ttl: Option<u16>) -> (r: Result<ShortURL, ValidationError>)
        ensures
            r is Ok <==> accepted(url@),
            r matches Ok(s) ==> s@ == created(url@, ttl, s@.created_at),
            r matches Err(e) ==> e.input@ == url@,
    {
        Self::new_at(url, ttl, now_timestamp())
    }

    /// The request that registers this record: its id mapped to its URL for
    /// `ttl` seconds.
    pub fn set_request(&self) -> (r: StoreRequest)
        ensures
            r@ == Request::Write(self@.id, self@.url, self@.ttl as nat),
    {
        StoreRequest::Write { key: self.id.clone(), value: self.url.clone(), seconds: self.ttl as u64 }
    }

    /// The request that ends this record's mapping now.
    pub fn expire_request(&self) -> (r: StoreRequest)
        ensures
            r@ == Request::Expire(self@.id),
    {
        StoreRequest::Expire { key: self.id.clone() }
    }

    /// Sends `set_request` through a redis handle and hands back the reply.
    /// A zero time-to-live is refused without a request.
    pub fn send_registration(&self, store: &mut RedisStore) -> (r: StoreReply)
        ensures
            self@.ttl == 0 ==> r@ is Refused,
            reply_fits(Request::Write(self@.id, self@.url, self@.ttl as nat), r@),
    {
        if self.ttl == 0 {
            return StoreReply::Refused;
        }
        store.run(&self.set_request())
    }

    /// Registers the record through a redis handle; true only where the
    /// write was acknowledged.
    pub fn register_on(&self, store: &mut RedisStore) -> (r: bool)
        ensures
            self@.ttl == 0 ==> !r,
            exists|reply: Reply|
                reply_fits(Request::Write(self@.id, self@.url, self@.ttl as nat), reply) && r
                    == register_result(reply),
    {
        let reply = self.send_registration(store);
        register_outcome(&reply)
    }

    /// Registers the record in the redis store at the default address.
    pub fn register(&self) -> (r: bool)
        ensures
            self@.ttl == 0 ==> !r,
            exists|reply: Reply|
                reply_fits(Request::Write(self@.id, self@.url, self@.ttl as nat), reply) && r
                    == register_result(reply),
    {
        match RedisStore::open(REDIS_ADDRESS) {
            Ok(mut store) => self.register_on(&mut store),
            Err(_) => {
                assert(reply_fits(
                    Request::Write(self@.id, self@.url, self@.ttl as nat),
                    Reply::Unavailable,
                ) && false == register_result(Reply::Unavailable));
                false
            },
        }
    }

    /// Asks `store` to map the id to the URL for `ttl` seconds.
    pub fn register_in(&self, store: &mut MemoryStore) -> (r: bool)
        requires
            old(store).wf(),
        ensures
            final(store).wf(),
            final(store)@ == set_step(old(store)@, self@.id, self@.url, self@.ttl as nat).0,
            r == register_result(set_step(old(store)@, self@.id, self@.url, self@.ttl as nat).1),
    {
        let reply = store.run(&self.set_request());
        register_outcome(&reply)
    }

    /// The store's reply to an expiry: on success the time-to-live becomes
    /// zero; otherwise the record is left as it was.
    pub fn expire_outcome(&mut self, reply: &StoreReply) -> (r: bool)
        ensures
            r == (reply@ is Done),
            r ==> final(self)@ == (LinkView { ttl: 0, ..old(self)@ }),
            !r ==> final(self)@ == old(self)@,
    {
        match reply {
            StoreReply::Done => {
                self.ttl = 0;
                true
            },
            _ => false,
        }
    }

    /// Sends `expire_request` through a redis handle.
    pub fn expire_on(&mut self, store: &mut RedisStore) -> (r: bool)
        ensures
            exists|reply: Reply|
                reply_fits(Request::Expire(old(self)@.id), reply) && r == (reply is Done),
            r ==> final(self)@ == (LinkView { ttl: 0, ..old(self)@ }),
            !r ==> final(self)@ == old(self)@,
    {
        let reply = store.run(&self.expire_request());
        self.expire_outcome(&reply)
    }

    /// Ends the mapping in the redis store at the default address.
    pub fn expire(&mut self) -> (r: bool)
        ensures
            exists|reply: Reply|
                reply_fits(Request::Expire(old(self)@.id), reply) && r == (reply is Done),
            r ==> final(self)@ == (LinkView { ttl: 0, ..old(self)@ }),
            !r ==> final(self)@ == old(self)@,
    {
        match RedisStore::open(REDIS_ADDRESS) {
            Ok(mut store) => self.expire_on(&mut store),
            Err(_) => {
                assert(reply_fits(Request::Expire(old(self)@.id), Reply::Unavailable));
                false
            },
        }
    }

    /// Asks `store` to end the mapping now.
    pub fn expire_in(&mut self, store: &mut MemoryStore) -> (r: bool)
        requires
            old(store).wf(),
        ensures
            final(store).wf(),
            final(store)@ == expire_step(old(store)@, old(self)@.id).0,
            r == (expire_step(old(store)@, old(self)@.id).1 is Done),
            r ==> final(self)@ == (LinkView { ttl: 0, ..old(self)@ }),
            !r ==> final(self)@ == old(self)@,
    {
        let reply = store.run(&self.expire_request());
        self.expire_outcome(&reply)
    }
}

} // verus!
