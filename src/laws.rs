//! Laws of slugs and of the link lifecycle against a store.
use vstd::prelude::*;
use crate::slug::{slug_of, lower_of};
use crate::store::{StoreModel, set_step, get_step, expire_step};
use crate::short_url::{LinkView, register_result, resolve_result, ResolveError};

verus! {

/// A slug depends on the lower-cased URL alone: two URLs that lower-case to
/// the same text have the same slug, however they are capitalised.
pub proof fn lemma_slug_ignores_case(u: Seq<char>, v: Seq<char>)
    requires
        lower_of(u) == lower_of(v),
    ensures
        slug_of(u) == slug_of(v),
{
}

/// Registering a record with a live time-to-live in a reachable store and
/// then resolving its id gives back its URL, capitalisation unchanged.
pub proof fn lemma_register_then_resolve(st: StoreModel, rec: LinkView)
    requires
        st.connected,
        rec.ttl > 0,
    ensures
        register_result(set_step(st, rec.id, rec.url, rec.ttl as nat).1),
        resolve_result(get_step(set_step(st, rec.id, rec.url, rec.ttl as nat).0, rec.id)) == Ok::<
            Seq<char>,
            ResolveError,
        >(rec.url),
{
}

/// Once an expiry has succeeded, resolving the id finds nothing.
pub proof fn lemma_expire_then_resolve(st: StoreModel, id: Seq<char>)
    requires
        expire_step(st, id).1 is Done,
    ensures
        resolve_result(get_step(expire_step(st, id).0, id)) == Err::<Seq<char>, ResolveError>(
            ResolveError::NotFound,
        ),
{
}

/// Resolving an id that the store does not hold is `NotFound`, not a fault.
pub proof fn lemma_resolve_unknown(st: StoreModel, id: Seq<char>)
    requires
        st.connected,
        !st.live.contains_key(id),
    ensures
        resolve_result(get_step(st, id)) == Err::<Seq<char>, ResolveError>(
            ResolveError::NotFound,
        ),
{
}

/// A store that cannot be reached never lets an operation succeed:
/// registering fails, resolving is `StoreUnavailable`, expiring fails, and
/// the store is left as it was.
pub proof fn lemma_disconnected(st: StoreModel, rec: LinkView, id: Seq<char>)
    requires
        !st.connected,
    ensures
        !register_result(set_step(st, rec.id, rec.url, rec.ttl as nat).1),
        set_step(st, rec.id, rec.url, rec.ttl as nat).0 == st,
        resolve_result(get_step(st, id)) == Err::<Seq<char>, ResolveError>(
            ResolveError::StoreUnavailable,
        ),
        !(expire_step(st, id).1 is Done),
        expire_step(st, id).0 == st,
{
}

/// Two records with the same id (a slug collision): registering the second
/// after the first overwrites the mapping, and resolving the id gives the
/// second URL.
pub proof fn lemma_collision_overwrites(st: StoreModel, first: LinkView, second: LinkView)
    requires
        st.connected,
        first.id == second.id,
        first.ttl > 0,
        second.ttl > 0,
    ensures
        ({
            let st1 = set_step(st, first.id, first.url, first.ttl as nat).0;
            let (st2, reply) = set_step(st1, second.id, second.url, second.ttl as nat);
            register_result(reply) && resolve_result(get_step(st2, second.id)) == Ok::<
                Seq<char>,
                ResolveError,
            >(second.url)
        }),
{
}

} // verus!
