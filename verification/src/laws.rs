//! The coherence laws of the fetch orchestration, stated over the
//! operation contracts of [`crate::client`] and proved once and for all.
//!
//! Each law quantifies over arbitrary client states related by the
//! operations' postconditions, so it applies to every run of the
//! corresponding calls, whatever the transport returned.

use vstd::prelude::*;

use crate::cache::{
    distinct_keys, expiry_at, lemma_backfill_serves_all, lemma_hit_within_ttl,
    lemma_removed_misses,
};
use crate::client::{Client, Transport, film_entries, session_entries};
use crate::error::ApiResult;
use crate::film::{Film, FilmView};
use crate::session::{Session, SessionView};

verus! {

/// A "get session by ID" immediately following a successful
/// "get session by ID" for the same ID, within the time-to-live window,
/// returns the very value the first call fetched and leaves the whole
/// client — the transport included — untouched.
pub proof fn lemma_get_after_get_session<T: Transport>(
    c0: Client<T>,
    c1: Client<T>,
    c2: Client<T>,
    now: u64,
    later: u64,
    id: u32,
    s: Session,
    r2: ApiResult<Session>,
)
    requires
        c0.wf(),
        c0.session_items() matches Some(m) && m.lookup(id, now) is None,
        Client::<T>::get_session_post(c0, c1, now, id, Ok(s)),
        Client::<T>::get_session_post(c1, c2, later, id, r2),
        now <= later < expiry_at(now, c0.session_items()->0.ttl),
    ensures
        c2 == c1,
        r2 matches Ok(s2) && s2@ == s@,
{
    let m = c0.session_items()->0;
    lemma_hit_within_ttl(m, id, s@, now, later);
    assert(c1.session_items() == Some(m.inserted(id, s@, now)));
}

/// Invalidating a single session by ID removes every future cache hit
/// for that ID, leaves every other session's cached entry untouched, and
/// empties the session list cache, so the next "list all" call cannot be
/// served from it, whether or not it had expired.
pub proof fn lemma_invalidate_session_clears<T>(
    c0: Client<T>,
    c1: Client<T>,
    id: u32,
    other: u32,
    now: u64,
)
    requires
        c0.wf(),
        c1.session_items() == crate::cache::opt_item_removed(c0.session_items(), id),
        c1.session_list() == crate::cache::opt_list_cleared(c0.session_list()),
    ensures
        c1.session_items() matches Some(m) ==> m.lookup(id, now) is None,
        c1.session_items() matches Some(m) ==> (other != id ==> m.stored(other)
            == c0.session_items()->0.stored(other)),
        c1.session_list() matches Some(lm) ==> lm.lookup(now) is None,
{
    match c0.session_items() {
        Some(m) => {
            lemma_removed_misses(m, id, other, now);
        },
        None => {},
    }
}

/// Round trip: a "list all sessions" miss that returned the list `l`,
/// with distinct session IDs and no more sessions than the item cache
/// has capacity, makes every following "get session by ID" for a member
/// of `l`, within the time-to-live window, a cache hit: it returns that
/// very member and leaves the whole client — the transport included —
/// untouched.
pub proof fn lemma_list_then_get_session<T: Transport>(
    c0: Client<T>,
    c1: Client<T>,
    c2: Client<T>,
    now: u64,
    later: u64,
    l: Seq<SessionView>,
    i: int,
    r2: ApiResult<Session>,
)
    requires
        c0.wf(),
        c0.session_items() is Some,
        c0.session_list() matches Some(lm) && lm.lookup(now) is None,
        Client::<T>::list_sessions_ok(c0, c1, now, l),
        forall|a: int, b: int| 0 <= a < b < l.len() ==> l[a].id != l[b].id,
        l.len() <= c0.session_items()->0.cap,
        0 <= i < l.len(),
        now <= later < expiry_at(now, c0.session_items()->0.ttl),
        Client::<T>::get_session_post(c1, c2, later, l[i].id, r2),
    ensures
        c2 == c1,
        r2 matches Ok(s) && s@ == l[i],
{
    let m = c0.session_items()->0;
    let items = session_entries(l);
    assert(forall|j: int| 0 <= j < items.len() ==> items[j] == (l[j].id, l[j]));
    assert(distinct_keys(items));
    lemma_backfill_serves_all(m, items, now, later, i);
    assert(c1.session_items() == Some(m.backfilled(items, now)));
}

/// Calling "invalidate all caches" twice in a row is equivalent to
/// calling it once: the second call finds every cache already empty and
/// changes none of them.
pub proof fn lemma_invalidate_all_idempotent<T>(c0: Client<T>, c1: Client<T>, c2: Client<T>)
    requires
        c1.session_items() == crate::cache::opt_item_cleared(c0.session_items()),
        c1.session_list() == crate::cache::opt_list_cleared(c0.session_list()),
        c1.web_session_list() == crate::cache::opt_list_cleared(c0.web_session_list()),
        c1.film_items() == crate::cache::opt_item_cleared(c0.film_items()),
        c1.film_list() == crate::cache::opt_list_cleared(c0.film_list()),
        c1.film_package_items() == crate::cache::opt_item_cleared(c0.film_package_items()),
        c1.film_package_list() == crate::cache::opt_list_cleared(c0.film_package_list()),
        c1.screen_items() == crate::cache::opt_item_cleared(c0.screen_items()),
        c1.screen_list() == crate::cache::opt_list_cleared(c0.screen_list()),
        c1.attribute_items() == crate::cache::opt_item_cleared(c0.attribute_items()),
        c1.attribute_list() == crate::cache::opt_list_cleared(c0.attribute_list()),
        c1.site_slot() == crate::cache::opt_list_cleared(c0.site_slot()),
        c2.session_items() == crate::cache::opt_item_cleared(c1.session_items()),
        c2.session_list() == crate::cache::opt_list_cleared(c1.session_list()),
        c2.web_session_list() == crate::cache::opt_list_cleared(c1.web_session_list()),
        c2.film_items() == crate::cache::opt_item_cleared(c1.film_items()),
        c2.film_list() == crate::cache::opt_list_cleared(c1.film_list()),
        c2.film_package_items() == crate::cache::opt_item_cleared(c1.film_package_items()),
        c2.film_package_list() == crate::cache::opt_list_cleared(c1.film_package_list()),
        c2.screen_items() == crate::cache::opt_item_cleared(c1.screen_items()),
        c2.screen_list() == crate::cache::opt_list_cleared(c1.screen_list()),
        c2.attribute_items() == crate::cache::opt_item_cleared(c1.attribute_items()),
        c2.attribute_list() == crate::cache::opt_list_cleared(c1.attribute_list()),
        c2.site_slot() == crate::cache::opt_list_cleared(c1.site_slot()),
    ensures
        c2.session_items() == c1.session_items(),
        c2.session_list() == c1.session_list(),
        c2.web_session_list() == c1.web_session_list(),
        c2.film_items() == c1.film_items(),
        c2.film_list() == c1.film_list(),
        c2.film_package_items() == c1.film_package_items(),
        c2.film_package_list() == c1.film_package_list(),
        c2.screen_items() == c1.screen_items(),
        c2.screen_list() == c1.screen_list(),
        c2.attribute_items() == c1.attribute_items(),
        c2.attribute_list() == c1.attribute_list(),
        c2.site_slot() == c1.site_slot(),
{
}

} // verus!

verus! {

/// A "get film by ID" immediately following a successful "get film by
/// ID" for the same ID, within the time-to-live window, returns the very
/// value the first call fetched and leaves the whole client — the
/// transport included — untouched.
pub proof fn lemma_get_after_get_film<T: Transport>(
    c0: Client<T>,
    c1: Client<T>,
    c2: Client<T>,
    now: u64,
    later: u64,
    id: Seq<char>,
    f: Film,
    r2: ApiResult<Film>,
)
    requires
        c0.wf(),
        c0.film_items() matches Some(m) && m.lookup(id, now) is None,
        Client::<T>::get_film_post(c0, c1, now, id, Ok(f)),
        Client::<T>::get_film_post(c1, c2, later, id, r2),
        now <= later < expiry_at(now, c0.film_items()->0.ttl),
    ensures
        c2 == c1,
        r2 matches Ok(f2) && f2@ == f@,
{
    let m = c0.film_items()->0;
    lemma_hit_within_ttl(m, id, f@, now, later);
    assert(c1.film_items() == Some(m.inserted(id, f@, now)));
}

/// Invalidating a single film by ID removes every future cache hit for
/// that ID, leaves every other film's cached entry untouched, and
/// empties the film list cache, so the next "list all" call cannot be
/// served from it, whether or not it had expired.
pub proof fn lemma_invalidate_film_clears<T>(
    c0: Client<T>,
    c1: Client<T>,
    id: Seq<char>,
    other: Seq<char>,
    now: u64,
)
    requires
        c0.wf(),
        c1.film_items() == crate::cache::opt_item_removed(c0.film_items(), id),
        c1.film_list() == crate::cache::opt_list_cleared(c0.film_list()),
    ensures
        c1.film_items() matches Some(m) ==> m.lookup(id, now) is None,
        c1.film_items() matches Some(m) ==> (other != id ==> m.stored(other) == c0.film_items()
            ->0.stored(other)),
        c1.film_list() matches Some(lm) ==> lm.lookup(now) is None,
{
    match c0.film_items() {
        Some(m) => {
            lemma_removed_misses(m, id, other, now);
        },
        None => {},
    }
}

/// Round trip: a "list all films" miss that returned the list `l`, with
/// distinct film IDs and no more films than the item cache has capacity,
/// makes every following "get film by ID" for a member of `l`, within
/// the time-to-live window, a cache hit: it returns that very member and
/// leaves the whole client — the transport included — untouched.
pub proof fn lemma_list_then_get_film<T: Transport>(
    c0: Client<T>,
    c1: Client<T>,
    c2: Client<T>,
    now: u64,
    later: u64,
    l: Seq<FilmView>,
    i: int,
    r2: ApiResult<Film>,
)
    requires
        c0.wf(),
        c0.film_items() is Some,
        c0.film_list() matches Some(lm) && lm.lookup(now) is None,
        Client::<T>::list_films_ok(c0, c1, now, l),
        forall|a: int, b: int| 0 <= a < b < l.len() ==> l[a].id != l[b].id,
        l.len() <= c0.film_items()->0.cap,
        0 <= i < l.len(),
        now <= later < expiry_at(now, c0.film_items()->0.ttl),
        Client::<T>::get_film_post(c1, c2, later, l[i].id, r2),
    ensures
        c2 == c1,
        r2 matches Ok(f) && f@ == l[i],
{
    let m = c0.film_items()->0;
    let items = film_entries(l);
    assert(forall|j: int| 0 <= j < items.len() ==> items[j] == (l[j].id, l[j]));
    assert(distinct_keys(items));
    lemma_backfill_serves_all(m, items, now, later, i);
    assert(c1.film_items() == Some(m.backfilled(items, now)));
}

} // verus!
