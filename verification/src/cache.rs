//! The cache store: a key-value store with per-entry time-to-live expiry
//! and capacity-bounded eviction, plus a single-slot variant for "list all"
//! responses.
//!
//! Time is explicit: every operation takes the current time `now` (seconds
//! since the Unix epoch) as an argument, and an entry inserted at `now`
//! with time-to-live `ttl` is live exactly while `now < now + ttl`
//! (saturating at `u64::MAX`). A lookup never extends an entry's lifetime.
//! When an insert of a fresh key would exceed the capacity, the
//! oldest-inserted entry is evicted first.
//!
//! Each store is specified against a mathematical model
//! ([`ItemCacheModel`], [`ListCacheModel`]): every operation's contract
//! states the exact model of the store after the call.

use vstd::prelude::*;

verus! {

/// A key that an [`ItemCache`] can be indexed by.
///
/// `repr` is the mathematical value of the key; `key_eq` decides equality
/// of those values, and `dup` produces an independent key with the same
/// value.
pub trait CacheKey: Sized {
    /// The mathematical value of a key.
    type Repr;

    /// The mathematical value of this key.
    spec fn repr(&self) -> Self::Repr;

    /// Decide whether two keys have the same mathematical value.
    fn key_eq(&self, other: &Self) -> (r: bool)
        ensures
            r == (self.repr() == other.repr()),
    ;

    /// Produce an independent key with the same mathematical value.
    fn dup(&self) -> (r: Self)
        ensures
            r.repr() == self.repr(),
    ;
}

/// A value that a cache can store.
///
/// `repr` is the mathematical value of the stored datum, and `dup`
/// produces an independent copy with the same value.
pub trait CacheValue: Sized {
    /// The mathematical value of a stored datum.
    type Repr;

    /// The mathematical value of this datum.
    spec fn repr(&self) -> Self::Repr;

    /// Produce an independent copy with the same mathematical value.
    fn dup(&self) -> (r: Self)
        ensures
            r.repr() == self.repr(),
    ;
}

/// The moment at which an entry inserted at `now` with time-to-live `ttl`
/// expires, saturating at `u64::MAX`.
pub open spec fn expiry_at(now: u64, ttl: u64) -> u64 {
    if now + ttl > u64::MAX {
        u64::MAX
    } else {
        (now + ttl) as u64
    }
}

/// The mathematical model of an [`ItemCache`]: the time-to-live, the
/// capacity, and the entries in insertion order (oldest first). Each entry
/// is a key value, a stored value, and the moment it expires.
pub struct ItemCacheModel<KR, VR> {
    /// Time-to-live, in seconds, granted to each inserted entry.
    pub ttl: u64,
    /// The largest number of entries the store will hold.
    pub cap: u64,
    /// The entries, oldest insertion first.
    pub entries: Seq<(KR, VR, u64)>,
}

impl<KR, VR> ItemCacheModel<KR, VR> {
    /// Well-formedness: at least one slot, no more entries than slots, and
    /// no two entries with the same key.
    pub open spec fn wf(self) -> bool {
        &&& self.cap >= 1
        &&& self.entries.len() <= self.cap
        &&& forall|i: int, j: int|
            0 <= i < j < self.entries.len() ==> self.entries[i].0 != self.entries[j].0
    }

    /// Whether some entry (live or expired) has key `k`.
    pub open spec fn has_key(self, k: KR) -> bool {
        exists|i: int| 0 <= i < self.entries.len() && self.entries[i].0 == k
    }

    /// The position of the entry with key `k`, when there is one.
    pub open spec fn index_of(self, k: KR) -> int {
        choose|i: int| 0 <= i < self.entries.len() && self.entries[i].0 == k
    }

    /// The stored value and expiry for key `k`, ignoring expiry.
    pub open spec fn stored(self, k: KR) -> Option<(VR, u64)> {
        if self.has_key(k) {
            Some((self.entries[self.index_of(k)].1, self.entries[self.index_of(k)].2))
        } else {
            None
        }
    }

    /// The value a lookup of `k` at time `now` returns: the stored value
    /// if present and not yet expired, nothing otherwise.
    pub open spec fn lookup(self, k: KR, now: u64) -> Option<VR> {
        match self.stored(k) {
            Some((v, exp)) => if now < exp {
                Some(v)
            } else {
                None
            },
            None => None,
        }
    }

    /// The model after removing the entry with key `k`, if any.
    pub open spec fn removed(self, k: KR) -> Self {
        if self.has_key(k) {
            ItemCacheModel { entries: self.entries.remove(self.index_of(k)), ..self }
        } else {
            self
        }
    }

    /// The model after removing every entry.
    pub open spec fn cleared(self) -> Self {
        ItemCacheModel { entries: Seq::empty(), ..self }
    }

    /// The model after inserting `v` under `k` at time `now`: an existing
    /// entry for `k` is replaced; otherwise, if the store is full, the
    /// oldest entry is evicted; the new entry is appended with a fresh
    /// expiry.
    pub open spec fn inserted(self, k: KR, v: VR, now: u64) -> Self {
        let base = if self.has_key(k) {
            self.entries.remove(self.index_of(k))
        } else if self.entries.len() >= self.cap {
            self.entries.drop_first()
        } else {
            self.entries
        };
        ItemCacheModel { entries: base.push((k, v, expiry_at(now, self.ttl))), ..self }
    }

    /// The model after inserting each of `items` in order at time `now`.
    pub open spec fn backfilled(self, items: Seq<(KR, VR)>, now: u64) -> Self
        decreases items.len(),
    {
        if items.len() == 0 {
            self
        } else {
            self.inserted(items[0].0, items[0].1, now).backfilled(items.drop_first(), now)
        }
    }
}

/// A key-value store with per-entry time-to-live expiry and
/// capacity-bounded eviction of the oldest entry.
pub struct ItemCache<K: CacheKey, V: CacheValue> {
    /// Time-to-live, in seconds, granted to each inserted entry.
    ttl: u64,
    /// The largest number of entries the store will hold.
    cap: u64,
    /// The entries, oldest insertion first: key, value, expiry.
    entries: Vec<(K, V, u64)>,
}

impl<K: CacheKey, V: CacheValue> View for ItemCache<K, V> {
    type V = ItemCacheModel<K::Repr, V::Repr>;

    closed spec fn view(&self) -> ItemCacheModel<K::Repr, V::Repr> {
        ItemCacheModel {
            ttl: self.ttl,
            cap: self.cap,
            entries: self.entries@.map_values(|e: (K, V, u64)| (e.0.repr(), e.1.repr(), e.2)),
        }
    }
}

impl<K: CacheKey, V: CacheValue> ItemCache<K, V> {
    /// An empty store with the given time-to-live and capacity. A capacity
    /// of zero is treated as one.
    pub fn new(ttl: u64, cap: u64) -> (r: Self)
        ensures
            r@ == (ItemCacheModel::<K::Repr, V::Repr> {
                ttl,
                cap: if cap == 0 { 1u64 } else { cap },
                entries: Seq::empty(),
            }),
            r@.wf(),
    {
        let c: u64 = if cap == 0 {
            1
        } else {
            cap
        };
        let r = ItemCache { ttl, cap: c, entries: Vec::new() };
        proof {
            assert(r@.entries =~= Seq::<(K::Repr, V::Repr, u64)>::empty());
        }
        r
    }

    /// Look `key` up at time `now`: a copy of the stored value if one is
    /// present and not expired, nothing otherwise. The entry's lifetime is
    /// not extended.
    pub fn get(&self, key: &K, now: u64) -> (r: Option<V>)
        requires
            self@.wf(),
        ensures
            match r {
                Some(v) => self@.lookup(key.repr(), now) == Some(v.repr()),
                None => self@.lookup(key.repr(), now) is None,
            },
    {
        let n = self.entries.len();
        let mut i: usize = 0;
        while i < n
            invariant
                n == self.entries.len(),
                self@.wf(),
                forall|j: int| 0 <= j < i ==> self@.entries[j].0 != key.repr(),
            decreases n - i,
        {
            let e = &self.entries[i];
            if e.0.key_eq(key) {
                proof {
                    assert(self@.entries[i as int].0 == key.repr());
                    assert(self@.has_key(key.repr()));
                    let w = self@.index_of(key.repr());
                    assert(0 <= w < self@.entries.len() && self@.entries[w].0 == key.repr());
                    assert(w == i as int);
                }
                if now < e.2 {
                    return Some(e.1.dup());
                } else {
                    return None;
                }
            }
            i = i + 1;
        }
        proof {
            assert(!self@.has_key(key.repr()));
        }
        None
    }

    /// The position of the entry for `key`, if there is one.
    fn find_index(&self, key: &K) -> (r: Option<usize>)
        requires
            self@.wf(),
        ensures
            match r {
                Some(i) => i < self@.entries.len() && self@.entries[i as int].0 == key.repr()
                    && self@.has_key(key.repr()) && self@.index_of(key.repr()) == i,
                None => !self@.has_key(key.repr()),
            },
    {
        let n = self.entries.len();
        let mut i: usize = 0;
        while i < n
            invariant
                n == self.entries.len(),
                self@.wf(),
                forall|j: int| 0 <= j < i ==> self@.entries[j].0 != key.repr(),
            decreases n - i,
        {
            let e = &self.entries[i];
            if e.0.key_eq(key) {
                proof {
                    assert(self@.entries[i as int].0 == key.repr());
                    assert(self@.has_key(key.repr()));
                    let w = self@.index_of(key.repr());
                    assert(0 <= w < self@.entries.len() && self@.entries[w].0 == key.repr());
                    assert(w == i as int);
                }
                return Some(i);
            }
            i = i + 1;
        }
        proof {
            assert(!self@.has_key(key.repr()));
        }
        None
    }

    /// Insert `value` under `key` at time `now`, replacing any entry for
    /// the same key, evicting the oldest entry if the store is full, and
    /// granting the new entry a fresh time-to-live.
    pub fn insert(&mut self, key: K, value: V, now: u64)
        requires
            old(self)@.wf(),
        ensures
            final(self)@ == old(self)@.inserted(key.repr(), value.repr(), now),
            final(self)@.wf(),
    {
        let ghost m0 = self@;
        let ghost kr = key.repr();
        match self.find_index(&key) {
            Some(i) => {
                self.entries.remove(i);
            },
            None => {
                if (self.entries.len() as u64) >= self.cap {
                    self.entries.remove(0);
                    proof {
                        assert(self.entries@.map_values(
                            |e: (K, V, u64)| (e.0.repr(), e.1.repr(), e.2),
                        ) =~= m0.entries.drop_first());
                    }
                }
            },
        }
        let exp: u64 = if now > u64::MAX - self.ttl {
            u64::MAX
        } else {
            now + self.ttl
        };
        self.entries.push((key, value, exp));
        proof {
            assert(exp == expiry_at(now, m0.ttl));
            assert(self@.entries =~= m0.inserted(kr, value.repr(), now).entries);
            assert(self@ == m0.inserted(kr, value.repr(), now));
            lemma_inserted_wf(m0, kr, value.repr(), now);
        }
    }

    /// Remove the entry for `key`, if any. A no-op otherwise.
    pub fn invalidate(&mut self, key: &K)
        requires
            old(self)@.wf(),
        ensures
            final(self)@ == old(self)@.removed(key.repr()),
            final(self)@.wf(),
    {
        let ghost m0 = self@;
        let ghost kr = key.repr();
        match self.find_index(key) {
            Some(i) => {
                self.entries.remove(i);
                proof {
                    assert(self@.entries =~= m0.removed(kr).entries);
                    assert(self@ == m0.removed(kr));
                    lemma_removed_wf(m0, kr);
                }
            },
            None => {},
        }
    }

    /// Remove every entry.
    pub fn invalidate_all(&mut self)
        ensures
            final(self)@ == old(self)@.cleared(),
            old(self)@.wf() ==> final(self)@.wf(),
    {
        self.entries.clear();
        proof {
            assert(self@.entries =~= Seq::<(K::Repr, V::Repr, u64)>::empty());
        }
    }
}

/// The mathematical model of a [`ListCache`]: the time-to-live and the
/// single slot, holding a value and its expiry when populated.
pub struct ListCacheModel<VR> {
    /// Time-to-live, in seconds, granted to the slot when it is filled.
    pub ttl: u64,
    /// The slot: the cached value and the moment it expires, when
    /// populated.
    pub slot: Option<(VR, u64)>,
}

impl<VR> ListCacheModel<VR> {
    /// The value a lookup at time `now` returns: the slot's value if
    /// populated and not yet expired, nothing otherwise.
    pub open spec fn lookup(self, now: u64) -> Option<VR> {
        match self.slot {
            Some((v, exp)) => if now < exp {
                Some(v)
            } else {
                None
            },
            None => None,
        }
    }

    /// The model after storing `v` at time `now`.
    pub open spec fn filled(self, v: VR, now: u64) -> Self {
        ListCacheModel { slot: Some((v, expiry_at(now, self.ttl))), ..self }
    }

    /// The model after emptying the slot.
    pub open spec fn cleared(self) -> Self {
        ListCacheModel { slot: None, ..self }
    }
}

/// A single-slot cache with time-to-live expiry, holding the most recent
/// full "list all" response for one entity type.
pub struct ListCache<V: CacheValue> {
    /// Time-to-live, in seconds, granted to the slot when it is filled.
    ttl: u64,
    /// The slot: the cached value and the moment it expires.
    slot: Option<(V, u64)>,
}

impl<V: CacheValue> View for ListCache<V> {
    type V = ListCacheModel<V::Repr>;

    closed spec fn view(&self) -> ListCacheModel<V::Repr> {
        ListCacheModel {
            ttl: self.ttl,
            slot: match self.slot {
                Some((v, exp)) => Some((v.repr(), exp)),
                None => None,
            },
        }
    }
}

impl<V: CacheValue> ListCache<V> {
    /// An empty single-slot cache with the given time-to-live.
    pub fn new(ttl: u64) -> (r: Self)
        ensures
            r@ == (ListCacheModel::<V::Repr> { ttl, slot: None }),
    {
        ListCache { ttl, slot: None }
    }

    /// A copy of the cached value, if the slot is populated and not yet
    /// expired at time `now`. The slot's lifetime is not extended.
    pub fn get(&self, now: u64) -> (r: Option<V>)
        ensures
            match r {
                Some(v) => self@.lookup(now) == Some(v.repr()),
                None => self@.lookup(now) is None,
            },
    {
        match &self.slot {
            Some(pair) => {
                if now < pair.1 {
                    Some(pair.0.dup())
                } else {
                    None
                }
            },
            None => None,
        }
    }

    /// Store `value` at time `now`, overwriting any previous slot
    /// contents and granting a fresh time-to-live.
    pub fn insert(&mut self, value: V, now: u64)
        ensures
            final(self)@ == old(self)@.filled(value.repr(), now),
    {
        let exp: u64 = if now > u64::MAX - self.ttl {
            u64::MAX
        } else {
            now + self.ttl
        };
        self.slot = Some((value, exp));
    }

    /// Empty the slot.
    pub fn invalidate_all(&mut self)
        ensures
            final(self)@ == old(self)@.cleared(),
    {
        self.slot = None;
    }
}

/// The model of an optional item cache.
pub open spec fn opt_item_view<K: CacheKey, V: CacheValue>(c: Option<ItemCache<K, V>>) -> Option<
    ItemCacheModel<K::Repr, V::Repr>,
> {
    match c {
        Some(x) => Some(x@),
        None => None,
    }
}

/// The model of an optional list cache.
pub open spec fn opt_list_view<V: CacheValue>(c: Option<ListCache<V>>) -> Option<
    ListCacheModel<V::Repr>,
> {
    match c {
        Some(x) => Some(x@),
        None => None,
    }
}

/// Insertion lifted to an optional model: absent caches stay absent.
pub open spec fn opt_item_inserted<KR, VR>(
    m: Option<ItemCacheModel<KR, VR>>,
    k: KR,
    v: VR,
    now: u64,
) -> Option<ItemCacheModel<KR, VR>> {
    match m {
        Some(x) => Some(x.inserted(k, v, now)),
        None => None,
    }
}

/// Removal lifted to an optional model: absent caches stay absent.
pub open spec fn opt_item_removed<KR, VR>(m: Option<ItemCacheModel<KR, VR>>, k: KR) -> Option<
    ItemCacheModel<KR, VR>,
> {
    match m {
        Some(x) => Some(x.removed(k)),
        None => None,
    }
}

/// Clearing lifted to an optional model: absent caches stay absent.
pub open spec fn opt_item_cleared<KR, VR>(m: Option<ItemCacheModel<KR, VR>>) -> Option<
    ItemCacheModel<KR, VR>,
> {
    match m {
        Some(x) => Some(x.cleared()),
        None => None,
    }
}

/// Backfilling lifted to an optional model: absent caches stay absent.
pub open spec fn opt_item_backfilled<KR, VR>(
    m: Option<ItemCacheModel<KR, VR>>,
    items: Seq<(KR, VR)>,
    now: u64,
) -> Option<ItemCacheModel<KR, VR>> {
    match m {
        Some(x) => Some(x.backfilled(items, now)),
        None => None,
    }
}

/// Filling lifted to an optional list model: absent caches stay absent.
pub open spec fn opt_list_filled<VR>(m: Option<ListCacheModel<VR>>, v: VR, now: u64) -> Option<
    ListCacheModel<VR>,
> {
    match m {
        Some(x) => Some(x.filled(v, now)),
        None => None,
    }
}

/// Clearing lifted to an optional list model: absent caches stay absent.
pub open spec fn opt_list_cleared<VR>(m: Option<ListCacheModel<VR>>) -> Option<
    ListCacheModel<VR>,
> {
    match m {
        Some(x) => Some(x.cleared()),
        None => None,
    }
}

/// Well-formedness of an optional item cache model: holds when absent.
pub open spec fn opt_item_wf<KR, VR>(m: Option<ItemCacheModel<KR, VR>>) -> bool {
    match m {
        Some(x) => x.wf(),
        None => true,
    }
}

/// Backfilling one more item is one more insertion at the end.
pub proof fn lemma_backfilled_push<KR, VR>(
    m: ItemCacheModel<KR, VR>,
    items: Seq<(KR, VR)>,
    x: (KR, VR),
    now: u64,
)
    ensures
        m.backfilled(items.push(x), now) == m.backfilled(items, now).inserted(x.0, x.1, now),
    decreases items.len(),
{
    let s = items.push(x);
    if items.len() == 0 {
        assert(s[0] == x);
        assert(s.drop_first() =~= Seq::<(KR, VR)>::empty());
        assert(m.backfilled(s, now) == m.inserted(x.0, x.1, now).backfilled(s.drop_first(), now));
    } else {
        assert(s[0] == items[0]);
        assert(s.drop_first() =~= items.drop_first().push(x));
        lemma_backfilled_push(m.inserted(items[0].0, items[0].1, now), items.drop_first(), x, now);
    }
}

/// Backfilling keeps a model well-formed.
pub proof fn lemma_backfilled_wf<KR, VR>(m: ItemCacheModel<KR, VR>, items: Seq<(KR, VR)>, now: u64)
    requires
        m.wf(),
    ensures
        m.backfilled(items, now).wf(),
        m.backfilled(items, now).ttl == m.ttl,
        m.backfilled(items, now).cap == m.cap,
    decreases items.len(),
{
    if items.len() > 0 {
        lemma_inserted_wf(m, items[0].0, items[0].1, now);
        lemma_backfilled_wf(m.inserted(items[0].0, items[0].1, now), items.drop_first(), now);
    }
}

/// A freshly inserted entry is served for the full time-to-live window:
/// looking `k` up at any `later` from the insertion time up to (but not
/// including) the expiry yields exactly the inserted value.
pub proof fn lemma_hit_within_ttl<KR, VR>(
    m: ItemCacheModel<KR, VR>,
    k: KR,
    v: VR,
    now: u64,
    later: u64,
)
    requires
        m.wf(),
        now <= later < expiry_at(now, m.ttl),
    ensures
        m.inserted(k, v, now).lookup(k, later) == Some(v),
{
    let mi = m.inserted(k, v, now);
    lemma_inserted_wf(m, k, v, now);
    let n = mi.entries.len() - 1;
    assert(mi.entries[n] == (k, v, expiry_at(now, m.ttl)));
    assert(mi.has_key(k));
    let w = mi.index_of(k);
    assert(0 <= w < mi.entries.len() && mi.entries[w].0 == k);
    assert(w == n);
}

/// After removing `k`, a lookup of `k` finds nothing, and every other
/// key's entry is untouched.
pub proof fn lemma_removed_misses<KR, VR>(m: ItemCacheModel<KR, VR>, k: KR, k2: KR, now: u64)
    requires
        m.wf(),
    ensures
        m.removed(k).lookup(k, now) is None,
        k2 != k ==> m.removed(k).stored(k2) == m.stored(k2),
{
    lemma_removed_wf(m, k);
    let mr = m.removed(k);
    if m.has_key(k) {
        let w = m.index_of(k);
        assert(0 <= w < m.entries.len() && m.entries[w].0 == k);
        if k2 != k {
            if m.has_key(k2) {
                let i = m.index_of(k2);
                assert(0 <= i < m.entries.len() && m.entries[i].0 == k2);
                assert(i != w);
                let i2 = if i < w {
                    i
                } else {
                    i - 1
                };
                assert(mr.entries[i2] == m.entries[i]);
                assert(mr.has_key(k2));
                let j = mr.index_of(k2);
                assert(0 <= j < mr.entries.len() && mr.entries[j].0 == k2);
                assert(mr.entries[j] == if j < w {
                    m.entries[j]
                } else {
                    m.entries[j + 1]
                });
                assert(j == i2);
            } else {
                if mr.has_key(k2) {
                    let j = mr.index_of(k2);
                    assert(0 <= j < mr.entries.len() && mr.entries[j].0 == k2);
                    assert(mr.entries[j] == if j < w {
                        m.entries[j]
                    } else {
                        m.entries[j + 1]
                    });
                }
                assert(!mr.has_key(k2));
            }
        }
    }
}

/// The entries of `items` stamped with the expiry `exp`.
pub open spec fn stamped<KR, VR>(items: Seq<(KR, VR)>, exp: u64) -> Seq<(KR, VR, u64)> {
    items.map_values(|p: (KR, VR)| (p.0, p.1, exp))
}

/// The keys of `items` are pairwise distinct.
pub open spec fn distinct_keys<KR, VR>(items: Seq<(KR, VR)>) -> bool {
    forall|a: int, b: int| 0 <= a < b < items.len() ==> items[a].0 != items[b].0
}

/// After backfilling a list of distinctly keyed items that fits within
/// the capacity, the store's entries end with exactly those items, all
/// stamped with the same fresh expiry, and nothing before them carries
/// one of their keys.
pub proof fn lemma_backfilled_structure<KR, VR>(
    m: ItemCacheModel<KR, VR>,
    items: Seq<(KR, VR)>,
    now: u64,
)
    requires
        m.wf(),
        distinct_keys(items),
        items.len() <= m.cap,
    ensures
        exists|rest: Seq<(KR, VR, u64)>|
            #![all_triggers]
            m.backfilled(items, now).entries == rest + stamped(items, expiry_at(now, m.ttl)) && (
            forall|a: int, b: int|
                0 <= a < rest.len() && 0 <= b < items.len() ==> rest[a].0 != items[b].0),
    decreases items.len(),
{
    let exp = expiry_at(now, m.ttl);
    if items.len() == 0 {
        let rest = m.entries;
        assert(m.backfilled(items, now) == m);
        assert(m.entries =~= rest + stamped(items, exp));
    } else {
        let s = items.drop_last();
        let x = items.last();
        assert(items == s.push(x));
        assert(forall|a: int| 0 <= a < s.len() ==> s[a] == items[a]);
        lemma_backfilled_structure(m, s, now);
        let rest = choose|rest: Seq<(KR, VR, u64)>|
            #![all_triggers]
            m.backfilled(s, now).entries == rest + stamped(s, exp) && (forall|a: int, b: int|
                0 <= a < rest.len() && 0 <= b < s.len() ==> rest[a].0 != s[b].0);
        let mp = m.backfilled(s, now);
        lemma_backfilled_wf(m, s, now);
        lemma_backfilled_push(m, s, x, now);
        assert(m.backfilled(items, now) == mp.inserted(x.0, x.1, now));
        assert(mp.entries == rest + stamped(s, exp));
        assert(forall|b: int|
            0 <= b < stamped(s, exp).len() ==> #[trigger] stamped(s, exp)[b] == (
            s[b].0,
            s[b].1,
            exp,
            ));
        // the key of the last item never occurs in the already backfilled tail
        assert(forall|b: int| 0 <= b < s.len() ==> s[b].0 != x.0);
        if mp.has_key(x.0) {
            let w = mp.index_of(x.0);
            assert(0 <= w < mp.entries.len() && mp.entries[w].0 == x.0);
            assert(w < rest.len());
            let rest2 = rest.remove(w);
            assert(mp.entries.remove(w) =~= rest2 + stamped(s, exp));
            let final_entries = mp.inserted(x.0, x.1, now).entries;
            assert(final_entries == mp.entries.remove(w).push((x.0, x.1, exp)));
            assert(final_entries =~= rest2 + stamped(items, exp));
            assert forall|a: int, b: int|
                0 <= a < rest2.len() && 0 <= b < items.len() implies rest2[a].0 != items[b].0 by {
                assert(rest2[a] == if a < w {
                    rest[a]
                } else {
                    rest[a + 1]
                });
                if b < s.len() {
                } else {
                    // distinctness of the whole store rules the removed key out
                    let a2 = if a < w {
                        a
                    } else {
                        a + 1
                    };
                    assert(mp.entries[a2] == rest[a2]);
                    assert(a2 != w);
                }
            }
        } else if mp.entries.len() >= mp.cap {
            assert(mp.cap == m.cap);
            assert(rest.len() + s.len() >= m.cap);
            assert(s.len() + 1 <= m.cap);
            assert(rest.len() >= 1);
            let rest2 = rest.drop_first();
            assert(mp.entries.drop_first() =~= rest2 + stamped(s, exp));
            let final_entries = mp.inserted(x.0, x.1, now).entries;
            assert(final_entries =~= rest2 + stamped(items, exp));
            assert forall|a: int, b: int|
                0 <= a < rest2.len() && 0 <= b < items.len() implies rest2[a].0 != items[b].0 by {
                assert(rest2[a] == rest[a + 1]);
                if b == s.len() {
                    assert(mp.entries[a + 1] == rest[a + 1]);
                    assert(!mp.has_key(x.0));
                }
            }
        } else {
            let final_entries = mp.inserted(x.0, x.1, now).entries;
            assert(final_entries =~= rest + stamped(items, exp));
            assert forall|a: int, b: int|
                0 <= a < rest.len() && 0 <= b < items.len() implies rest[a].0 != items[b].0 by {
                if b == s.len() {
                    assert(mp.entries[a] == rest[a]);
                    assert(!mp.has_key(x.0));
                }
            }
        }
    }
}

/// Every item of a freshly backfilled list is served from the store for
/// the full time-to-live window, provided the items carry distinct keys
/// and the whole list fits within the capacity.
pub proof fn lemma_backfill_serves_all<KR, VR>(
    m: ItemCacheModel<KR, VR>,
    items: Seq<(KR, VR)>,
    now: u64,
    later: u64,
    i: int,
)
    requires
        m.wf(),
        distinct_keys(items),
        items.len() <= m.cap,
        0 <= i < items.len(),
        now <= later < expiry_at(now, m.ttl),
    ensures
        m.backfilled(items, now).lookup(items[i].0, later) == Some(items[i].1),
{
    let exp = expiry_at(now, m.ttl);
    let mb = m.backfilled(items, now);
    lemma_backfilled_wf(m, items, now);
    lemma_backfilled_structure(m, items, now);
    let rest = choose|rest: Seq<(KR, VR, u64)>|
        #![all_triggers]
        mb.entries == rest + stamped(items, exp) && (forall|a: int, b: int|
            0 <= a < rest.len() && 0 <= b < items.len() ==> rest[a].0 != items[b].0);
    let p = rest.len() + i;
    assert(stamped(items, exp)[i] == (items[i].0, items[i].1, exp));
    assert(mb.entries[p] == (items[i].0, items[i].1, exp));
    assert(mb.has_key(items[i].0));
    let w = mb.index_of(items[i].0);
    assert(0 <= w < mb.entries.len() && mb.entries[w].0 == items[i].0);
    assert(w == p);
}

/// Removing one entry keeps a model well-formed.
pub proof fn lemma_removed_wf<KR, VR>(m: ItemCacheModel<KR, VR>, k: KR)
    requires
        m.wf(),
    ensures
        m.removed(k).wf(),
        !m.removed(k).has_key(k),
{
    if m.has_key(k) {
        let w = m.index_of(k);
        assert(0 <= w < m.entries.len() && m.entries[w].0 == k);
        let r = m.entries.remove(w);
        assert forall|i: int, j: int| 0 <= i < j < r.len() implies r[i].0 != r[j].0 by {
            assert(r[i] == if i < w {
                m.entries[i]
            } else {
                m.entries[i + 1]
            });
            assert(r[j] == if j < w {
                m.entries[j]
            } else {
                m.entries[j + 1]
            });
        }
        assert forall|i: int| 0 <= i < r.len() implies r[i].0 != k by {
            assert(r[i] == if i < w {
                m.entries[i]
            } else {
                m.entries[i + 1]
            });
        }
    }
}

/// Inserting keeps a model well-formed.
pub proof fn lemma_inserted_wf<KR, VR>(m: ItemCacheModel<KR, VR>, k: KR, v: VR, now: u64)
    requires
        m.wf(),
    ensures
        m.inserted(k, v, now).wf(),
{
    let r = m.inserted(k, v, now).entries;
    if m.has_key(k) {
        let w = m.index_of(k);
        assert(0 <= w < m.entries.len() && m.entries[w].0 == k);
        let base = m.entries.remove(w);
        assert forall|i: int, j: int| 0 <= i < j < r.len() implies r[i].0 != r[j].0 by {
            if j < r.len() - 1 {
                assert(base[i] == if i < w {
                    m.entries[i]
                } else {
                    m.entries[i + 1]
                });
                assert(base[j] == if j < w {
                    m.entries[j]
                } else {
                    m.entries[j + 1]
                });
            } else {
                assert(base[i] == if i < w {
                    m.entries[i]
                } else {
                    m.entries[i + 1]
                });
            }
        }
    } else if m.entries.len() >= m.cap {
        let base = m.entries.drop_first();
        assert forall|i: int, j: int| 0 <= i < j < r.len() implies r[i].0 != r[j].0 by {
            if j < r.len() - 1 {
                assert(base[i] == m.entries[i + 1]);
                assert(base[j] == m.entries[j + 1]);
            } else {
                assert(base[i] == m.entries[i + 1]);
            }
        }
    } else {
        assert forall|i: int, j: int| 0 <= i < j < r.len() implies r[i].0 != r[j].0 by {}
    }
}

} // verus!
