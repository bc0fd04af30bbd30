//! The distance cache: solved pairs, kept under their canonical order.

use vstd::prelude::*;
use crate::canonical::Query;
use crate::distance_data::DistanceData;
use crate::error::{DistanceError, DistanceResult};
use crate::position::Position;
use crate::store::{
    store_build, store_get, store_insert, written, Store, StoreKey, StoreValue, Written,
    MAX_IDLE_SECS, MAX_INITIAL_CAPACITY,
};

verus! {

/// How a cache is built. Fixed for the life of the cache.
#[derive(Clone, Copy, Debug, PartialEq, Eq, Structural)]
pub struct CacheConfig {
    /// Seconds an entry may go unread and unwritten before it is dropped.
    pub idle_secs: u64,
    /// Number of entries to make room for at the start. A hint only.
    pub initial_capacity: usize,
    /// Number of entries the cache holds at most, approximately.
    pub max_capacity: u64,
}

impl CacheConfig {
    /// The configuration of a cache that is given none: ninety seconds of
    /// idle time, room for 64 entries at the start, 65536 entries at most.
    pub open spec fn standard() -> CacheConfig {
        CacheConfig { idle_secs: 90, initial_capacity: 64, max_capacity: 65536 }
    }

    /// Whether a cache can be built from this configuration: the idle time is
    /// at most [`MAX_IDLE_SECS`] and the capacity hint at most
    /// [`MAX_INITIAL_CAPACITY`].
    pub open spec fn is_acceptable(self) -> bool {
        self.idle_secs <= MAX_IDLE_SECS && self.initial_capacity <= MAX_INITIAL_CAPACITY
    }

    /// Decides [`CacheConfig::is_acceptable`].
    pub fn acceptable(&self) -> (r: bool)
        ensures
            r == self.is_acceptable(),
    {
        self.idle_secs <= MAX_IDLE_SECS && self.initial_capacity <= MAX_INITIAL_CAPACITY
    }
}

impl Default for CacheConfig {
    fn default() -> (config: Self)
        ensures
            config == CacheConfig::standard(),
    {
        CacheConfig { idle_secs: 90, initial_capacity: 64, max_capacity: 65536 }
    }
}

/// The entries of a cache: a solved result for each pair of positions.
pub type Entries = Map<(Position, Position), DistanceData>;

/// A pair of positions as the store keeps it.
pub open spec fn key_of(pair: (Position, Position)) -> StoreKey {
    (pair.0.lat, pair.0.lon, pair.1.lat, pair.1.lon)
}

/// A result as the store keeps it.
pub open spec fn value_of(data: DistanceData) -> StoreValue {
    (data.distance, data.forward_azimuth, data.backward_azimuth)
}

/// A result as the store hands it back.
pub open spec fn data_of(value: StoreValue) -> DistanceData {
    DistanceData { distance: value.0, forward_azimuth: value.1, backward_azimuth: value.2 }
}

/// What a read of the store comes to: the result it handed back, if any.
pub open spec fn read_back(found: Option<StoreValue>) -> Option<DistanceData> {
    match found {
        Some(value) => Some(data_of(value)),
        None => None,
    }
}

/// The key under which the store keeps the pair `(low, high)`.
pub fn store_key(low: Position, high: Position) -> (key: StoreKey)
    ensures
        key == key_of((low, high)),
{
    (low.lat, low.lon, high.lat, high.lon)
}

/// A result in the form in which the store keeps it.
pub fn store_value(data: DistanceData) -> (value: StoreValue)
    ensures
        value == value_of(data),
{
    (data.distance, data.forward_azimuth, data.backward_azimuth)
}

/// The result that a read of the store handed back, if it handed one back.
pub fn entry_from(found: Option<StoreValue>) -> (entry: Option<DistanceData>)
    ensures
        entry == read_back(found),
{
    match found {
        Some(value) => Some(
            DistanceData {
                distance: value.0,
                forward_azimuth: value.1,
                backward_azimuth: value.2,
            },
        ),
        None => None,
    }
}

/// What was written to the store, read as entries.
pub open spec fn entries_of(stored: Written) -> Entries {
    Map::new(
        |pair: (Position, Position)| stored.contains_key(key_of(pair)),
        |pair: (Position, Position)| data_of(stored[key_of(pair)]),
    )
}

/// Every key is a pair of valid positions in canonical order. Of the two
/// orders of a pair of distinct positions at most one is a key.
pub open spec fn canonical(entries: Entries) -> bool {
    forall|pair: (Position, Position)| #[trigger]
        entries.contains_key(pair) ==> {
            &&& pair.0.is_valid()
            &&& pair.1.is_valid()
            &&& !pair.0.follows(pair.1)
        }
}

/// What a query comes to once the solver has answered for its canonical
/// pair: the answer in the caller's order, or a failure if there was none.
pub open spec fn settle(flipped: bool, solved: Option<DistanceData>) -> DistanceResult {
    match solved {
        Some(raw) => Ok(raw.oriented(flipped)),
        None => Err(DistanceError::SolverFailure),
    }
}

/// The entries after the solver has answered for a pair: the answer is kept
/// under the pair, a failure leaves no trace.
pub open spec fn recorded(
    entries: Entries,
    pair: (Position, Position),
    solved: Option<DistanceData>,
) -> Entries {
    match solved {
        Some(raw) => entries.insert(pair, raw),
        None => entries,
    }
}

/// What the first half of a query decides.
#[derive(Clone, Copy, Debug, PartialEq, Eq, Structural)]
pub enum Step {
    /// The query is answered from the cache.
    Hit(DistanceData),
    /// The query is refused.
    Fail(DistanceError),
    /// The solver has to be asked for `low` and `high` of this request.
    Solve(Query),
}

impl Step {
    /// What a lookup decides for a request in canonical order: an entry found
    /// answers it, in the caller's order; nothing found sends it to the
    /// solver.
    pub open spec fn after_lookup(q: Query, found: Option<DistanceData>) -> Step {
        match found {
            Some(raw) => Step::Hit(raw.oriented(q.flipped)),
            None => Step::Solve(q),
        }
    }

    /// Decides [`Step::after_lookup`].
    pub fn from_lookup(q: Query, found: Option<DistanceData>) -> (step: Step)
        ensures
            step == Step::after_lookup(q, found),
    {
        match found {
            Some(raw) => Step::Hit(q.orient(raw)),
            None => Step::Solve(q),
        }
    }
}

/// Whether `step` is a first half of the query `(a, b)` against `entries`.
///
/// An invalid position ends the query. Otherwise the query either is
/// answered from the entry under its canonical pair, or goes to the solver.
/// A cache may have dropped an entry, so going to the solver is always
/// possible; answering is possible only from an entry.
pub open spec fn begins(entries: Entries, a: Position, b: Position, step: Step) -> bool {
    let q = Query::of(a, b);
    if a.is_valid() && b.is_valid() {
        ||| step == Step::Solve(q)
        ||| entries.contains_key(q.pair()) && step == Step::Hit(
            entries[q.pair()].oriented(q.flipped),
        )
    } else {
        step == Step::Fail(DistanceError::InvalidInput)
    }
}

/// The result of the query `(a, b)` once the solver has answered `solved`
/// for its canonical pair.
pub open spec fn outcome(a: Position, b: Position, solved: Option<DistanceData>) -> DistanceResult {
    if a.is_valid() && b.is_valid() {
        settle(Query::of(a, b).flipped, solved)
    } else {
        Err(DistanceError::InvalidInput)
    }
}

/// The entries once the solver has answered `solved` for the canonical pair
/// of the query `(a, b)`.
pub open spec fn kept(
    entries: Entries,
    a: Position,
    b: Position,
    solved: Option<DistanceData>,
) -> Entries {
    if a.is_valid() && b.is_valid() {
        recorded(entries, Query::of(a, b).pair(), solved)
    } else {
        entries
    }
}

/// A cache of solved distances.
///
/// Its view is what has been recorded in it: for each canonical pair the
/// result last recorded. The cache is bounded in size and drops entries that
/// lie idle, so a query may find nothing where the view has an entry; what it
/// finds is always the entry of the view.
pub struct DistanceCache {
    store: Store,
    config: CacheConfig,
}

impl View for DistanceCache {
    type V = Entries;

    closed spec fn view(&self) -> Entries {
        entries_of(written(self.store))
    }
}

impl DistanceCache {
    #[verifier::type_invariant]
    spec fn keys_canonical(self) -> bool {
        canonical(self@)
    }

    /// The configuration the cache was built with.
    pub closed spec fn configuration(&self) -> CacheConfig {
        self.config
    }

    /// An empty cache with the standard configuration.
    pub fn new() -> (cache: Self)
        ensures
            cache@ == Entries::empty(),
            cache.configuration() == CacheConfig::standard(),
    {
        let config = CacheConfig::default();
        let store = store_build(config.idle_secs, config.initial_capacity, config.max_capacity);
        assert(entries_of(written(store)) =~= Entries::empty());
        DistanceCache { store, config }
    }

    /// An empty cache with the given configuration, if it is acceptable.
    pub fn with_config(config: CacheConfig) -> (built: Option<Self>)
        ensures
            built is Some <==> config.is_acceptable(),
            built matches Some(cache) ==> cache@ == Entries::empty() && cache.configuration()
                == config,
    {
        if config.acceptable() {
            let store = store_build(config.idle_secs, config.initial_capacity, config.max_capacity);
            assert(entries_of(written(store)) =~= Entries::empty());
            Some(DistanceCache { store, config })
        } else {
            None
        }
    }

    /// The configuration the cache was built with.
    pub fn config(&self) -> (config: CacheConfig)
        ensures
            config == self.configuration(),
    {
        self.config
    }

    /// Every key of the cache is a canonical pair of valid positions.
    pub fn keys_are_canonical(&self)
        ensures
            canonical(self@),
    {
        proof {
            use_type_invariant(self);
        }
    }

    /// The entry under the pair `(low, high)`, as it was recorded, if the
    /// cache still has it. Counts as a read of the entry.
    ///
    /// The store is read under [`store_key`] of the pair, and what it hands
    /// back is returned through [`entry_from`]. Whether it hands anything
    /// back is the store's to decide: it may have dropped the entry. Where
    /// the view has no entry for the pair, nothing is found.
    pub fn lookup(&self, low: Position, high: Position) -> (found: Option<DistanceData>)
        ensures
            found matches Some(raw) ==> self@.contains_key((low, high)) && self@[(low, high)]
                == raw,
    {
        entry_from(store_get(&self.store, store_key(low, high)))
    }

    /// The first half of a query: rejects invalid positions, puts the pair
    /// into canonical order and looks it up. Needs read access only.
    pub fn begin(&self, a: Position, b: Position) -> (step: Step)
        ensures
            begins(self@, a, b, step),
    {
        if !(a.valid() && b.valid()) {
            return Step::Fail(DistanceError::InvalidInput);
        }
        let q = Query::new(a, b);
        Step::from_lookup(q, self.lookup(q.low, q.high))
    }

    /// The second half of a query, after the solver has answered `solved`
    /// for the canonical pair: records an answer and returns it in the
    /// caller's order. A failure is returned and not recorded.
    pub fn complete(
        &mut self,
        a: Position,
        b: Position,
        solved: Option<DistanceData>,
    ) -> (r: DistanceResult)
        ensures
            r == outcome(a, b, solved),
            final(self)@ == kept(old(self)@, a, b, solved),
            final(self).configuration() == old(self).configuration(),
    {
        proof {
            use_type_invariant(&*self);
        }
        if !(a.valid() && b.valid()) {
            return Err(DistanceError::InvalidInput);
        }
        let q = Query::new(a, b);
        match solved {
            Some(raw) => {
                proof {
                    lemma_insert_entry(written(self.store), q.pair(), raw);
                }
                let key = store_key(q.low, q.high);
                let value = store_value(raw);
                store_insert(&mut self.store, key, value);
                Ok(q.orient(raw))
            },
            None => Err(DistanceError::SolverFailure),
        }
    }
}

/// Writing a result under a pair's key adds exactly that entry.
proof fn lemma_insert_entry(stored: Written, pair: (Position, Position), raw: DistanceData)
    ensures
        entries_of(stored.insert(key_of(pair), value_of(raw))) == entries_of(stored).insert(
            pair,
            raw,
        ),
{
    let after = entries_of(stored.insert(key_of(pair), value_of(raw)));
    let expected = entries_of(stored).insert(pair, raw);
    assert forall|p: (Position, Position)| after.contains_key(p) <==> expected.contains_key(
        p,
    ) by {
        if key_of(p) == key_of(pair) {
            assert(p == pair);
        }
    }
    assert forall|p: (Position, Position)| after.contains_key(p) implies after[p] == expected[p] by {
        if key_of(p) == key_of(pair) {
            assert(p == pair);
        }
    }
    assert(after =~= expected);
}

} // verus!
