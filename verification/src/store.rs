//! The bounded, idle-expiring store behind the distance cache.
//!
//! The store is `moka::sync::Cache`, hashed with SeaHash. It is outside code:
//! nothing in this module is proved, and every contract here is a statement
//! about that crate, to be read against its source.
//!
//! Keys and values are tuples of binary64 bit patterns, so that the store
//! compares and hashes keys bit for bit with the implementations the standard
//! library provides for integers and tuples.

use vstd::prelude::*;

verus! {

/// A canonical pair of positions: latitude and longitude of the first, then
/// of the second.
pub type StoreKey = (u64, u64, u64, u64);

/// A solved distance with its forward and backward bearing.
pub type StoreValue = (u64, u64, u64);

/// The longest idle time the store accepts, in seconds: a thousand years of
/// 365 days.
pub const MAX_IDLE_SECS: u64 = 31_536_000_000;

/// The largest capacity hint handed to the store. The store allocates for the
/// hint when it is built.
pub const MAX_INITIAL_CAPACITY: usize = 1_048_576;

/// `seahash::SeaHasher`, the hasher of the store. Opaque.
#[verifier::external_type_specification]
#[verifier::external_body]
pub struct ExSeaHasher(seahash::SeaHasher);

/// `std::hash::BuildHasherDefault`, which makes a hasher of type `H` from
/// its `Default`. Opaque.
#[verifier::external_type_specification]
#[verifier::external_body]
#[verifier::reject_recursive_types(H)]
pub struct ExBuildHasherDefault<H>(std::hash::BuildHasherDefault<H>);

/// `moka::sync::Cache`. Opaque: what is known of a store is what the
/// functions below say.
#[verifier::external_type_specification]
#[verifier::external_body]
#[verifier::reject_recursive_types(K)]
#[verifier::reject_recursive_types(V)]
#[verifier::reject_recursive_types(S)]
pub struct ExCache<K, V, S>(moka::sync::Cache<K, V, S>);

/// The store as this library uses it.
pub type Store = moka::sync::Cache<
    StoreKey,
    StoreValue,
    std::hash::BuildHasherDefault<seahash::SeaHasher>,
>;

/// What has been written to a store: for each key, a value.
pub type Written = Map<StoreKey, StoreValue>;

/// For each key, the value most recently inserted under it since the store
/// was built. The store may have dropped any of these since, by idle expiry
/// or to stay within its capacity; it never holds anything else.
pub uninterp spec fn written(store: Store) -> Written;

/// `moka::sync::CacheBuilder::build_with_hasher`, after `time_to_idle`,
/// `initial_capacity` and `max_capacity`: a new store, into which nothing has
/// been inserted. The builder panics on an idle time above a thousand years
/// and allocates for the capacity hint, hence the bounds.
#[verifier::external_body]
pub(crate) fn store_build(
    idle_secs: u64,
    initial_capacity: usize,
    max_capacity: u64,
) -> (store: Store)
    requires
        idle_secs <= MAX_IDLE_SECS,
        initial_capacity <= MAX_INITIAL_CAPACITY,
    ensures
        written(store) == Written::empty(),
{
    moka::sync::Cache::builder()
        .time_to_idle(std::time::Duration::from_secs(idle_secs))
        .initial_capacity(initial_capacity)
        .max_capacity(max_capacity)
        .build_with_hasher(std::hash::BuildHasherDefault::<seahash::SeaHasher>::default())
}

/// `moka::sync::Cache::get`: a copy of the value held under `key`, if the
/// store still holds one. What it holds under a key is the value last
/// inserted there.
#[verifier::external_body]
pub(crate) fn store_get(store: &Store, key: StoreKey) -> (found: Option<StoreValue>)
    ensures
        found matches Some(value) ==> written(*store).contains_key(key) && written(*store)[key]
            == value,
{
    store.get(&key)
}

/// `moka::sync::Cache::insert`: puts `value` under `key`, in place of any
/// value that was there. It returns normally: the one panic in its source is
/// on a channel that the store itself keeps open.
#[verifier::external_body]
pub(crate) fn store_insert(store: &mut Store, key: StoreKey, value: StoreValue)
    ensures
        written(*final(store)) == written(*old(store)).insert(key, value),
    no_unwind
{
    store.insert(key, value)
}

} // verus!
