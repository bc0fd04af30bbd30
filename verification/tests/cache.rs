use memoized_kerney::store::{MAX_IDLE_SECS, MAX_INITIAL_CAPACITY};
use memoized_kerney::{
    CacheConfig, DistanceCache, DistanceData, DistanceError, Position, Query, Step,
};
use std::time::{Duration, Instant};

fn at(lat: f64, lon: f64) -> Position {
    Position::new(lat.to_bits(), lon.to_bits())
}

fn data(distance: f64, forward: f64, backward: f64) -> DistanceData {
    DistanceData {
        distance: distance.to_bits(),
        forward_azimuth: forward.to_bits(),
        backward_azimuth: backward.to_bits(),
    }
}

fn south() -> Position {
    at(37.882704, -121.980713)
}

fn north() -> Position {
    at(37.883463, -121.980988)
}

fn wait_for(duration: Duration) {
    let start = Instant::now();
    while start.elapsed() < duration {
        std::hint::spin_loop();
    }
}

#[test]
fn the_standard_configuration() {
    let config = CacheConfig::default();
    assert_eq!(config.idle_secs, 90);
    assert_eq!(config.initial_capacity, 64);
    assert_eq!(config.max_capacity, 65536);
    assert!(config.acceptable());
    assert_eq!(DistanceCache::new().config(), config);
}

#[test]
fn limits_of_a_configuration() {
    assert_eq!(MAX_IDLE_SECS, 1000 * 365 * 24 * 3600);
    assert_eq!(MAX_INITIAL_CAPACITY, 1 << 20);
    let base = CacheConfig { idle_secs: 1, initial_capacity: 0, max_capacity: 10 };
    assert!(base.acceptable());
    assert!(CacheConfig { idle_secs: MAX_IDLE_SECS, ..base }.acceptable());
    assert!(!CacheConfig { idle_secs: MAX_IDLE_SECS + 1, ..base }.acceptable());
    assert!(CacheConfig { initial_capacity: MAX_INITIAL_CAPACITY, ..base }.acceptable());
    assert!(!CacheConfig { initial_capacity: MAX_INITIAL_CAPACITY + 1, ..base }.acceptable());
    assert!(CacheConfig { max_capacity: u64::MAX, ..base }.acceptable());
}

#[test]
fn a_cache_is_built_from_an_acceptable_configuration_only() {
    let good = CacheConfig { idle_secs: 5, initial_capacity: 8, max_capacity: 100 };
    let built = DistanceCache::with_config(good);
    assert!(built.is_some());
    assert_eq!(built.unwrap().config(), good);
    let idle = CacheConfig { idle_secs: MAX_IDLE_SECS + 1, ..good };
    assert!(DistanceCache::with_config(idle).is_none());
    let roomy = CacheConfig { initial_capacity: MAX_INITIAL_CAPACITY + 1, ..good };
    assert!(DistanceCache::with_config(roomy).is_none());
    let longest = CacheConfig { idle_secs: MAX_IDLE_SECS, ..good };
    assert!(DistanceCache::with_config(longest).is_some());
}

#[test]
fn an_empty_cache_sends_every_query_to_the_solver() {
    let cache = DistanceCache::new();
    assert_eq!(cache.begin(south(), north()), Step::Solve(Query::new(south(), north())));
    assert_eq!(
        cache.begin(north(), south()),
        Step::Solve(Query { low: south(), high: north(), flipped: true })
    );
}

#[test]
fn an_invalid_position_ends_the_query() {
    let cache = DistanceCache::new();
    let bad = at(f64::NAN, 0.0);
    assert_eq!(cache.begin(bad, north()), Step::Fail(DistanceError::InvalidInput));
    assert_eq!(cache.begin(north(), bad), Step::Fail(DistanceError::InvalidInput));
    assert_eq!(cache.begin(at(91.0, 0.0), north()), Step::Fail(DistanceError::InvalidInput));
    assert_eq!(cache.begin(north(), at(0.0, 181.0)), Step::Fail(DistanceError::InvalidInput));
}

#[test]
fn a_recorded_answer_is_found_again() {
    let mut cache = DistanceCache::new();
    let raw = data(87.5, -16.0, 164.0);
    assert_eq!(cache.complete(south(), north(), Some(raw)), Ok(raw));
    assert_eq!(cache.begin(south(), north()), Step::Hit(raw));
}

#[test]
fn a_recorded_answer_serves_the_other_order() {
    let mut cache = DistanceCache::new();
    let raw = data(87.5, -16.0, 164.0);
    assert_eq!(cache.complete(south(), north(), Some(raw)), Ok(raw));
    assert_eq!(cache.begin(north(), south()), Step::Hit(data(87.5, 164.0, -16.0)));
}

#[test]
fn the_entry_stays_in_the_order_of_the_solver() {
    let mut cache = DistanceCache::new();
    let raw = data(87.5, -16.0, 164.0);
    assert_eq!(cache.complete(north(), south(), Some(raw)), Ok(data(87.5, 164.0, -16.0)));
    assert_eq!(cache.begin(south(), north()), Step::Hit(raw));
    assert_eq!(cache.begin(north(), south()), Step::Hit(data(87.5, 164.0, -16.0)));
    assert_eq!(cache.begin(north(), south()), Step::Hit(data(87.5, 164.0, -16.0)));
}

#[test]
fn a_later_answer_replaces_an_earlier_one() {
    let mut cache = DistanceCache::new();
    assert!(cache.complete(south(), north(), Some(data(1.0, 2.0, 3.0))).is_ok());
    assert!(cache.complete(north(), south(), Some(data(4.0, 5.0, 6.0))).is_ok());
    assert_eq!(cache.begin(south(), north()), Step::Hit(data(4.0, 5.0, 6.0)));
}

#[test]
fn entries_are_kept_apart_by_every_bit_of_the_key() {
    let mut cache = DistanceCache::new();
    let a = Position::new(0x4042_F0FC_71D6_0631, 0xC05E_7EC4_0075_70C5);
    let nearly_a = Position::new(0x4042_F0FC_71D6_0632, 0xC05E_7EC4_0075_70C5);
    let b = north();
    assert!(cache.complete(a, b, Some(data(1.0, 2.0, 3.0))).is_ok());
    assert_eq!(cache.begin(a, b), Step::Hit(data(1.0, 2.0, 3.0)));
    assert_eq!(cache.begin(nearly_a, b), Step::Solve(Query::new(nearly_a, b)));
    assert_eq!(cache.begin(a, a), Step::Solve(Query::new(a, a)));
    assert_eq!(cache.begin(b, b), Step::Solve(Query::new(b, b)));
}

#[test]
fn a_failure_of_the_solver_is_not_recorded() {
    let mut cache = DistanceCache::new();
    assert_eq!(cache.complete(south(), north(), None), Err(DistanceError::SolverFailure));
    assert_eq!(cache.begin(south(), north()), Step::Solve(Query::new(south(), north())));
}

#[test]
fn an_answer_for_an_invalid_position_is_not_recorded() {
    let mut cache = DistanceCache::new();
    let bad = at(0.0, f64::INFINITY);
    let raw = data(1.0, 2.0, 3.0);
    assert_eq!(cache.complete(bad, north(), Some(raw)), Err(DistanceError::InvalidInput));
    assert_eq!(cache.complete(north(), bad, None), Err(DistanceError::InvalidInput));
    assert_eq!(cache.begin(bad, north()), Step::Fail(DistanceError::InvalidInput));
}

#[test]
fn a_position_paired_with_itself_has_an_entry_of_its_own() {
    let mut cache = DistanceCache::new();
    let raw = data(0.0, 180.0, 180.0);
    assert_eq!(cache.complete(south(), south(), Some(raw)), Ok(raw));
    assert_eq!(cache.begin(south(), south()), Step::Hit(raw));
    assert_eq!(cache.begin(south(), north()), Step::Solve(Query::new(south(), north())));
}

#[test]
fn an_idle_entry_is_dropped() {
    let config = CacheConfig { idle_secs: 1, initial_capacity: 4, max_capacity: 100 };
    let mut cache = DistanceCache::with_config(config).unwrap();
    let raw = data(87.5, -16.0, 164.0);
    assert_eq!(cache.complete(south(), north(), Some(raw)), Ok(raw));
    assert_eq!(cache.begin(south(), north()), Step::Hit(raw));
    wait_for(Duration::from_millis(1500));
    assert_eq!(cache.begin(south(), north()), Step::Solve(Query::new(south(), north())));
}

#[test]
fn a_read_keeps_an_entry_from_going_idle() {
    let config = CacheConfig { idle_secs: 2, initial_capacity: 4, max_capacity: 100 };
    let mut cache = DistanceCache::with_config(config).unwrap();
    let raw = data(87.5, -16.0, 164.0);
    assert_eq!(cache.complete(south(), north(), Some(raw)), Ok(raw));
    wait_for(Duration::from_millis(1200));
    assert_eq!(cache.begin(north(), south()), Step::Hit(data(87.5, 164.0, -16.0)));
    wait_for(Duration::from_millis(1200));
    assert_eq!(cache.begin(south(), north()), Step::Hit(raw));
}

#[test]
fn a_cache_without_room_keeps_nothing() {
    let config = CacheConfig { idle_secs: 90, initial_capacity: 0, max_capacity: 0 };
    let mut cache = DistanceCache::with_config(config).unwrap();
    let raw = data(87.5, -16.0, 164.0);
    assert_eq!(cache.complete(south(), north(), Some(raw)), Ok(raw));
    assert_eq!(cache.begin(south(), north()), Step::Solve(Query::new(south(), north())));
}

#[test]
fn a_cache_holds_many_pairs() {
    let mut cache = DistanceCache::new();
    let base = north();
    for i in 0..500u32 {
        let p = at(f64::from(i) * 0.01, -10.0);
        let raw = data(f64::from(i), 1.0, 2.0);
        assert_eq!(cache.complete(base, p, Some(raw)), Ok(Query::new(base, p).orient(raw)));
    }
    for i in 0..500u32 {
        let p = at(f64::from(i) * 0.01, -10.0);
        assert_eq!(cache.begin(p, base), Step::Hit(data(f64::from(i), 1.0, 2.0)));
    }
}
