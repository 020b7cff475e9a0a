use bytes::Bytes;
use cache_proxy::clock::fresh;
use cache_proxy::clock::Clock;
use cache_proxy::clock::EXPIRY_NANOS;
use cache_proxy::disk::FileProbe;
use cache_proxy::failure::FailureTier;
use cache_proxy::memory::MemoryTier;
use cache_proxy::memory::CAPACITY;

const MINUTE: u128 = 60_000_000_000;

fn body(text: &'static str) -> Bytes {
    Bytes::from_static(text.as_bytes())
}

fn full_tier() -> MemoryTier {
    let mut tier = MemoryTier::new();
    for i in 0..CAPACITY {
        let evicted = tier.put_at(&format!("en{i}/towns.txt"), body("x"), 1000 + i as u128);
        assert!(evicted.is_none());
    }
    tier
}

#[test]
fn expiry_is_fifteen_minutes() {
    assert_eq!(EXPIRY_NANOS, 15 * MINUTE);
    assert_eq!(CAPACITY, 25);
}

#[test]
fn fresh_until_the_window_has_passed() {
    assert!(fresh(0, 0));
    assert!(fresh(100, 100 + EXPIRY_NANOS - 1));
    assert!(!fresh(100, 100 + EXPIRY_NANOS));
    assert!(!fresh(100, 100 + EXPIRY_NANOS + 1));
    assert!(!fresh(0, u128::MAX));
}

#[test]
fn a_moment_before_the_write_counts_as_no_age() {
    assert!(fresh(500, 100));
    assert!(fresh(u128::MAX, 0));
}

#[test]
fn clock_does_not_run_backwards() {
    let clock = Clock::start();
    let a = clock.now();
    let b = clock.now();
    assert!(a <= b);
    assert!(b < EXPIRY_NANOS);
}

#[test]
fn new_memory_tier_is_empty() {
    let tier = MemoryTier::new();
    assert_eq!(tier.len(), 0);
    assert!(tier.get_at("en12/towns.txt", 0).is_none());
}

#[test]
fn memory_returns_what_was_put() {
    let mut tier = MemoryTier::new();
    assert!(tier.put_at("en12/towns.txt", body("ABC"), 10).is_none());
    assert_eq!(tier.get_at("en12/towns.txt", 10), Some(body("ABC")));
    assert_eq!(tier.get_at("en12/towns.txt", 10 + MINUTE), Some(body("ABC")));
    assert!(tier.get_at("en12/players.txt", 10).is_none());
    assert!(tier.get_at("en1/towns.txt", 10).is_none());
    assert_eq!(tier.len(), 1);
}

#[test]
fn memory_entry_expires_after_the_window() {
    let mut tier = MemoryTier::new();
    tier.put_at("en12/towns.txt", body("ABC"), 1_000);
    assert!(tier.get_at("en12/towns.txt", 1_000 + EXPIRY_NANOS - 1).is_some());
    assert!(tier.get_at("en12/towns.txt", 1_000 + EXPIRY_NANOS).is_none());
    assert!(tier.get_at("en12/towns.txt", 1_000 + 2 * EXPIRY_NANOS).is_none());
}

#[test]
fn a_stale_entry_stays_in_the_tier() {
    let mut tier = MemoryTier::new();
    tier.put_at("en12/towns.txt", body("ABC"), 0);
    assert!(tier.get_at("en12/towns.txt", EXPIRY_NANOS).is_none());
    assert_eq!(tier.len(), 1);
    assert_eq!(tier.get_at("en12/towns.txt", 5), Some(body("ABC")));
}

#[test]
fn a_read_does_not_refresh_an_entry() {
    let mut tier = MemoryTier::new();
    tier.put_at("en12/towns.txt", body("ABC"), 0);
    assert!(tier.get_at("en12/towns.txt", EXPIRY_NANOS - 1).is_some());
    assert!(tier.get_at("en12/towns.txt", EXPIRY_NANOS).is_none());
}

#[test]
fn overwrite_replaces_body_and_moment() {
    let mut tier = MemoryTier::new();
    tier.put_at("en12/towns.txt", body("old"), 0);
    assert!(tier.put_at("en12/towns.txt", body("new"), 10 * MINUTE).is_none());
    assert_eq!(tier.len(), 1);
    assert_eq!(tier.get_at("en12/towns.txt", 20 * MINUTE), Some(body("new")));
    assert!(tier.get_at("en12/towns.txt", 25 * MINUTE).is_none());
}

#[test]
fn memory_fills_up_to_capacity_without_eviction() {
    let tier = full_tier();
    assert_eq!(tier.len(), CAPACITY);
    for i in 0..CAPACITY {
        assert!(tier.get_at(&format!("en{i}/towns.txt"), 2000).is_some());
    }
}

#[test]
fn a_new_key_at_capacity_evicts_the_oldest_write() {
    let mut tier = full_tier();
    let evicted = tier.put_at("en99/towns.txt", body("new"), 5000);
    assert_eq!(evicted.as_deref(), Some("en0/towns.txt"));
    assert_eq!(tier.len(), CAPACITY);
    assert!(tier.get_at("en0/towns.txt", 5000).is_none());
    assert_eq!(tier.get_at("en99/towns.txt", 5000), Some(body("new")));
    for i in 1..CAPACITY {
        assert!(tier.get_at(&format!("en{i}/towns.txt"), 5000).is_some());
    }
}

#[test]
fn eviction_goes_by_write_time_not_by_position() {
    let mut tier = MemoryTier::new();
    for i in 0..CAPACITY {
        let at = if i == 17 { 5 } else { 1000 + i as u128 };
        tier.put_at(&format!("en{i}/towns.txt"), body("x"), at);
    }
    let evicted = tier.put_at("en99/towns.txt", body("new"), 5000);
    assert_eq!(evicted.as_deref(), Some("en17/towns.txt"));
    let evicted = tier.put_at("en98/towns.txt", body("new"), 5001);
    assert_eq!(evicted.as_deref(), Some("en0/towns.txt"));
    assert_eq!(tier.len(), CAPACITY);
}

#[test]
fn eviction_goes_by_write_time_not_by_read_time() {
    let mut tier = full_tier();
    assert!(tier.get_at("en0/towns.txt", 4000).is_some());
    let evicted = tier.put_at("en99/towns.txt", body("new"), 5000);
    assert_eq!(evicted.as_deref(), Some("en0/towns.txt"));
}

#[test]
fn an_overwrite_makes_an_entry_young_again() {
    let mut tier = full_tier();
    assert!(tier.put_at("en0/towns.txt", body("again"), 4000).is_none());
    let evicted = tier.put_at("en99/towns.txt", body("new"), 5000);
    assert_eq!(evicted.as_deref(), Some("en1/towns.txt"));
    assert_eq!(tier.get_at("en0/towns.txt", 5000), Some(body("again")));
}

#[test]
fn overwrite_at_capacity_evicts_nothing() {
    let mut tier = full_tier();
    let evicted = tier.put_at("en7/towns.txt", body("again"), 5000);
    assert!(evicted.is_none());
    assert_eq!(tier.len(), CAPACITY);
    for i in 0..CAPACITY {
        assert!(tier.get_at(&format!("en{i}/towns.txt"), 5000).is_some());
    }
    assert_eq!(tier.get_at("en7/towns.txt", 5000), Some(body("again")));
}

#[test]
fn among_equally_old_entries_one_is_evicted() {
    let mut tier = MemoryTier::new();
    for i in 0..CAPACITY {
        tier.put_at(&format!("en{i}/towns.txt"), body("x"), 77);
    }
    let evicted = tier.put_at("en99/towns.txt", body("new"), 78).expect("one leaves");
    assert!(evicted.starts_with("en") && evicted != "en99/towns.txt");
    assert_eq!(tier.len(), CAPACITY);
    assert!(tier.get_at(&evicted, 78).is_none());
    assert!(tier.get_at("en99/towns.txt", 78).is_some());
}

#[test]
fn a_stale_entry_still_counts_towards_capacity() {
    let mut tier = full_tier();
    let later = 1000 + 2 * EXPIRY_NANOS;
    let evicted = tier.put_at("en99/towns.txt", body("new"), later);
    assert_eq!(evicted.as_deref(), Some("en0/towns.txt"));
    assert_eq!(tier.len(), CAPACITY);
}

#[test]
fn memory_on_its_own_clock() {
    let mut tier = MemoryTier::new();
    let (at, evicted) = tier.put("en12/towns.txt", body("ABC"));
    assert!(evicted.is_none());
    assert!(at <= tier.now());
    assert_eq!(tier.get("en12/towns.txt"), Some(body("ABC")));
    assert!(tier.get("en12/players.txt").is_none());
    assert_eq!(tier.get_at("en12/towns.txt", at + EXPIRY_NANOS - 1), Some(body("ABC")));
    assert!(tier.get_at("en12/towns.txt", at + EXPIRY_NANOS).is_none());
}

#[test]
fn bodies_come_back_byte_for_byte() {
    let mut tier = MemoryTier::new();
    let all: Vec<u8> = (0..=255u8).collect();
    tier.put_at("en12/towns.txt", Bytes::from(all.clone()), 0);
    tier.put_at("en12/players.txt", Bytes::new(), 0);
    assert_eq!(tier.get_at("en12/towns.txt", 1).expect("held").to_vec(), all);
    assert_eq!(tier.get_at("en12/players.txt", 1).expect("held").len(), 0);
}

#[test]
fn new_failure_tier_has_no_failures() {
    let tier = FailureTier::new();
    assert!(!tier.is_recent_failure_at("en12/players.txt", 0));
    assert!(!tier.is_recent_failure("en12/players.txt"));
}

#[test]
fn a_failure_is_recent_for_the_whole_window() {
    let mut tier = FailureTier::new();
    tier.record_failure_at("en12/players.txt", 1_000);
    assert!(tier.is_recent_failure_at("en12/players.txt", 1_000));
    assert!(tier.is_recent_failure_at("en12/players.txt", 1_000 + EXPIRY_NANOS - 1));
    assert!(!tier.is_recent_failure_at("en12/players.txt", 1_000 + EXPIRY_NANOS));
    assert!(!tier.is_recent_failure_at("en12/towns.txt", 1_000));
}

#[test]
fn a_later_failure_overwrites_the_record() {
    let mut tier = FailureTier::new();
    tier.record_failure_at("en12/players.txt", 0);
    assert!(!tier.is_recent_failure_at("en12/players.txt", 16 * MINUTE));
    tier.record_failure_at("en12/players.txt", 16 * MINUTE);
    assert!(tier.is_recent_failure_at("en12/players.txt", 17 * MINUTE));
    assert!(tier.is_recent_failure_at("en12/players.txt", 30 * MINUTE));
    assert!(!tier.is_recent_failure_at("en12/players.txt", 31 * MINUTE));
}

#[test]
fn failure_tier_on_its_own_clock() {
    let mut tier = FailureTier::new();
    let at = tier.record_failure("en12/players.txt");
    assert!(at <= tier.now());
    assert!(tier.is_recent_failure("en12/players.txt"));
    assert!(!tier.is_recent_failure("en12/towns.txt"));
    assert!(!tier.is_recent_failure_at("en12/players.txt", at + EXPIRY_NANOS));
}

#[test]
fn only_a_young_regular_file_is_servable() {
    assert!(FileProbe::Aged(0).is_servable());
    assert!(FileProbe::Aged(EXPIRY_NANOS - 1).is_servable());
    assert!(!FileProbe::Aged(EXPIRY_NANOS).is_servable());
    assert!(!FileProbe::Aged(u128::MAX).is_servable());
    assert!(!FileProbe::Missing.is_servable());
    assert!(!FileProbe::NotAFile.is_servable());
    assert!(!FileProbe::Undated.is_servable());
}

#[test]
fn what_is_found_at_a_path() {
    assert_eq!(FileProbe::found(false, None), FileProbe::NotAFile);
    assert_eq!(FileProbe::found(false, Some(5)), FileProbe::NotAFile);
    assert_eq!(FileProbe::found(true, None), FileProbe::Undated);
    assert_eq!(FileProbe::found(true, Some(5)), FileProbe::Aged(5));
    assert!(FileProbe::found(true, Some(EXPIRY_NANOS - 1)).is_servable());
    assert!(!FileProbe::found(true, Some(EXPIRY_NANOS)).is_servable());
    assert!(!FileProbe::found(false, Some(0)).is_servable());
    assert!(!FileProbe::found(true, None).is_servable());
}
