use aegistrate::cooldown::{is_cooled_down_since, remaining_cooldown_since, CooldownStore};
use aegistrate::registry::Command;

#[test]
fn never_used_is_cooled_down() {
    assert!(is_cooled_down_since(None, 60, 0));
    assert!(is_cooled_down_since(None, u64::MAX, 0));
    assert_eq!(remaining_cooldown_since(None, 60, 0), 0);
    assert_eq!(remaining_cooldown_since(None, u64::MAX, u64::MAX), 0);
}

#[test]
fn just_used_is_not_cooled_down() {
    assert!(!is_cooled_down_since(Some(1000), 60, 1000));
    assert!(!is_cooled_down_since(Some(1000), 1, 1000));
    assert_eq!(remaining_cooldown_since(Some(1000), 60, 1000), 60);
}

#[test]
fn no_cooldown_never_blocks() {
    assert!(is_cooled_down_since(Some(1000), 0, 1000));
    assert!(is_cooled_down_since(Some(1000), 0, 2000));
    assert_eq!(remaining_cooldown_since(Some(1000), 0, 1000), 0);
}

#[test]
fn cooldown_ends_exactly_when_it_has_passed() {
    assert!(!is_cooled_down_since(Some(1000), 60, 1059));
    assert_eq!(remaining_cooldown_since(Some(1000), 60, 1059), 1);
    assert!(is_cooled_down_since(Some(1000), 60, 1060));
    assert_eq!(remaining_cooldown_since(Some(1000), 60, 1060), 0);
    assert!(is_cooled_down_since(Some(1000), 60, 5000));
    assert_eq!(remaining_cooldown_since(Some(1000), 60, 5000), 0);
}

#[test]
fn ten_seconds_into_a_minute_leaves_fifty() {
    assert!(!is_cooled_down_since(Some(1000), 60, 1010));
    assert_eq!(remaining_cooldown_since(Some(1000), 60, 1010), 50);
}

#[test]
fn a_clock_that_stepped_back_waits_until_it_has_caught_up() {
    assert!(!is_cooled_down_since(Some(1000), 60, 990));
    assert_eq!(remaining_cooldown_since(Some(1000), 60, 990), 70);
    assert!(!is_cooled_down_since(Some(1000), 0, 990));
    assert_eq!(remaining_cooldown_since(Some(1000), 0, 990), 10);
}

#[test]
fn the_longest_wait_fits() {
    assert!(!is_cooled_down_since(Some(u64::MAX), u64::MAX, 0));
    assert_eq!(
        remaining_cooldown_since(Some(u64::MAX), u64::MAX, 0),
        2 * (u64::MAX as u128)
    );
    assert!(is_cooled_down_since(Some(0), u64::MAX, u64::MAX));
    assert_eq!(remaining_cooldown_since(Some(0), u64::MAX, u64::MAX), 0);
}

#[test]
fn nothing_remains_exactly_when_cooled_down() {
    let cases: [(Option<u64>, u64, u64); 8] = [
        (None, 60, 5),
        (Some(5), 0, 5),
        (Some(5), 0, 4),
        (Some(5), 60, 5),
        (Some(5), 60, 64),
        (Some(5), 60, 65),
        (Some(5), 60, 66),
        (Some(u64::MAX), 1, 0),
    ];
    for (last_use, cooldown, now) in cases {
        assert_eq!(
            is_cooled_down_since(last_use, cooldown, now),
            remaining_cooldown_since(last_use, cooldown, now) == 0
        );
    }
}

#[test]
fn new_store_is_empty() {
    let store = CooldownStore::new();
    assert_eq!(store.len(), 0);
    assert_eq!(store.last_use(1, "ban"), None);
}

#[test]
fn a_use_is_recorded_under_user_and_command() {
    let mut store = CooldownStore::new();
    store.record_use(1, "ban", 1000);
    assert_eq!(store.len(), 1);
    assert_eq!(store.last_use(1, "ban"), Some(1000));
    assert_eq!(store.last_use(2, "ban"), None);
    assert_eq!(store.last_use(1, "kick"), None);
}

#[test]
fn a_later_use_overwrites_the_record() {
    let mut store = CooldownStore::new();
    store.record_use(1, "ban", 1000);
    store.record_use(1, "ban", 1010);
    assert_eq!(store.len(), 1);
    assert_eq!(store.last_use(1, "ban"), Some(1010));
    store.record_use(1, "ban", 900);
    assert_eq!(store.len(), 1);
    assert_eq!(store.last_use(1, "ban"), Some(900));
}

#[test]
fn records_of_other_keys_are_left_alone() {
    let mut store = CooldownStore::new();
    store.record_use(1, "ban", 10);
    store.record_use(2, "ban", 20);
    store.record_use(1, "kick", 30);
    store.record_use(2, "ban", 40);
    assert_eq!(store.len(), 3);
    assert_eq!(store.last_use(1, "ban"), Some(10));
    assert_eq!(store.last_use(2, "ban"), Some(40));
    assert_eq!(store.last_use(1, "kick"), Some(30));
    assert_eq!(store.last_use(2, "kick"), None);
}

#[test]
fn store_answers_for_a_command() {
    let kick = Command::new("kick", 60, ());
    let ban = Command::new("ban", 0, ());
    let mut store = CooldownStore::new();
    assert!(store.is_cooled_down(1, &kick, 1000));
    assert_eq!(store.remaining_cooldown(1, &kick, 1000), 0);
    store.record_use(1, "kick", 1000);
    assert!(!store.is_cooled_down(1, &kick, 1000));
    assert_eq!(store.remaining_cooldown(1, &kick, 1000), 60);
    assert!(!store.is_cooled_down(1, &kick, 1010));
    assert_eq!(store.remaining_cooldown(1, &kick, 1010), 50);
    assert!(store.is_cooled_down(1, &kick, 1060));
    assert!(store.is_cooled_down(2, &kick, 1010));
    assert!(store.is_cooled_down(1, &ban, 1010));
    store.record_use(1, "ban", 1010);
    assert!(store.is_cooled_down(1, &ban, 1010));
    assert_eq!(store.remaining_cooldown(1, &ban, 1010), 0);
}
