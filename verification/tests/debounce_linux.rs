use key_debounce::linux::config::ConfigHolder;
use key_debounce::linux::debounce::{
    should_skip, should_skip_each, KeyEvent, KeyEventHolder, KEY_DOWN, KEY_REPEAT, KEY_UP,
    NANOS_PER_MILLI,
};
use key_debounce::transition::TransitionValue;

const KEY_A: u16 = 30;
const KEY_S: u16 = 31;

fn watching(keys: Vec<u16>) -> ConfigHolder {
    ConfigHolder { keys, device_id: 0, device_name: String::from("unknown"), delay_ms: 100 }
}

fn at(millis: u128) -> u128 {
    millis * NANOS_PER_MILLI
}

#[test]
fn linux_release_then_early_press_then_late_press() {
    let config = watching(vec![KEY_A]);
    let mut holder = KeyEventHolder::new(100);
    assert!(!should_skip(&KeyEvent::new(KEY_A, KEY_UP, at(0)), &mut holder, &config));
    assert!(should_skip(&KeyEvent::new(KEY_A, KEY_DOWN, at(50)), &mut holder, &config));
    assert!(!should_skip(&KeyEvent::new(KEY_A, KEY_DOWN, at(150)), &mut holder, &config));
    // The late press has cleared the record: the next press passes at once.
    assert!(!should_skip(&KeyEvent::new(KEY_A, KEY_DOWN, at(151)), &mut holder, &config));
}

#[test]
fn linux_unwatched_key_always_passes_and_records_nothing() {
    let config = watching(vec![KEY_A]);
    let mut holder = KeyEventHolder::new(100);
    for (value, time) in [(KEY_UP, 0), (KEY_DOWN, 1), (KEY_UP, 2), (KEY_DOWN, 3), (KEY_REPEAT, 4)] {
        assert!(!should_skip(&KeyEvent::new(KEY_S, value, at(time)), &mut holder, &config));
    }
    // Had the releases of the unwatched key been recorded, this would not matter
    // to key A, but a record of A made by them would drop this press.
    assert!(!should_skip(&KeyEvent::new(KEY_A, KEY_DOWN, at(5)), &mut holder, &config));
    let nothing = watching(vec![]);
    assert!(!should_skip(&KeyEvent::new(KEY_A, KEY_UP, at(6)), &mut holder, &nothing));
    assert!(!should_skip(&KeyEvent::new(KEY_A, KEY_DOWN, at(7)), &mut holder, &nothing));
    assert!(!should_skip(&KeyEvent::new(KEY_A, KEY_DOWN, at(8)), &mut holder, &config));
}

#[test]
fn linux_first_press_passes() {
    let config = watching(vec![KEY_A, KEY_S]);
    let mut holder = KeyEventHolder::new(100);
    assert!(!should_skip(&KeyEvent::new(KEY_A, KEY_DOWN, at(0)), &mut holder, &config));
    assert!(!should_skip(&KeyEvent::new(KEY_S, KEY_DOWN, at(0)), &mut holder, &config));
    // A press records nothing: the next one passes too.
    assert!(!should_skip(&KeyEvent::new(KEY_A, KEY_DOWN, at(1)), &mut holder, &config));
}

#[test]
fn linux_repeat_always_passes() {
    let config = watching(vec![KEY_A]);
    let mut holder = KeyEventHolder::new(100);
    assert!(!should_skip(&KeyEvent::new(KEY_A, KEY_REPEAT, at(0)), &mut holder, &config));
    assert!(!should_skip(&KeyEvent::new(KEY_A, KEY_UP, at(1)), &mut holder, &config));
    assert!(!should_skip(&KeyEvent::new(KEY_A, KEY_REPEAT, at(2)), &mut holder, &config));
    // The repeat has not touched the record: a press within the delay is dropped.
    assert!(should_skip(&KeyEvent::new(KEY_A, KEY_DOWN, at(3)), &mut holder, &config));
    assert!(!should_skip(&KeyEvent::new(KEY_A, KEY_REPEAT, at(4)), &mut holder, &config));
}

#[test]
fn linux_press_at_the_end_of_the_delay_is_dropped() {
    let config = watching(vec![KEY_A]);
    let mut holder = KeyEventHolder::new(100);
    assert!(!should_skip(&KeyEvent::new(KEY_A, KEY_UP, at(1000)), &mut holder, &config));
    assert!(should_skip(&KeyEvent::new(KEY_A, KEY_DOWN, at(1100)), &mut holder, &config));
    // One nanosecond later the delay is over.
    assert!(!should_skip(&KeyEvent::new(KEY_A, KEY_DOWN, at(1100) + 1), &mut holder, &config));
}

#[test]
fn linux_delay_is_counted_in_nanoseconds() {
    let config = watching(vec![KEY_A]);
    let mut holder = KeyEventHolder::new(1);
    assert!(!should_skip(&KeyEvent::new(KEY_A, KEY_UP, 5), &mut holder, &config));
    assert!(should_skip(&KeyEvent::new(KEY_A, KEY_DOWN, 1_000_005), &mut holder, &config));
    assert!(!should_skip(&KeyEvent::new(KEY_A, KEY_DOWN, 1_000_006), &mut holder, &config));
}

#[test]
fn linux_release_after_a_recorded_release_is_dropped() {
    let config = watching(vec![KEY_A]);
    let mut holder = KeyEventHolder::new(100);
    assert!(!should_skip(&KeyEvent::new(KEY_A, KEY_UP, at(0)), &mut holder, &config));
    assert!(should_skip(&KeyEvent::new(KEY_A, KEY_UP, at(10)), &mut holder, &config));
    assert!(should_skip(&KeyEvent::new(KEY_A, KEY_UP, at(500)), &mut holder, &config));
    // The record is the first release: a press 100 ms after it is still early,
    // one later is not.
    assert!(should_skip(&KeyEvent::new(KEY_A, KEY_DOWN, at(100)), &mut holder, &config));
    assert!(!should_skip(&KeyEvent::new(KEY_A, KEY_DOWN, at(501)), &mut holder, &config));
    assert!(!should_skip(&KeyEvent::new(KEY_A, KEY_UP, at(502)), &mut holder, &config));
}

#[test]
fn linux_event_older_than_the_record_counts_as_within_the_delay() {
    let config = watching(vec![KEY_A]);
    let mut holder = KeyEventHolder::new(100);
    assert!(!should_skip(&KeyEvent::new(KEY_A, KEY_UP, at(1000)), &mut holder, &config));
    assert!(should_skip(&KeyEvent::new(KEY_A, KEY_DOWN, at(10)), &mut holder, &config));
    assert!(should_skip(&KeyEvent::new(KEY_A, KEY_DOWN, 0), &mut holder, &config));
}

#[test]
fn linux_zero_delay_and_longest_delay() {
    let config = watching(vec![KEY_A]);
    let mut holder = KeyEventHolder::new(0);
    assert!(!should_skip(&KeyEvent::new(KEY_A, KEY_UP, 7), &mut holder, &config));
    assert!(should_skip(&KeyEvent::new(KEY_A, KEY_DOWN, 7), &mut holder, &config));
    assert!(!should_skip(&KeyEvent::new(KEY_A, KEY_DOWN, 8), &mut holder, &config));
    let mut holder = KeyEventHolder::new(u64::MAX);
    assert!(!should_skip(&KeyEvent::new(KEY_A, KEY_UP, 0), &mut holder, &config));
    let longest = u64::MAX as u128 * NANOS_PER_MILLI;
    assert!(should_skip(&KeyEvent::new(KEY_A, KEY_DOWN, longest), &mut holder, &config));
    assert!(!should_skip(&KeyEvent::new(KEY_A, KEY_DOWN, longest + 1), &mut holder, &config));
}

#[test]
fn linux_other_values_pass_unrecorded_and_are_dropped_once_a_release_is_recorded() {
    let config = watching(vec![KEY_A]);
    let mut holder = KeyEventHolder::new(100);
    assert!(!should_skip(&KeyEvent::new(KEY_A, 3, at(0)), &mut holder, &config));
    assert!(!should_skip(&KeyEvent::new(KEY_A, -1, at(1)), &mut holder, &config));
    assert!(!should_skip(&KeyEvent::new(KEY_A, KEY_DOWN, at(2)), &mut holder, &config));
    assert!(!should_skip(&KeyEvent::new(KEY_A, KEY_UP, at(3)), &mut holder, &config));
    assert!(should_skip(&KeyEvent::new(KEY_A, 3, at(4)), &mut holder, &config));
    assert!(should_skip(&KeyEvent::new(KEY_A, -1, at(400)), &mut holder, &config));
}

#[test]
fn linux_keys_are_judged_apart() {
    let config = watching(vec![KEY_A, KEY_S]);
    let mut holder = KeyEventHolder::new(100);
    assert!(!should_skip(&KeyEvent::new(KEY_A, KEY_UP, at(0)), &mut holder, &config));
    assert!(!should_skip(&KeyEvent::new(KEY_S, KEY_DOWN, at(10)), &mut holder, &config));
    assert!(!should_skip(&KeyEvent::new(KEY_S, KEY_UP, at(20)), &mut holder, &config));
    assert!(should_skip(&KeyEvent::new(KEY_A, KEY_DOWN, at(30)), &mut holder, &config));
    assert!(should_skip(&KeyEvent::new(KEY_S, KEY_DOWN, at(120)), &mut holder, &config));
    assert!(!should_skip(&KeyEvent::new(KEY_A, KEY_DOWN, at(130)), &mut holder, &config));
    assert!(!should_skip(&KeyEvent::new(KEY_S, KEY_DOWN, at(121)), &mut holder, &config));
}

fn chatter() -> Vec<KeyEvent> {
    vec![
        KeyEvent::new(KEY_A, KEY_DOWN, at(0)),
        KeyEvent::new(KEY_A, KEY_REPEAT, at(30)),
        KeyEvent::new(KEY_A, KEY_UP, at(60)),
        KeyEvent::new(KEY_A, KEY_DOWN, at(65)),
        KeyEvent::new(KEY_S, KEY_DOWN, at(66)),
        KeyEvent::new(KEY_A, KEY_UP, at(70)),
        KeyEvent::new(KEY_S, KEY_UP, at(90)),
        KeyEvent::new(KEY_A, KEY_DOWN, at(400)),
        KeyEvent::new(KEY_A, KEY_UP, at(460)),
        KeyEvent::new(KEY_A, KEY_DOWN, at(560)),
        KeyEvent::new(KEY_A, KEY_DOWN, at(561)),
    ]
}

#[test]
fn linux_batch_decides_as_one_event_after_the_other() {
    let config = watching(vec![KEY_A]);
    let events = chatter();
    let mut one_by_one = KeyEventHolder::new(100);
    let singly: Vec<bool> =
        events.iter().map(|event| should_skip(event, &mut one_by_one, &config)).collect();
    let mut holder = KeyEventHolder::new(100);
    let skipped = should_skip_each(&events, &mut holder, &config);
    assert_eq!(skipped, singly);
    assert_eq!(
        skipped,
        vec![false, false, false, true, false, true, false, false, false, true, false]
    );
    // Both holders are left in the same state.
    let next = KeyEvent::new(KEY_A, KEY_DOWN, at(562));
    assert_eq!(
        should_skip(&next, &mut holder, &config),
        should_skip(&next, &mut one_by_one, &config)
    );
    assert!(should_skip_each(&Vec::new(), &mut holder, &config).is_empty());
}

#[test]
fn linux_same_events_same_decisions() {
    let config = watching(vec![KEY_A, KEY_S]);
    let other_config = watching(vec![KEY_A, KEY_S]);
    let events = chatter();
    let mut first = KeyEventHolder::new(100);
    let mut second = KeyEventHolder::new(100);
    let left = should_skip_each(&events, &mut first, &config);
    let right = should_skip_each(&events, &mut second, &other_config);
    assert_eq!(left, right);
    assert_eq!(
        left,
        vec![false, false, false, true, false, true, false, false, false, true, false]
    );
}

#[test]
fn linux_key_event_keeps_what_it_is_given() {
    let event = KeyEvent::new(57, KEY_DOWN, 1_700_000_000_000_000_123);
    assert_eq!(event.keycode, 57);
    assert_eq!(event.value, 1);
    assert_eq!(event.timestamp, 1_700_000_000_000_000_123);
    assert_eq!((KEY_UP, KEY_DOWN, KEY_REPEAT), (0, 1, 2));
    assert_eq!(NANOS_PER_MILLI, 1_000_000);
}

#[test]
fn linux_order_of_the_watched_keys_does_not_matter() {
    let events = chatter();
    let lists = [vec![KEY_A, KEY_S], vec![KEY_S, KEY_A], vec![KEY_S, KEY_A, KEY_S, KEY_A, KEY_A]];
    let expected = vec![false, false, false, true, false, true, false, false, false, true, false];
    for keys in lists {
        let mut holder = KeyEventHolder::new(100);
        assert_eq!(should_skip_each(&events, &mut holder, &watching(keys)), expected);
    }
}

#[test]
fn linux_transition_names_the_three_values() {
    assert_eq!(KeyEvent::new(KEY_A, 0, 0).transition(), Some(TransitionValue::Up));
    assert_eq!(KeyEvent::new(KEY_A, 1, 0).transition(), Some(TransitionValue::Down));
    assert_eq!(KeyEvent::new(KEY_A, 2, 0).transition(), Some(TransitionValue::Repeat));
    assert_eq!(KeyEvent::new(KEY_A, 3, 0).transition(), None);
    assert_eq!(KeyEvent::new(KEY_A, -1, 0).transition(), None);
    assert_eq!(KeyEvent::new(KEY_A, i32::MIN, 0).transition(), None);
}
