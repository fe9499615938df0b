//! The debounce decision for a raw keyboard hook. The hook tells a press from
//! a release only by the kind of its message, so the state of a key records
//! whether its last press is still open: the release that closes it passes,
//! any further release is dropped.

use crate::transition::TransitionValue;
use crate::windows::config::ConfigHolder;
use crate::windows::keys::{key_of_code, MappedKey};
use std::collections::HashMap;
use vstd::prelude::*;

verus! {

broadcast use vstd::std_specs::hash::group_hash_axioms;

/// The message kind of an ordinary key press.
pub const WM_KEYDOWN: u32 = 0x0100;

/// The message kind of a key press while Alt is held.
pub const WM_SYSKEYDOWN: u32 = 0x0104;

/// What a message kind reports: a press for the two kinds above, a release
/// for every other. A hook hears of no autorepeat: a held key sends presses.
pub open spec fn transition_spec(key_value: u32) -> TransitionValue {
    if key_value == WM_KEYDOWN || key_value == WM_SYSKEYDOWN {
        TransitionValue::Down
    } else {
        TransitionValue::Up
    }
}

/// What a message kind reports.
pub fn transition_of(key_value: u32) -> (transition: TransitionValue)
    ensures
        transition == transition_spec(key_value),
{
    if key_value == WM_KEYDOWN || key_value == WM_SYSKEYDOWN {
        TransitionValue::Down
    } else {
        TransitionValue::Up
    }
}

/// Whether a message kind reports a press.
pub open spec fn is_key_down(key_value: u32) -> bool {
    transition_spec(key_value) == TransitionValue::Down
}

/// The last press of a key that was let through: the message kind it came
/// with, its time in milliseconds, and whether its release is still owed.
#[derive(Debug, Clone, Copy)]
pub struct KeyEvent {
    pub keycode: u16,
    pub value: u32,
    pub timestamp: u64,
    pub valid: bool,
}

impl KeyEvent {
    pub fn new(keycode: u16, value: u32, timestamp: u64, valid: bool) -> (event: KeyEvent)
        ensures
            event == (KeyEvent { keycode, value, timestamp, valid }),
    {
        KeyEvent { keycode, value, timestamp, valid }
    }
}

/// The state of the debouncer: the least delay between two presses of a key,
/// in milliseconds, and the last press let through of each key seen so far.
#[derive(Debug)]
pub struct KeyEventHolder {
    minimum_delay: u64,
    container: HashMap<u16, KeyEvent>,
}

impl View for KeyEventHolder {
    type V = Map<u16, KeyEvent>;

    /// The recorded press of each key code that has one.
    closed spec fn view(&self) -> Map<u16, KeyEvent> {
        self.container@
    }
}

impl KeyEventHolder {
    /// The least delay between two presses of a key, in milliseconds.
    pub closed spec fn minimum_delay_ms(&self) -> u64 {
        self.minimum_delay
    }

    /// A holder that has seen no key yet.
    pub fn new(minimum_delay: u64) -> (holder: KeyEventHolder)
        ensures
            holder@ == Map::<u16, KeyEvent>::empty(),
            holder.minimum_delay_ms() == minimum_delay,
    {
        KeyEventHolder { minimum_delay, container: HashMap::new() }
    }

    fn insert_event(&mut self, key_code: u16, key_event: KeyEvent)
        ensures
            final(self)@ == old(self)@.insert(key_code, key_event),
            final(self).minimum_delay_ms() == old(self).minimum_delay_ms(),
    {
        self.container.insert(key_code, key_event);
    }

    fn last_timestamp(&self, key_code: u16) -> (last: Option<KeyEvent>)
        ensures
            last == if self@.contains_key(key_code) {
                Some(self@[key_code])
            } else {
                None
            },
    {
        match self.container.get(&key_code) {
            Some(key_event) => Some(*key_event),
            None => None,
        }
    }
}

/// Whether more than `minimum_delay` milliseconds lie between the recorded
/// press at `previous` and an event at `timestamp`. An event that claims to be
/// older than the recorded press is taken to come zero milliseconds after it.
pub open spec fn time_expired(timestamp: u32, previous: u64, minimum_delay: u64) -> bool {
    (timestamp as u64).saturating_sub(previous) > minimum_delay
}

/// Whether an event repeats the press that is recorded and still open for
/// its key: a press of the same message kind.
pub open spec fn repeats_open_press(
    state: Map<u16, KeyEvent>,
    key_code: u16,
    key_value: u32,
) -> bool {
    &&& state.contains_key(key_code)
    &&& state[key_code].value == key_value
    &&& is_key_down(key_value)
    &&& state[key_code].valid
}

/// Whether the filter judges the event at all: it does unless the event
/// repeats an open press or its key is not watched.
pub open spec fn is_filtered(
    state: Map<u16, KeyEvent>,
    watched: Seq<MappedKey>,
    key_code: u16,
    key_value: u32,
) -> bool {
    !repeats_open_press(state, key_code, key_value) && watched.contains(key_of_code(key_code))
}

/// Whether an event is dropped.
pub open spec fn skips(
    state: Map<u16, KeyEvent>,
    minimum_delay: u64,
    watched: Seq<MappedKey>,
    key_code: u16,
    key_value: u32,
    timestamp: u32,
) -> bool {
    if !is_filtered(state, watched, key_code, key_value) {
        false
    } else if state.contains_key(key_code) {
        if is_key_down(key_value) {
            !time_expired(timestamp, state[key_code].timestamp, minimum_delay)
        } else {
            !state[key_code].valid
        }
    } else {
        !is_key_down(key_value)
    }
}

/// The recorded presses after an event.
pub open spec fn state_after(
    state: Map<u16, KeyEvent>,
    minimum_delay: u64,
    watched: Seq<MappedKey>,
    key_code: u16,
    key_value: u32,
    timestamp: u32,
) -> Map<u16, KeyEvent> {
    let press = KeyEvent {
        keycode: key_code,
        value: key_value,
        timestamp: timestamp as u64,
        valid: true,
    };
    if !is_filtered(state, watched, key_code, key_value) {
        state
    } else if state.contains_key(key_code) {
        let previous = state[key_code];
        if is_key_down(key_value) {
            if time_expired(timestamp, previous.timestamp, minimum_delay) {
                state.insert(key_code, press)
            } else {
                state
            }
        } else if previous.valid {
            state.insert(key_code, KeyEvent { valid: false, ..previous })
        } else {
            state
        }
    } else if is_key_down(key_value) {
        state.insert(key_code, press)
    } else {
        state
    }
}

/// Decides whether the event is dropped (`true`) or passed on (`false`), and
/// records what the decision on later events of the key depends on.
pub fn should_skip(
    key_code: u16,
    key_value: u32,
    timestamp: u32,
    key_holder: &mut KeyEventHolder,
    config_holder: &ConfigHolder,
) -> (skip: bool)
    ensures
        skip == skips(
            old(key_holder)@,
            old(key_holder).minimum_delay_ms(),
            config_holder.keys@,
            key_code,
            key_value,
            timestamp,
        ),
        final(key_holder)@ == state_after(
            old(key_holder)@,
            old(key_holder).minimum_delay_ms(),
            config_holder.keys@,
            key_code,
            key_value,
            timestamp,
        ),
        final(key_holder).minimum_delay_ms() == old(key_holder).minimum_delay_ms(),
        // A key that is not watched passes and leaves no trace.
        !config_holder.keys@.contains(key_of_code(key_code)) ==> !skip && final(key_holder)@ == old(key_holder)@,
        // A press exactly `minimum_delay` after the recorded one is still too early.
        ({
            let state = old(key_holder)@;
            &&& is_filtered(state, config_holder.keys@, key_code, key_value)
            &&& is_key_down(key_value)
            &&& state.contains_key(key_code)
            &&& timestamp - state[key_code].timestamp == old(key_holder).minimum_delay_ms()
        }) ==> skip && final(key_holder)@ == old(key_holder)@,
{
    let is_down = transition_of(key_value) == TransitionValue::Down;
    let recorded = key_holder.last_timestamp(key_code);
    if let Some(key_event) = recorded {
        if key_value == key_event.value && is_down && key_event.valid {
            return false;
        }
    }
    if !config_holder.watches(MappedKey::from(key_code)) {
        return false;
    }
    let minimum_delay = key_holder.minimum_delay;
    match recorded {
        Some(key_event) => {
            let elapsed = (timestamp as u64).saturating_sub(key_event.timestamp);
            if is_down {
                if elapsed > minimum_delay {
                    key_holder.insert_event(
                        key_code,
                        KeyEvent::new(key_code, key_value, timestamp as u64, true),
                    );
                    return false;
                }
                true
            } else if key_event.valid {
                key_holder.insert_event(
                    key_code,
                    KeyEvent::new(key_event.keycode, key_event.value, key_event.timestamp, false),
                );
                false
            } else {
                true
            }
        },
        None => {
            if is_down {
                key_holder.insert_event(
                    key_code,
                    KeyEvent::new(key_code, key_value, timestamp as u64, true),
                );
                false
            } else {
                true
            }
        },
    }
}

/// The life of a watched key, one event at a time, where the event does not
/// repeat an open press. A key without a record lets a press pass and records
/// it as open; its release is dropped. A key with a record has a press within
/// the delay dropped; a press after the delay passes and becomes the record,
/// open again. The release of an open press passes and closes it; the release
/// of a closed one is dropped.
pub proof fn lemma_key_states(
    state: Map<u16, KeyEvent>,
    minimum_delay: u64,
    watched: Seq<MappedKey>,
    key_code: u16,
    key_value: u32,
    timestamp: u32,
)
    requires
        watched.contains(key_of_code(key_code)),
        !repeats_open_press(state, key_code, key_value),
    ensures
        ({
            let recorded = state.contains_key(key_code);
            let previous = state[key_code];
            let skip = skips(state, minimum_delay, watched, key_code, key_value, timestamp);
            let after = state_after(state, minimum_delay, watched, key_code, key_value, timestamp);
            let late = time_expired(timestamp, previous.timestamp, minimum_delay);
            let press = KeyEvent {
                keycode: key_code,
                value: key_value,
                timestamp: timestamp as u64,
                valid: true,
            };
            match transition_spec(key_value) {
                TransitionValue::Down => {
                    &&& !recorded ==> !skip && after == state.insert(key_code, press)
                    &&& recorded && !late ==> skip && after == state
                    &&& recorded && late ==> !skip && after == state.insert(key_code, press)
                },
                _ => {
                    &&& !recorded ==> skip && after == state
                    &&& recorded && previous.valid ==> !skip && after == state.insert(
                        key_code,
                        KeyEvent { valid: false, ..previous },
                    )
                    &&& recorded && !previous.valid ==> skip && after == state
                },
            }
        }),
{
}

/// The decisions on a run of events, each given as its virtual-key code, its
/// message kind and its time, taken one after the other from the state
/// `state`: `true` where the event is dropped.
pub open spec fn decisions(
    state: Map<u16, KeyEvent>,
    minimum_delay: u64,
    watched: Seq<MappedKey>,
    events: Seq<(u16, u32, u32)>,
) -> Seq<bool>
    decreases events.len(),
{
    if events.len() == 0 {
        Seq::empty()
    } else {
        let (key_code, key_value, timestamp) = events[0];
        seq![skips(state, minimum_delay, watched, key_code, key_value, timestamp)] + decisions(
            state_after(state, minimum_delay, watched, key_code, key_value, timestamp),
            minimum_delay,
            watched,
            events.drop_first(),
        )
    }
}

/// The decisions depend on which keys are watched, not on how the list of
/// them is written: from one state, two lists that hold the same keys lead to
/// the same decisions.
pub proof fn lemma_watched_keys_are_a_set(
    state: Map<u16, KeyEvent>,
    minimum_delay: u64,
    first_watched: Seq<MappedKey>,
    second_watched: Seq<MappedKey>,
    events: Seq<(u16, u32, u32)>,
)
    requires
        forall|key: MappedKey| first_watched.contains(key) == second_watched.contains(key),
    ensures
        decisions(state, minimum_delay, first_watched, events) == decisions(
            state,
            minimum_delay,
            second_watched,
            events,
        ),
    decreases events.len(),
{
    if events.len() > 0 {
        let (key_code, key_value, timestamp) = events[0];
        lemma_watched_keys_are_a_set(
            state_after(state, minimum_delay, first_watched, key_code, key_value, timestamp),
            minimum_delay,
            first_watched,
            second_watched,
            events.drop_first(),
        );
    }
}

/// The same events, replayed to two holders that are fresh from `new` with
/// the same delay and watch the same keys, meet the same decisions.
pub proof fn lemma_replay_decides_alike(
    first: KeyEventHolder,
    second: KeyEventHolder,
    first_watched: Seq<MappedKey>,
    second_watched: Seq<MappedKey>,
    events: Seq<(u16, u32, u32)>,
)
    requires
        first@ == Map::<u16, KeyEvent>::empty(),
        second@ == Map::<u16, KeyEvent>::empty(),
        first.minimum_delay_ms() == second.minimum_delay_ms(),
        forall|key: MappedKey| first_watched.contains(key) == second_watched.contains(key),
    ensures
        decisions(first@, first.minimum_delay_ms(), first_watched, events) == decisions(
            second@,
            second.minimum_delay_ms(),
            second_watched,
            events,
        ),
{
    lemma_watched_keys_are_a_set(
        first@,
        first.minimum_delay_ms(),
        first_watched,
        second_watched,
        events,
    );
}

} // verus!
