//! The debounce decision for events that say what happened to the key. A
//! release is the anchor: the first one of a key is recorded with its time,
//! and a press that follows it too soon is dropped, together with whatever
//! the key reports until a press comes late enough.

use crate::linux::config::ConfigHolder;
use crate::transition::TransitionValue;
use std::collections::HashMap;
use vstd::prelude::*;

verus! {

broadcast use vstd::std_specs::hash::group_hash_axioms;

/// The value of an event that reports a release.
pub const KEY_UP: i32 = 0;

/// The value of an event that reports a press.
pub const KEY_DOWN: i32 = 1;

/// The value of an event that reports the autorepeat of a held key.
pub const KEY_REPEAT: i32 = 2;

/// How many nanoseconds make a millisecond.
pub const NANOS_PER_MILLI: u128 = 1_000_000;

/// One event of a key: the code of the key, what happened to it, and when, in
/// nanoseconds since the start of 1970.
#[derive(Debug, Clone, Copy)]
pub struct KeyEvent {
    pub keycode: u16,
    pub value: i32,
    pub timestamp: u128,
}

impl KeyEvent {
    pub fn new(keycode: u16, value: i32, timestamp: u128) -> (event: KeyEvent)
        ensures
            event == (KeyEvent { keycode, value, timestamp }),
    {
        KeyEvent { keycode, value, timestamp }
    }

    /// What the event reports. The input layer knows the three values above;
    /// an event with another value reports nothing that has a name.
    pub open spec fn transition_spec(self) -> Option<TransitionValue> {
        if self.value == KEY_UP {
            Some(TransitionValue::Up)
        } else if self.value == KEY_DOWN {
            Some(TransitionValue::Down)
        } else if self.value == KEY_REPEAT {
            Some(TransitionValue::Repeat)
        } else {
            None
        }
    }

    /// What the event reports.
    pub fn transition(&self) -> (transition: Option<TransitionValue>)
        ensures
            transition == self.transition_spec(),
    {
        if self.value == KEY_UP {
            Some(TransitionValue::Up)
        } else if self.value == KEY_DOWN {
            Some(TransitionValue::Down)
        } else if self.value == KEY_REPEAT {
            Some(TransitionValue::Repeat)
        } else {
            None
        }
    }
}

/// The state of the debouncer: the least delay between a release and the next
/// press, in milliseconds, and for each key with a recorded release the time
/// of that release.
#[derive(Debug)]
pub struct KeyEventHolder {
    minimum_delay: u64,
    container: HashMap<u16, u128>,
}

impl View for KeyEventHolder {
    type V = Map<u16, u128>;

    /// The time of the recorded release of each key code that has one.
    closed spec fn view(&self) -> Map<u16, u128> {
        self.container@
    }
}

impl KeyEventHolder {
    /// The least delay between a release and the next press, in milliseconds.
    pub closed spec fn minimum_delay_ms(&self) -> u64 {
        self.minimum_delay
    }

    /// A holder that has recorded nothing yet.
    pub fn new(minimum_delay: u64) -> (holder: KeyEventHolder)
        ensures
            holder@ == Map::<u16, u128>::empty(),
            holder.minimum_delay_ms() == minimum_delay,
    {
        KeyEventHolder { minimum_delay, container: HashMap::new() }
    }

    fn insert_event(&mut self, key_code: u16, timestamp: u128)
        ensures
            final(self)@ == old(self)@.insert(key_code, timestamp),
            final(self).minimum_delay_ms() == old(self).minimum_delay_ms(),
    {
        self.container.insert(key_code, timestamp);
    }

    fn remove_event(&mut self, key_code: &u16)
        ensures
            final(self)@ == old(self)@.remove(*key_code),
            final(self).minimum_delay_ms() == old(self).minimum_delay_ms(),
    {
        self.container.remove(key_code);
    }

    fn last_timestamp(&self, key_code: &u16) -> (last: Option<&u128>)
        ensures
            last == if self@.contains_key(*key_code) {
                Some(&self@[*key_code])
            } else {
                None
            },
    {
        self.container.get(key_code)
    }
}

/// Whether an event at `timestamp` comes within `minimum_delay` milliseconds
/// of the release recorded at `recorded`. The end of the delay still counts as
/// within it, and so does an event that claims to be older than the release.
pub open spec fn within_delay(timestamp: u128, recorded: u128, minimum_delay: u64) -> bool {
    timestamp.saturating_sub(recorded) <= minimum_delay * NANOS_PER_MILLI
}

/// Whether the filter judges the event at all: it does unless the event is an
/// autorepeat or its key is not watched.
pub open spec fn is_filtered(watched: Seq<u16>, ev: KeyEvent) -> bool {
    ev.transition_spec() != Some(TransitionValue::Repeat) && watched.contains(ev.keycode)
}

/// Whether an event is dropped: a key with a recorded release has its presses
/// dropped while the delay lasts, and everything else it reports until a
/// press ends the record.
pub open spec fn skips(
    state: Map<u16, u128>,
    minimum_delay: u64,
    watched: Seq<u16>,
    ev: KeyEvent,
) -> bool {
    &&& is_filtered(watched, ev)
    &&& state.contains_key(ev.keycode)
    &&& (ev.transition_spec() == Some(TransitionValue::Down) ==> within_delay(
        ev.timestamp,
        state[ev.keycode],
        minimum_delay,
    ))
}

/// The recorded releases after an event: the first release of a key is
/// recorded, and a press after the delay removes the record.
pub open spec fn state_after(
    state: Map<u16, u128>,
    minimum_delay: u64,
    watched: Seq<u16>,
    ev: KeyEvent,
) -> Map<u16, u128> {
    if !is_filtered(watched, ev) {
        state
    } else if state.contains_key(ev.keycode) {
        if ev.transition_spec() == Some(TransitionValue::Down) && !within_delay(
            ev.timestamp,
            state[ev.keycode],
            minimum_delay,
        ) {
            state.remove(ev.keycode)
        } else {
            state
        }
    } else if ev.transition_spec() == Some(TransitionValue::Up) {
        state.insert(ev.keycode, ev.timestamp)
    } else {
        state
    }
}

/// Decides whether the event is dropped (`true`) or passed on (`false`), and
/// records what the decision on later events of the key depends on.
pub fn should_skip(
    ev: &KeyEvent,
    key_holder: &mut KeyEventHolder,
    config_holder: &ConfigHolder,
) -> (skip: bool)
    ensures
        skip == skips(
            old(key_holder)@,
            old(key_holder).minimum_delay_ms(),
            config_holder.keys@,
            *ev,
        ),
        final(key_holder)@ == state_after(
            old(key_holder)@,
            old(key_holder).minimum_delay_ms(),
            config_holder.keys@,
            *ev,
        ),
        final(key_holder).minimum_delay_ms() == old(key_holder).minimum_delay_ms(),
        // A key that is not watched passes and leaves no trace.
        !config_holder.keys@.contains(ev.keycode) ==> !skip && final(key_holder)@ == old(key_holder)@,
        // An autorepeat passes and leaves no trace.
        ev.transition_spec() == Some(TransitionValue::Repeat) ==> !skip && final(key_holder)@ == old(
            key_holder,
        )@,
        // A press of a key without a recorded release passes.
        ev.transition_spec() == Some(TransitionValue::Down) && !old(key_holder)@.contains_key(
            ev.keycode,
        ) ==> !skip,
        // A press exactly at the end of the delay is still too early.
        ({
            let state = old(key_holder)@;
            &&& is_filtered(config_holder.keys@, *ev)
            &&& ev.transition_spec() == Some(TransitionValue::Down)
            &&& state.contains_key(ev.keycode)
            &&& ev.timestamp - state[ev.keycode] == old(key_holder).minimum_delay_ms() * NANOS_PER_MILLI
        }) ==> skip && final(key_holder)@ == old(key_holder)@,
{
    let transition = ev.transition();
    if transition == Some(TransitionValue::Repeat) {
        return false;
    }
    if !config_holder.watches(ev.keycode) {
        return false;
    }
    let delay: u128 = key_holder.minimum_delay as u128 * NANOS_PER_MILLI;
    match key_holder.last_timestamp(&ev.keycode) {
        Some(timestamp) => {
            let too_soon = ev.timestamp.saturating_sub(*timestamp) <= delay;
            if transition == Some(TransitionValue::Down) && !too_soon {
                key_holder.remove_event(&ev.keycode);
                return false;
            }
            true
        },
        None => {
            if transition == Some(TransitionValue::Up) {
                key_holder.insert_event(ev.keycode, ev.timestamp);
            }
            false
        },
    }
}

/// The life of a watched key, one event at a time. A key without a record
/// lets a press pass and stays without a record; its release passes and is
/// recorded. A key with a record has a press within the delay dropped and
/// keeps the record; a press after the delay passes and ends the record.
pub proof fn lemma_key_states(
    state: Map<u16, u128>,
    minimum_delay: u64,
    watched: Seq<u16>,
    ev: KeyEvent,
)
    requires
        watched.contains(ev.keycode),
    ensures
        ({
            let recorded = state.contains_key(ev.keycode);
            let skip = skips(state, minimum_delay, watched, ev);
            let after = state_after(state, minimum_delay, watched, ev);
            let early = within_delay(ev.timestamp, state[ev.keycode], minimum_delay);
            match ev.transition_spec() {
                Some(TransitionValue::Down) => {
                    &&& !recorded ==> !skip && after == state
                    &&& recorded && early ==> skip && after == state
                    &&& recorded && !early ==> !skip && after == state.remove(ev.keycode)
                },
                Some(TransitionValue::Up) => {
                    &&& !recorded ==> !skip && after == state.insert(ev.keycode, ev.timestamp)
                    &&& recorded ==> skip && after == state
                },
                Some(TransitionValue::Repeat) => !skip && after == state,
                None => skip == recorded && after == state,
            }
        }),
{
}

/// The decisions on a run of events, taken one after the other from the
/// state `state`: `true` where the event is dropped.
pub open spec fn decisions(
    state: Map<u16, u128>,
    minimum_delay: u64,
    watched: Seq<u16>,
    events: Seq<KeyEvent>,
) -> Seq<bool>
    decreases events.len(),
{
    if events.len() == 0 {
        Seq::empty()
    } else {
        seq![skips(state, minimum_delay, watched, events[0])] + decisions(
            state_after(state, minimum_delay, watched, events[0]),
            minimum_delay,
            watched,
            events.drop_first(),
        )
    }
}

/// The recorded releases after a run of events.
pub open spec fn state_after_all(
    state: Map<u16, u128>,
    minimum_delay: u64,
    watched: Seq<u16>,
    events: Seq<KeyEvent>,
) -> Map<u16, u128>
    decreases events.len(),
{
    if events.len() == 0 {
        state
    } else {
        state_after_all(
            state_after(state, minimum_delay, watched, events[0]),
            minimum_delay,
            watched,
            events.drop_first(),
        )
    }
}

/// Decides on each event of a batch in turn: the result holds, for every
/// event, whether it is dropped.
pub fn should_skip_each(
    events: &Vec<KeyEvent>,
    key_holder: &mut KeyEventHolder,
    config_holder: &ConfigHolder,
) -> (skipped: Vec<bool>)
    ensures
        skipped@ == decisions(
            old(key_holder)@,
            old(key_holder).minimum_delay_ms(),
            config_holder.keys@,
            events@,
        ),
        final(key_holder)@ == state_after_all(
            old(key_holder)@,
            old(key_holder).minimum_delay_ms(),
            config_holder.keys@,
            events@,
        ),
        final(key_holder).minimum_delay_ms() == old(key_holder).minimum_delay_ms(),
{
    let ghost start = key_holder@;
    let ghost delay = key_holder.minimum_delay_ms();
    let ghost watched = config_holder.keys@;
    let mut skipped: Vec<bool> = Vec::new();
    let mut i: usize = 0;
    assert(events@.skip(0) == events@);
    while i < events.len()
        invariant
            i <= events.len(),
            key_holder.minimum_delay_ms() == delay,
            watched == config_holder.keys@,
            decisions(start, delay, watched, events@) == skipped@ + decisions(
                key_holder@,
                delay,
                watched,
                events@.skip(i as int),
            ),
            state_after_all(start, delay, watched, events@) == state_after_all(
                key_holder@,
                delay,
                watched,
                events@.skip(i as int),
            ),
        decreases events.len() - i,
    {
        let skip = should_skip(&events[i], key_holder, config_holder);
        skipped.push(skip);
        assert(events@.skip(i as int).drop_first() == events@.skip(i + 1));
        i += 1;
    }
    skipped
}

/// The decisions depend on which keys are watched, not on how the list of
/// them is written: from one state, two lists that hold the same keys lead to
/// the same decisions and the same state.
pub proof fn lemma_watched_keys_are_a_set(
    state: Map<u16, u128>,
    minimum_delay: u64,
    first_watched: Seq<u16>,
    second_watched: Seq<u16>,
    events: Seq<KeyEvent>,
)
    requires
        forall|code: u16| first_watched.contains(code) == second_watched.contains(code),
    ensures
        decisions(state, minimum_delay, first_watched, events) == decisions(
            state,
            minimum_delay,
            second_watched,
            events,
        ),
        state_after_all(state, minimum_delay, first_watched, events) == state_after_all(
            state,
            minimum_delay,
            second_watched,
            events,
        ),
    decreases events.len(),
{
    if events.len() > 0 {
        lemma_watched_keys_are_a_set(
            state_after(state, minimum_delay, first_watched, events[0]),
            minimum_delay,
            first_watched,
            second_watched,
            events.drop_first(),
        );
    }
}

/// The same events, replayed to two holders that are fresh from `new` with
/// the same delay and watch the same keys, meet the same decisions.
pub proof fn lemma_replay_decides_alike(
    first: KeyEventHolder,
    second: KeyEventHolder,
    first_watched: Seq<u16>,
    second_watched: Seq<u16>,
    events: Seq<KeyEvent>,
)
    requires
        first@ == Map::<u16, u128>::empty(),
        second@ == Map::<u16, u128>::empty(),
        first.minimum_delay_ms() == second.minimum_delay_ms(),
        forall|code: u16| first_watched.contains(code) == second_watched.contains(code),
    ensures
        decisions(first@, first.minimum_delay_ms(), first_watched, events) == decisions(
            second@,
            second.minimum_delay_ms(),
            second_watched,
            events,
        ),
{
    lemma_watched_keys_are_a_set(
        first@,
        first.minimum_delay_ms(),
        first_watched,
        second_watched,
        events,
    );
}

} // verus!
