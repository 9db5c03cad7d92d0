use vstd::prelude::*;

verus! {

/// What the daemon learns on one wake-up.
#[derive(Clone, Copy, Debug, PartialEq, Eq)]
pub enum Event {
    /// The temperature that the sun's position asks for now, in kelvin.
    Reading(u32),
    /// Sunrise and sunset could not be computed for the position.
    SolarFailure,
}

/// What the daemon does in answer.
#[derive(Clone, Copy, Debug, PartialEq, Eq)]
pub enum Action {
    /// Set the displays to this temperature.
    Apply(u32),
    /// Leave the displays alone: this temperature is already set.
    Keep(u32),
    /// Report that the position's sunrise and sunset could not be computed.
    ReportFailure,
}

/// The daemon's state: the temperature it last set (0 before the first one).
pub struct Daemon {
    current: u32,
}

impl View for Daemon {
    type V = u32;

    closed spec fn view(&self) -> u32 {
        self.current
    }
}

/// One step: the state after an event and the action it calls for.
pub open spec fn spec_step(current: u32, event: Event) -> (u32, Action) {
    match event {
        Event::Reading(t) => if t != current {
            (t, Action::Apply(t))
        } else {
            (current, Action::Keep(t))
        },
        Event::SolarFailure => (current, Action::ReportFailure),
    }
}

/// The state after a run of events from `current`.
pub open spec fn spec_run(current: u32, events: Seq<Event>) -> u32
    decreases events.len(),
{
    if events.len() == 0 {
        current
    } else {
        spec_run(spec_step(current, events[0]).0, events.drop_first())
    }
}

impl Daemon {
    /// A daemon that has set no temperature yet.
    pub fn new() -> (d: Daemon)
        ensures
            d@ == 0,
    {
        Daemon { current: 0 }
    }

    /// The temperature last set, 0 if none.
    pub fn current(&self) -> (t: u32)
        ensures
            t == self@,
    {
        self.current
    }

    /// Handles one wake-up: a reading that differs from the temperature set
    /// last is applied and remembered, an equal one is kept, and a failed
    /// solar computation is reported and changes nothing.
    pub fn step(&mut self, event: Event) -> (a: Action)
        ensures
            (final(self)@, a) == spec_step(old(self)@, event),
    {
        match event {
            Event::Reading(t) => {
                if t != self.current {
                    self.current = t;
                    Action::Apply(t)
                } else {
                    Action::Keep(t)
                }
            },
            Event::SolarFailure => Action::ReportFailure,
        }
    }
}

/// After any step the daemon's state is the temperature that its displays
/// were last set to: an `Apply(t)` leaves `t`, anything else leaves the state.
pub proof fn lemma_state_tracks_applied(current: u32, event: Event)
    ensures
        spec_step(current, event).1 matches Action::Apply(t) ==> spec_step(current, event).0 == t,
        !(spec_step(current, event).1 is Apply) ==> spec_step(current, event).0 == current,
{
}

/// The same reading twice in a row sets the displays at most once: the
/// second step keeps the temperature.
pub proof fn lemma_repeat_reading_kept(current: u32, t: u32)
    ensures
        spec_step(spec_step(current, Event::Reading(t)).0, Event::Reading(t)).1 == Action::Keep(t),
        spec_step(spec_step(current, Event::Reading(t)).0, Event::Reading(t)).0 == t,
{
}

/// A step never applies the temperature that is already set.
pub proof fn lemma_no_redundant_apply(current: u32, event: Event)
    ensures
        spec_step(current, event).1 != Action::Apply(current),
{
}

/// A failed solar computation changes nothing.
pub proof fn lemma_failure_is_neutral(current: u32)
    ensures
        spec_step(current, Event::SolarFailure) == (current, Action::ReportFailure),
{
}

/// After a run that holds at least one reading, the state is the last
/// reading of the run, whatever came before it and whatever failures follow it.
pub proof fn lemma_run_ends_at_last_reading(current: u32, events: Seq<Event>, i: int, t: u32)
    requires
        0 <= i < events.len(),
        events[i] == Event::Reading(t),
        forall|j: int| i < j < events.len() ==> events[j] == Event::SolarFailure,
    ensures
        spec_run(current, events) == t,
    decreases events.len(),
{
    if i == 0 {
        lemma_run_failures(spec_step(current, events[0]).0, events.drop_first());
    } else {
        lemma_run_ends_at_last_reading(
            spec_step(current, events[0]).0,
            events.drop_first(),
            i - 1,
            t,
        );
    }
}

/// A run of failures leaves the state as it was.
pub proof fn lemma_run_failures(current: u32, events: Seq<Event>)
    requires
        forall|j: int| 0 <= j < events.len() ==> events[j] == Event::SolarFailure,
    ensures
        spec_run(current, events) == current,
    decreases events.len(),
{
    if events.len() > 0 {
        lemma_run_failures(current, events.drop_first());
    }
}

} // verus!
