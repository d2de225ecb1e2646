//! The countdown shown in the floating window: a state machine driven by
//! clock readings and key presses.

use vstd::prelude::*;

use crate::duration::{duration_seconds, parse_duration};
use crate::input::Key;

verus! {

/// How long the display waits for a key press before it looks at the clock
/// again, in milliseconds.
pub const POLL_INTERVAL_MILLIS: u64 = 250;

/// How long the finished countdown stays on screen, in seconds.
pub const GRACE_PERIOD_SECS: u64 = 2;

/// Seconds left of `target` once `elapsed` seconds have passed: the
/// difference while it is positive, zero from then on.
pub open spec fn remaining(target: nat, elapsed: nat) -> nat {
    if elapsed < target {
        (target - elapsed) as nat
    } else {
        0
    }
}

/// Computes the seconds left on the clock.
pub fn remaining_secs(target_secs: u64, elapsed_secs: u64) -> (left: u64)
    ensures
        left == remaining(target_secs as nat, elapsed_secs as nat),
{
    if elapsed_secs < target_secs {
        target_secs - elapsed_secs
    } else {
        0
    }
}

/// The time left never grows as the clock advances.
pub proof fn lemma_remaining_never_grows(target: nat, earlier: nat, later: nat)
    requires
        earlier <= later,
    ensures
        remaining(target, later) <= remaining(target, earlier),
{
}

/// The time left starts at the target, never exceeds it, and is zero exactly
/// from the moment the target is reached.
pub proof fn lemma_remaining_reaches_zero(target: nat, elapsed: nat)
    ensures
        remaining(target, 0) == target,
        remaining(target, elapsed) <= target,
        remaining(target, elapsed) == 0 <==> elapsed >= target,
        remaining(target, elapsed) + elapsed >= target,
{
}

/// Once the time left is zero it stays zero, however often it is computed
/// again later.
pub proof fn lemma_remaining_stays_zero(target: nat, elapsed: nat, later: nat)
    requires
        remaining(target, elapsed) == 0,
        elapsed <= later,
    ensures
        remaining(target, later) == 0,
{
}

/// Where a countdown stands in its life.
#[derive(Clone, Copy, Debug, PartialEq, Eq, Structural)]
pub enum Phase {
    /// Created, nothing shown yet.
    WaitingToRender,
    /// Time is running.
    Counting,
    /// Time is up; the final display is held for the grace period.
    Done,
    /// Over: the display goes away.
    Closed,
}

impl Phase {
    /// The position of a phase in the order in which phases follow each other.
    pub open spec fn rank(self) -> nat {
        match self {
            Phase::WaitingToRender => 0,
            Phase::Counting => 1,
            Phase::Done => 2,
            Phase::Closed => 3,
        }
    }
}

/// What drives a countdown forward.
#[derive(Clone, Copy, Debug, PartialEq, Eq, Structural)]
pub enum CountdownEvent {
    /// The clock was read: so many whole seconds have passed since the start.
    Tick { elapsed_secs: u64 },
    /// The user asked to leave.
    Quit,
}

/// What the display has to do after an event.
#[derive(Clone, Copy, Debug, PartialEq, Eq, Structural)]
pub enum CountdownAction {
    /// Show this much time left of the total, then wait one poll interval for
    /// a key press and report back.
    Draw { remaining_secs: u64, total_secs: u64 },
    /// Stop and leave.
    Exit,
}

/// The mathematical state of a countdown.
pub struct CountdownState {
    /// Where the countdown stands.
    pub phase: Phase,
    /// The duration counted down from, in seconds.
    pub target: nat,
    /// The seconds left at the last clock reading.
    pub remaining: nat,
}

impl CountdownState {
    /// A countdown of `target` seconds that has not shown anything yet.
    pub open spec fn initial(target: nat) -> Self {
        CountdownState { phase: Phase::WaitingToRender, target, remaining: target }
    }

    /// What holds of every countdown: no more is left than was asked for, a
    /// countdown that has not started has everything left, and one that is
    /// done has nothing left.
    pub open spec fn wf(self) -> bool {
        &&& self.remaining <= self.target
        &&& self.target <= u64::MAX
        &&& self.phase == Phase::WaitingToRender ==> self.remaining == self.target
        &&& self.phase == Phase::Done ==> self.remaining == 0
    }

    /// Whether the grace period is over at `elapsed` seconds.
    pub open spec fn grace_over(self, elapsed: nat) -> bool {
        elapsed >= self.target + GRACE_PERIOD_SECS
    }

    /// The state after `event`.
    ///
    /// A quit closes the countdown wherever it stands. A clock reading starts
    /// a waiting countdown, recomputes the time left of a running one and
    /// finishes it when nothing is left, and closes a finished one once the
    /// grace period has passed. A closed countdown stays closed.
    pub open spec fn step(self, event: CountdownEvent) -> Self {
        match event {
            CountdownEvent::Quit => CountdownState { phase: Phase::Closed, ..self },
            CountdownEvent::Tick { elapsed_secs } => {
                let left = remaining(self.target, elapsed_secs as nat);
                match self.phase {
                    Phase::WaitingToRender => CountdownState {
                        phase: Phase::Counting,
                        remaining: left,
                        ..self
                    },
                    Phase::Counting => CountdownState {
                        phase: if left == 0 {
                            Phase::Done
                        } else {
                            Phase::Counting
                        },
                        remaining: left,
                        ..self
                    },
                    Phase::Done => CountdownState {
                        phase: if self.grace_over(elapsed_secs as nat) {
                            Phase::Closed
                        } else {
                            Phase::Done
                        },
                        ..self
                    },
                    Phase::Closed => self,
                }
            },
        }
    }

    /// What the display does in this state: it leaves when the countdown is
    /// closed and draws the time left otherwise.
    pub open spec fn action(self) -> CountdownAction {
        if self.phase == Phase::Closed {
            CountdownAction::Exit
        } else {
            CountdownAction::Draw {
                remaining_secs: self.remaining as u64,
                total_secs: self.target as u64,
            }
        }
    }

    /// The state after a whole sequence of events, taken in order.
    pub open spec fn run(self, events: Seq<CountdownEvent>) -> Self
        decreases events.len(),
    {
        if events.len() == 0 {
            self
        } else {
            self.run(events.drop_last()).step(events.last())
        }
    }
}

/// Every event leaves a valid countdown valid and its target untouched.
pub proof fn lemma_step_preserves_wf(state: CountdownState, event: CountdownEvent)
    requires
        state.wf(),
    ensures
        state.step(event).wf(),
        state.step(event).target == state.target,
{
}

/// A countdown only ever moves forward through its phases, and by at most
/// one phase per clock reading.
pub proof fn lemma_phases_advance(state: CountdownState, event: CountdownEvent)
    ensures
        state.step(event).phase.rank() >= state.phase.rank(),
        event is Tick ==> state.step(event).phase.rank() <= state.phase.rank() + 1,
{
}

/// A quit closes the countdown at once, whatever its phase.
pub proof fn lemma_quit_closes(state: CountdownState)
    ensures
        state.step(CountdownEvent::Quit).phase == Phase::Closed,
        state.step(CountdownEvent::Quit).action() == CountdownAction::Exit,
{
}

/// A closed countdown stays closed under every event.
pub proof fn lemma_closed_is_final(state: CountdownState, event: CountdownEvent)
    requires
        state.phase == Phase::Closed,
    ensures
        state.step(event) == state,
{
}

/// While a countdown runs, each clock reading shows exactly the time left at
/// that reading, and the countdown is done precisely when the reading has
/// reached the target.
pub proof fn lemma_tick_shows_time_left(state: CountdownState, elapsed_secs: u64)
    requires
        state.phase == Phase::WaitingToRender || state.phase == Phase::Counting,
    ensures
        state.step(CountdownEvent::Tick { elapsed_secs }).remaining == remaining(
            state.target,
            elapsed_secs as nat,
        ),
        state.phase == Phase::Counting ==> (state.step(
            CountdownEvent::Tick { elapsed_secs },
        ).phase == Phase::Done <==> elapsed_secs >= state.target),
{
}

/// A finished countdown keeps showing zero until the grace period has passed
/// and closes at the first clock reading after that.
pub proof fn lemma_done_holds_for_grace(state: CountdownState, elapsed_secs: u64)
    requires
        state.wf(),
        state.phase == Phase::Done,
    ensures
        state.step(CountdownEvent::Tick { elapsed_secs }).remaining == 0,
        state.step(CountdownEvent::Tick { elapsed_secs }).phase == Phase::Closed
            <==> elapsed_secs >= state.target + GRACE_PERIOD_SECS,
        state.step(CountdownEvent::Tick { elapsed_secs }).phase != Phase::Closed
            ==> state.step(CountdownEvent::Tick { elapsed_secs }) == state,
{
}

/// Whether the clock readings among `events` never go backwards.
pub open spec fn clock_monotone(events: Seq<CountdownEvent>) -> bool {
    forall|i: int, j: int|
        0 <= i <= j < events.len() && events[i] is Tick && events[j] is Tick
            ==> events[i]->elapsed_secs <= events[j]->elapsed_secs
}

/// Whatever events arrive, a valid countdown stays valid and never moves
/// back to an earlier phase.
pub proof fn lemma_run_preserves_wf(state: CountdownState, events: Seq<CountdownEvent>)
    requires
        state.wf(),
    ensures
        state.run(events).wf(),
        state.run(events).target == state.target,
        state.run(events).phase.rank() >= state.phase.rank(),
    decreases events.len(),
{
    if events.len() > 0 {
        lemma_run_preserves_wf(state, events.drop_last());
        lemma_step_preserves_wf(state.run(events.drop_last()), events.last());
        lemma_phases_advance(state.run(events.drop_last()), events.last());
    }
}

/// In the course of any events a countdown passes through its phases in
/// their order: at no point of a run is it in a later phase than at the end.
pub proof fn lemma_run_phases_in_order(state: CountdownState, events: Seq<CountdownEvent>, k: int)
    requires
        0 <= k <= events.len(),
    ensures
        state.run(events.take(k)).phase.rank() <= state.run(events).phase.rank(),
    decreases events.len() - k,
{
    if k == events.len() {
        assert(events.take(k) =~= events);
    } else {
        lemma_run_phases_in_order(state, events.drop_last(), k);
        assert(events.drop_last().take(k) =~= events.take(k));
        lemma_phases_advance(state.run(events.drop_last()), events.last());
    }
}

/// Whether `events` holds clock readings only, all of them earlier than
/// `limit` seconds.
pub open spec fn only_ticks_before(events: Seq<CountdownEvent>, limit: nat) -> bool {
    forall|i: int|
        0 <= i < events.len() ==> (#[trigger] events[i]) is Tick && events[i]->elapsed_secs
            < limit
}

/// A countdown that nobody quits is not done before its time is up: as long
/// as every clock reading lies before the target, it is waiting or counting.
pub proof fn lemma_not_done_before_target(target: nat, events: Seq<CountdownEvent>)
    requires
        only_ticks_before(events, target),
    ensures
        CountdownState::initial(target).run(events).phase.rank() <= Phase::Counting.rank(),
        CountdownState::initial(target).run(events).target == target,
    decreases events.len(),
{
    if events.len() > 0 {
        let earlier = events.drop_last();
        assert forall|i: int| 0 <= i < earlier.len() implies (#[trigger] earlier[i]) is Tick
            && earlier[i]->elapsed_secs < target by {
            assert(earlier[i] == events[i]);
        }
        lemma_not_done_before_target(target, earlier);
        assert(events.last() == events[events.len() - 1]);
    }
}

/// A countdown that nobody quits lives at least for its duration and the
/// grace period: as long as every clock reading lies before their sum, it is
/// not closed.
pub proof fn lemma_not_closed_before_grace(target: nat, events: Seq<CountdownEvent>)
    requires
        only_ticks_before(events, target + GRACE_PERIOD_SECS as nat),
    ensures
        CountdownState::initial(target).run(events).phase != Phase::Closed,
        CountdownState::initial(target).run(events).target == target,
    decreases events.len(),
{
    if events.len() > 0 {
        let earlier = events.drop_last();
        assert forall|i: int| 0 <= i < earlier.len() implies (#[trigger] earlier[i]) is Tick
            && earlier[i]->elapsed_secs < target + GRACE_PERIOD_SECS by {
            assert(earlier[i] == events[i]);
        }
        lemma_not_closed_before_grace(target, earlier);
        assert(events.last() == events[events.len() - 1]);
    }
}

/// Once the duration and the grace period have passed, three clock readings
/// close a countdown from whatever phase it is in: one to start it, one to
/// finish it, one to close it.
pub proof fn lemma_late_ticks_close(state: CountdownState, first: u64, second: u64, third: u64)
    requires
        state.wf(),
        first >= state.target + GRACE_PERIOD_SECS,
        second >= state.target + GRACE_PERIOD_SECS,
        third >= state.target + GRACE_PERIOD_SECS,
    ensures
        state.step(CountdownEvent::Tick { elapsed_secs: first }).step(
            CountdownEvent::Tick { elapsed_secs: second },
        ).step(CountdownEvent::Tick { elapsed_secs: third }).phase == Phase::Closed,
        state.phase == Phase::Done ==> state.step(
            CountdownEvent::Tick { elapsed_secs: first },
        ).phase == Phase::Closed,
{
}

/// As long as the clock does not run backwards, the time left that a
/// countdown shows never grows from one event to the next.
pub proof fn lemma_shown_time_never_grows(
    target: nat,
    events: Seq<CountdownEvent>,
    next: CountdownEvent,
)
    requires
        target <= u64::MAX,
        clock_monotone(events.push(next)),
    ensures
        CountdownState::initial(target).run(events.push(next)).remaining
            <= CountdownState::initial(target).run(events).remaining,
{
    let start = CountdownState::initial(target);
    let before = start.run(events);
    assert(events.push(next).drop_last() =~= events);
    assert(events.push(next).last() == next);
    lemma_run_preserves_wf(start, events);
    match next {
        CountdownEvent::Quit => {},
        CountdownEvent::Tick { elapsed_secs } => {
            lemma_shown_is_bounded_by_clock(target, events, elapsed_secs);
        },
    }
}

/// After any events whose clock readings stay at or below `bound`, a
/// countdown shows at least the time that is left at `bound`, unless it is
/// already done.
proof fn lemma_shown_is_bounded_by_clock(target: nat, events: Seq<CountdownEvent>, bound: u64)
    requires
        target <= u64::MAX,
        forall|i: int|
            0 <= i < events.len() && events[i] is Tick ==> events[i]->elapsed_secs <= bound,
    ensures
        ({
            let state = CountdownState::initial(target).run(events);
            state.phase == Phase::WaitingToRender || state.phase == Phase::Counting
                ==> remaining(target, bound as nat) <= state.remaining
        }),
    decreases events.len(),
{
    let start = CountdownState::initial(target);
    if events.len() > 0 {
        let earlier = events.drop_last();
        assert forall|i: int| 0 <= i < earlier.len() && earlier[i] is Tick implies earlier[i]
            ->elapsed_secs <= bound by {
            assert(earlier[i] == events[i]);
        }
        lemma_shown_is_bounded_by_clock(target, earlier, bound);
        lemma_run_preserves_wf(start, earlier);
        assert(events.last() == events[events.len() - 1]);
    }
}

/// A countdown as the display holds it.
#[derive(Clone, Copy, Debug)]
pub struct Countdown {
    phase: Phase,
    target_secs: u64,
    remaining_secs: u64,
}

impl View for Countdown {
    type V = CountdownState;

    closed spec fn view(&self) -> CountdownState {
        CountdownState {
            phase: self.phase,
            target: self.target_secs as nat,
            remaining: self.remaining_secs as nat,
        }
    }
}

impl Countdown {
    #[verifier::type_invariant]
    spec fn valid(self) -> bool {
        self@.wf()
    }

    /// A countdown for the duration written in `time_str`, waiting to be
    /// shown.
    pub fn new(time_str: &str) -> (countdown: Self)
        ensures
            countdown@ == CountdownState::initial(duration_seconds(time_str@)),
            countdown@.wf(),
    {
        let target_secs = parse_duration(time_str);
        Countdown { phase: Phase::WaitingToRender, target_secs, remaining_secs: target_secs }
    }

    /// The current phase.
    pub fn phase(&self) -> (phase: Phase)
        ensures
            phase == self@.phase,
    {
        self.phase
    }

    /// The duration counted down from, in seconds.
    pub fn target_secs(&self) -> (secs: u64)
        ensures
            secs == self@.target,
    {
        self.target_secs
    }

    /// The time left at the last clock reading, in seconds.
    pub fn remaining_secs(&self) -> (secs: u64)
        ensures
            secs == self@.remaining,
            secs <= self@.target,
    {
        proof {
            use_type_invariant(self);
        }
        self.remaining_secs
    }

    /// Takes one event and says what the display has to do next.
    pub fn step(&mut self, event: CountdownEvent) -> (action: CountdownAction)
        ensures
            final(self)@ == old(self)@.step(event),
            final(self)@.wf(),
            action == final(self)@.action(),
    {
        proof {
            use_type_invariant(&*self);
        }
        let target_secs = self.target_secs;
        match event {
            CountdownEvent::Quit => {
                *self = Countdown { phase: Phase::Closed, ..*self };
            },
            CountdownEvent::Tick { elapsed_secs } => {
                let left = remaining_secs(target_secs, elapsed_secs);
                match self.phase {
                    Phase::WaitingToRender => {
                        *self = Countdown { phase: Phase::Counting, target_secs, remaining_secs: left };
                    },
                    Phase::Counting => {
                        let phase = if left == 0 {
                            Phase::Done
                        } else {
                            Phase::Counting
                        };
                        *self = Countdown { phase, target_secs, remaining_secs: left };
                    },
                    Phase::Done => {
                        if elapsed_secs >= target_secs && elapsed_secs - target_secs
                            >= GRACE_PERIOD_SECS {
                            *self = Countdown { phase: Phase::Closed, ..*self };
                        }
                    },
                    Phase::Closed => {},
                }
            },
        }
        match self.phase {
            Phase::Closed => CountdownAction::Exit,
            _ => CountdownAction::Draw {
                remaining_secs: self.remaining_secs,
                total_secs: self.target_secs,
            },
        }
    }
}

/// The event that one round of waiting amounts to: a quit if the user
/// pressed `q` or escape, a clock reading otherwise.
pub open spec fn event_of(key: Option<Key>, elapsed_secs: u64) -> CountdownEvent {
    if key == Some(Key::Char('q')) || key == Some(Key::Esc) {
        CountdownEvent::Quit
    } else {
        CountdownEvent::Tick { elapsed_secs }
    }
}

/// Turns what happened during one poll interval into an event: the key that
/// was pressed, if any, and the clock reading at the end of it.
pub fn poll_event(key: Option<Key>, elapsed_secs: u64) -> (event: CountdownEvent)
    ensures
        event == event_of(key, elapsed_secs),
{
    match key {
        Some(Key::Char(c)) => {
            if c == 'q' {
                CountdownEvent::Quit
            } else {
                CountdownEvent::Tick { elapsed_secs }
            }
        },
        Some(Key::Esc) => CountdownEvent::Quit,
        _ => CountdownEvent::Tick { elapsed_secs },
    }
}

} // verus!
