//! The mode handlers: what the control loop does on every poll of the shared
//! mode and colour, as a function from the handler's state and the polled
//! values to the next state and an action for the hardware.

use vstd::prelude::*;
use crate::color::{auto_next_color, channel_on, Channel, ColorMask};
use crate::duty::{climbing, lemma_wave_is_triangle, triangle, DutyGenerator, Wave};
use crate::levels::Levels;
use crate::mode::Mode;

verus! {

/// How many polls the cycling constant mode shows one colour. The count is
/// not calibrated against a clock: it stands for about ten seconds on the
/// board this was timed on, and for another time on every other board.
pub const DWELL_TICKS: u32 = 150_000;

/// The wait after each tick of a pulsing mode, in milliseconds.
pub const PULSE_TICK_MS: u16 = 1;

/// What the hardware is to do after one poll, in this order: move the shared
/// colour on, write the channel levels, wait, and hand control back.
#[derive(Clone, Copy, Debug, PartialEq, Eq)]
pub struct Action {
    /// Replace the shared colour by the one that follows it, skipping the
    /// mask with all channels off, in one indivisible update.
    pub advance_color: bool,
    /// The levels to write to the three channels, if any.
    pub levels: Option<Levels>,
    /// How long to wait, in milliseconds.
    pub delay_ms: u16,
    /// The handler has seen another mode and gives up the channels.
    pub exit: bool,
}

impl Action {
    /// The action that does nothing.
    pub open spec fn idle() -> Action {
        Action { advance_color: false, levels: None, delay_ms: 0, exit: false }
    }

    /// The action that writes levels and waits.
    pub open spec fn drive(levels: Levels, delay_ms: u16) -> Action {
        Action { advance_color: false, levels: Some(levels), delay_ms, exit: false }
    }

    /// The shared colour after the action, given the colour before it.
    pub open spec fn spec_color_after(self, current: nat) -> nat {
        if self.advance_color {
            auto_next_color(current)
        } else {
            current
        }
    }

    /// The shared colour after the action, given the colour before it: the
    /// step to hand to an indivisible update of the shared cell.
    pub fn color_after(self, current: ColorMask) -> (r: ColorMask)
        ensures
            r@ == self.spec_color_after(current@),
            self.advance_color ==> r@ == auto_next_color(current@) && r@ != 0,
            !self.advance_color ==> r == current,
    {
        if self.advance_color {
            current.auto_next()
        } else {
            current
        }
    }
}

/// The state of a mode handler between two polls.
pub struct HandlerState {
    /// The mode that the handler was entered for.
    pub mode: Mode,
    /// The duty wave; at rest in the constant modes, which use its maximum.
    pub wave: Wave,
    /// The polls spent on the current colour in the cycling constant mode.
    pub ticks: nat,
    /// Whether the cycling constant mode is inside a dwell.
    pub dwelling: bool,
}

impl HandlerState {
    /// The wave is within its bounds and short enough for the hardware; a
    /// pulsing mode has room to ramp; a constant mode leaves the wave at
    /// rest; only the cycling constant mode counts a dwell, only inside
    /// one, and never past its length.
    pub open spec fn wf(self) -> bool {
        &&& self.wave.wf()
        &&& self.wave.max <= u16::MAX
        &&& self.mode.spec_is_pulsing() ==> self.wave.max > 0
        &&& !self.mode.spec_is_pulsing() ==> self.wave == Wave::start(self.wave.max)
        &&& self.ticks <= DWELL_TICKS
        &&& self.mode != Mode::ConstantCycling ==> !self.dwelling
        &&& !self.dwelling ==> self.ticks == 0
    }

    /// The state on entry: the wave at the minimum and climbing, whatever an
    /// earlier handler left behind.
    pub open spec fn entered(mode: Mode, max: nat) -> HandlerState {
        HandlerState { mode, wave: Wave::start(max), ticks: 0, dwelling: false }
    }

    /// The action on entry: the pulsing modes put all channels to the
    /// minimum, the constant modes touch nothing yet.
    pub open spec fn entry_action(mode: Mode) -> Action {
        if mode.spec_is_pulsing() {
            Action::drive(Levels::spec_dark(), 0)
        } else {
            Action::idle()
        }
    }

    /// The action of a handler that has seen another mode: it exits, and a
    /// pulsing mode puts all channels to the minimum first.
    pub open spec fn exit_action(self) -> Action {
        Action {
            advance_color: false,
            levels: if self.mode.spec_is_pulsing() {
                Some(Levels::spec_dark())
            } else {
                None
            },
            delay_ms: 0,
            exit: true,
        }
    }

    /// One poll of the single-colour pulse: tick the wave and show it on
    /// the channels of the polled colour.
    pub open spec fn pulse_color(self, mode_now: Mode, color_now: nat) -> (HandlerState, Action) {
        if mode_now != self.mode {
            (self, self.exit_action())
        } else {
            let wave = self.wave.tick();
            (
                HandlerState { wave, ..self },
                Action::drive(Levels::spec_masked(color_now, wave.duty as u16), PULSE_TICK_MS),
            )
        }
    }

    /// One poll of the cycling pulse: as the single-colour pulse, and the
    /// colour moves on whenever the wave is back at the minimum.
    pub open spec fn pulse_colors(self, mode_now: Mode, color_now: nat) -> (HandlerState, Action) {
        if mode_now != self.mode {
            (self, self.exit_action())
        } else {
            let wave = self.wave.tick();
            (
                HandlerState { wave, ..self },
                Action {
                    advance_color: wave.duty == 0,
                    levels: Some(Levels::spec_masked(color_now, wave.duty as u16)),
                    delay_ms: PULSE_TICK_MS,
                    exit: false,
                },
            )
        }
    }

    /// One poll of the single constant colour: the channels of the polled
    /// colour at the maximum.
    pub open spec fn const_color(self, mode_now: Mode, color_now: nat) -> (HandlerState, Action) {
        if mode_now != self.mode {
            (self, self.exit_action())
        } else {
            (self, Action::drive(Levels::spec_masked(color_now, self.wave.max as u16), 0))
        }
    }

    /// One poll of the cycling constant colour. A dwell that has run its
    /// full length ends, and only then does the colour move on. Before that,
    /// another mode makes the handler exit at once, with the colour as it
    /// is. While its own mode lasts, the handler starts a dwell if it is
    /// in none, and inside one shows the polled colour at the maximum.
    pub open spec fn const_colors(self, mode_now: Mode, color_now: nat) -> (HandlerState, Action) {
        if self.dwelling && self.ticks == DWELL_TICKS {
            (
                HandlerState { ticks: 0, dwelling: false, ..self },
                Action { advance_color: true, levels: None, delay_ms: 0, exit: false },
            )
        } else if mode_now != self.mode {
            (self, self.exit_action())
        } else if !self.dwelling {
            (HandlerState { dwelling: true, ..self }, Action::idle())
        } else {
            (
                HandlerState { ticks: self.ticks + 1, ..self },
                Action::drive(Levels::spec_masked(color_now, self.wave.max as u16), 0),
            )
        }
    }

    /// One poll, in whichever mode the handler was entered for.
    pub open spec fn step(self, mode_now: Mode, color_now: nat) -> (HandlerState, Action) {
        match self.mode {
            Mode::PulseSingle => self.pulse_color(mode_now, color_now),
            Mode::PulseCycling => self.pulse_colors(mode_now, color_now),
            Mode::ConstantSingle => self.const_color(mode_now, color_now),
            Mode::ConstantCycling => self.const_colors(mode_now, color_now),
        }
    }

    /// The state after a sequence of polls, each a mode and a colour value.
    pub open spec fn run(self, polls: Seq<(Mode, nat)>) -> HandlerState
        decreases polls.len(),
    {
        if polls.len() == 0 {
            self
        } else {
            self.run(polls.drop_last()).step(polls.last().0, polls.last().1).0
        }
    }

    /// The level that the handler gives an enabled channel after a poll: the
    /// duty of the wave in a pulsing mode, the maximum in a constant one.
    pub open spec fn active_level(self) -> nat {
        if self.mode.spec_is_pulsing() {
            self.wave.duty
        } else {
            self.wave.max
        }
    }
}

impl HandlerState {
    /// A poll keeps the state well formed and leaves the handler's mode and
    /// maximum as they were; the duty stays between 0 and the maximum.
    pub proof fn lemma_step_keeps(self, mode_now: Mode, color_now: nat)
        requires
            self.wf(),
        ensures
            self.step(mode_now, color_now).0.wf(),
            self.step(mode_now, color_now).0.mode == self.mode,
            self.step(mode_now, color_now).0.wave.max == self.wave.max,
            self.step(mode_now, color_now).0.wave.duty <= self.wave.max,
    {
    }

    /// A pulsing handler that still sees its own mode ticks its wave: the
    /// duty moves by exactly one. Every other poll leaves the wave alone.
    pub proof fn lemma_step_duty(self, mode_now: Mode, color_now: nat)
        requires
            self.wf(),
        ensures
            self.mode.spec_is_pulsing() && mode_now == self.mode ==> {
                let next = self.step(mode_now, color_now).0;
                &&& next.wave == self.wave.tick()
                &&& self.wave.to_add ==> next.wave.duty == self.wave.duty + 1
                &&& !self.wave.to_add ==> next.wave.duty + 1 == self.wave.duty
            },
            !(self.mode.spec_is_pulsing() && mode_now == self.mode) ==> self.step(
                mode_now,
                color_now,
            ).0.wave == self.wave,
    {
    }

    /// Whatever is polled, and however often, the state stays well formed
    /// and the duty stays between 0 and the maximum.
    pub proof fn lemma_run_bounded(self, polls: Seq<(Mode, nat)>)
        requires
            self.wf(),
        ensures
            self.run(polls).wf(),
            self.run(polls).mode == self.mode,
            self.run(polls).wave.max == self.wave.max,
            self.run(polls).wave.duty <= self.wave.max,
        decreases polls.len(),
    {
        if polls.len() > 0 {
            self.lemma_run_bounded(polls.drop_last());
            self.run(polls.drop_last()).lemma_step_keeps(polls.last().0, polls.last().1);
        }
    }

    /// While the shared mode stays the handler's own, a pulsing handler's
    /// wave after `n` polls is its wave after `n` ticks, whatever colours
    /// are polled.
    pub proof fn lemma_run_ticks(self, polls: Seq<(Mode, nat)>)
        requires
            self.wf(),
            self.mode.spec_is_pulsing(),
            forall|i: int| 0 <= i < polls.len() ==> (#[trigger] polls[i]).0 == self.mode,
        ensures
            self.run(polls).wave == self.wave.after(polls.len()),
        decreases polls.len(),
    {
        if polls.len() > 0 {
            let before = polls.drop_last();
            assert forall|i: int| 0 <= i < before.len() implies (#[trigger] before[i]).0
                == self.mode by {
                assert(before[i] == polls[i]);
            }
            self.lemma_run_ticks(before);
            self.lemma_run_bounded(before);
            self.run(before).lemma_step_duty(polls.last().0, polls.last().1);
        }
    }

    /// Counted from entry, the duty of a pulsing handler is the triangle
    /// wave for as long as the shared mode stays the handler's own.
    pub proof fn lemma_pulse_is_triangle(mode: Mode, max: nat, polls: Seq<(Mode, nat)>)
        requires
            mode.spec_is_pulsing(),
            0 < max <= u16::MAX,
            forall|i: int| 0 <= i < polls.len() ==> (#[trigger] polls[i]).0 == mode,
        ensures
            HandlerState::entered(mode, max).run(polls).wave.duty == triangle(max, polls.len()),
            HandlerState::entered(mode, max).run(polls).wave.to_add == climbing(max, polls.len()),
    {
        HandlerState::entered(mode, max).lemma_run_ticks(polls);
        lemma_wave_is_triangle(max, polls.len());
    }

    /// Whenever a poll writes levels without exiting, each channel gets the
    /// active level if its bit is set in the colour polled right then, and
    /// the minimum if not. The colour of an earlier poll plays no part.
    pub proof fn lemma_levels_follow_mask(self, mode_now: Mode, color_now: nat, ch: Channel)
        requires
            self.wf(),
        ensures
            ({
                let (next, action) = self.step(mode_now, color_now);
                action.levels is Some && !action.exit ==> action.levels.unwrap().spec_get(ch) == (
                if channel_on(color_now, ch) {
                    next.active_level()
                } else {
                    0
                })
            }),
            mode_now == self.mode && (self.mode != Mode::ConstantCycling || (self.dwelling
                && self.ticks < DWELL_TICKS)) ==> self.step(mode_now, color_now).1.levels is Some,
    {
    }

    /// A handler that polls another mode than its own exits at that poll
    /// and keeps its state; a pulsing one puts all three channels to the
    /// minimum with that same action, and no handler moves the colour on
    /// while leaving. The one poll that does not look at the mode is the
    /// one that ends a full dwell of the cycling constant handler: it moves
    /// the colour on, and the poll after it exits.
    pub proof fn lemma_mode_change_exits(self, mode_now: Mode, color_now: nat, color_then: nat)
        requires
            self.wf(),
            mode_now != self.mode,
        ensures
            self.ticks < DWELL_TICKS ==> {
                &&& self.step(mode_now, color_now).1 == self.exit_action()
                &&& self.step(mode_now, color_now).1.exit
                &&& !self.step(mode_now, color_now).1.advance_color
                &&& self.step(mode_now, color_now).1.spec_color_after(color_now) == color_now
                &&& self.step(mode_now, color_now).0 == self
            },
            self.mode != Mode::ConstantCycling ==> self.ticks < DWELL_TICKS,
            self.mode.spec_is_pulsing() ==> self.step(mode_now, color_now).1.levels == Some(
                Levels::spec_dark(),
            ),
            !self.mode.spec_is_pulsing() ==> self.step(mode_now, color_now).1.levels is None,
            self.ticks == DWELL_TICKS ==> {
                let (next, action) = self.step(mode_now, color_now);
                &&& self.mode == Mode::ConstantCycling
                &&& self.dwelling
                &&& action == Action {
                    advance_color: true,
                    levels: None,
                    delay_ms: 0,
                    exit: false,
                }
                &&& next.step(mode_now, color_then).1 == self.exit_action()
            },
    {
    }

    /// A handler exits only when it polls another mode than its own, and an
    /// exiting handler never moves the colour on.
    pub proof fn lemma_exit_only_on_mode_change(self, mode_now: Mode, color_now: nat)
        requires
            self.wf(),
        ensures
            self.step(mode_now, color_now).1.exit <==> mode_now != self.mode && self.ticks
                < DWELL_TICKS,
            self.step(mode_now, color_now).1.exit ==> !self.step(mode_now, color_now).1.advance_color,
    {
    }

    /// Counted from entry, and for as long as the shared mode stays its
    /// own, the cycling constant handler spends one poll on starting the
    /// dwell and then counts every poll: after `n` polls it is inside the
    /// dwell with a count of `n - 1`. So no poll before the one that finds
    /// the count at `DWELL_TICKS` moves the colour on.
    pub proof fn lemma_dwell_counts(max: nat, polls: Seq<(Mode, nat)>)
        requires
            max <= u16::MAX,
            1 <= polls.len() <= DWELL_TICKS + 1,
            forall|i: int| 0 <= i < polls.len() ==> (#[trigger] polls[i]).0 == Mode::ConstantCycling,
        ensures
            HandlerState::entered(Mode::ConstantCycling, max).run(polls) == (HandlerState {
                ticks: (polls.len() - 1) as nat,
                dwelling: true,
                ..HandlerState::entered(Mode::ConstantCycling, max)
            }),
        decreases polls.len(),
    {
        let start = HandlerState::entered(Mode::ConstantCycling, max);
        let before = polls.drop_last();
        if polls.len() > 1 {
            assert forall|i: int| 0 <= i < before.len() implies (#[trigger] before[i]).0
                == Mode::ConstantCycling by {
                assert(before[i] == polls[i]);
            }
            HandlerState::lemma_dwell_counts(max, before);
        } else {
            assert(start.run(before) == start);
        }
        assert(polls.last().0 == Mode::ConstantCycling);
    }

    /// When a handler moves the colour on by itself: the single-colour modes
    /// never do; the cycling pulse does whenever its wave is back at the
    /// minimum; the cycling constant mode does when a dwell has run its full
    /// length, and at no other poll.
    pub proof fn lemma_advance(self, mode_now: Mode, color_now: nat)
        requires
            self.wf(),
        ensures
            ({
                let (next, action) = self.step(mode_now, color_now);
                &&& self.mode == Mode::PulseSingle || self.mode == Mode::ConstantSingle
                    ==> !action.advance_color
                &&& self.mode == Mode::PulseCycling ==> (action.advance_color <==> mode_now
                    == self.mode && !self.wave.to_add && next.wave.duty == 0)
                &&& self.mode == Mode::ConstantCycling ==> (action.advance_color <==> self.dwelling
                    && self.ticks == DWELL_TICKS)
                &&& action.advance_color ==> action.spec_color_after(color_now) == auto_next_color(
                    color_now,
                ) && action.spec_color_after(color_now) != 0
                &&& !action.advance_color ==> action.spec_color_after(color_now) == color_now
                &&& self.mode == Mode::PulseCycling && action.advance_color ==> action.levels
                    == Some(Levels::spec_dark())
            }),
    {
    }
}

/// A mode handler: the owner of the three channels for as long as the shared
/// mode stays the one it was entered for.
#[derive(Clone, Copy, Debug)]
pub struct Handler {
    mode: Mode,
    wave: DutyGenerator,
    ticks: u32,
    dwelling: bool,
}

impl View for Handler {
    type V = HandlerState;

    closed spec fn view(&self) -> HandlerState {
        HandlerState {
            mode: self.mode,
            wave: self.wave@,
            ticks: self.ticks as nat,
            dwelling: self.dwelling,
        }
    }
}

impl Handler {
    #[verifier::type_invariant]
    spec fn valid(self) -> bool {
        self@.wf()
    }

    /// The mode that the handler was entered for.
    pub fn mode(self) -> (r: Mode)
        ensures
            r == self@.mode,
    {
        self.mode
    }

    /// The current duty of the wave.
    pub fn duty(self) -> (r: u16)
        ensures
            r == self@.wave.duty,
            r <= self@.wave.max,
    {
        self.wave.duty()
    }

    /// The maximum duty that the handler was entered with.
    pub fn max(self) -> (r: u16)
        ensures
            r == self@.wave.max,
    {
        self.wave.max()
    }

    /// Whether the next tick of the wave raises the duty.
    pub fn to_add(self) -> (r: bool)
        ensures
            r == self@.wave.to_add,
    {
        self.wave.to_add()
    }

    /// The polls spent on the current colour in the cycling constant mode.
    pub fn ticks(self) -> (r: u32)
        ensures
            r == self@.ticks,
            r <= DWELL_TICKS,
    {
        proof {
            use_type_invariant(self);
        }
        self.ticks
    }

    /// Enters the handler of `mode` with the maximum duty that the hardware
    /// reports. The duty starts at 0 and climbs. A pulsing mode needs a
    /// positive maximum.
    pub fn enter(mode: Mode, max: u16) -> (r: (Handler, Action))
        requires
            mode.spec_is_pulsing() ==> max > 0,
        ensures
            r.0@ == HandlerState::entered(mode, max as nat),
            r.0@.wave.duty == 0 && r.0@.wave.to_add,
            r.0@.wf(),
            r.1 == HandlerState::entry_action(mode),
    {
        let handler = Handler { mode, wave: DutyGenerator::new(max), ticks: 0, dwelling: false };
        let action = if mode.is_pulsing() {
            Action { advance_color: false, levels: Some(Levels::dark()), delay_ms: 0, exit: false }
        } else {
            Action { advance_color: false, levels: None, delay_ms: 0, exit: false }
        };
        (handler, action)
    }

    /// One poll: given the shared mode and colour as just read, the next
    /// state and what the hardware is to do.
    pub fn step(self, mode_now: Mode, color_now: ColorMask) -> (r: (Handler, Action))
        ensures
            r.0@ == self@.step(mode_now, color_now@).0,
            r.1 == self@.step(mode_now, color_now@).1,
            self@.wf(),
            r.0@.wf(),
            r.0@.mode == self@.mode,
            r.0@.wave.max == self@.wave.max,
            r.0@.wave.duty <= self@.wave.max,
            r.1.exit ==> mode_now != self@.mode && !r.1.advance_color,
    {
        proof {
            use_type_invariant(self);
        }
        match self.mode {
            Mode::PulseSingle => self.pulse_color(mode_now, color_now),
            Mode::PulseCycling => self.pulse_colors(mode_now, color_now),
            Mode::ConstantSingle => self.const_color(mode_now, color_now),
            Mode::ConstantCycling => self.const_colors(mode_now, color_now),
        }
    }

    fn leave(self) -> (r: (Handler, Action))
        ensures
            r.0 == self,
            r.1 == self@.exit_action(),
    {
        let levels = if self.mode.is_pulsing() {
            Some(Levels::dark())
        } else {
            None
        };
        (self, Action { advance_color: false, levels, delay_ms: 0, exit: true })
    }

    fn pulse_color(self, mode_now: Mode, color_now: ColorMask) -> (r: (Handler, Action))
        requires
            self@.mode == Mode::PulseSingle,
        ensures
            r.0@ == self@.pulse_color(mode_now, color_now@).0,
            r.1 == self@.pulse_color(mode_now, color_now@).1,
            r.0@.wf(),
    {
        proof {
            use_type_invariant(self);
        }
        if mode_now != self.mode {
            return self.leave();
        }
        let wave = self.wave.tick();
        let levels = Levels::masked(color_now, wave.duty());
        (
            Handler { wave, ..self },
            Action { advance_color: false, levels: Some(levels), delay_ms: PULSE_TICK_MS, exit: false },
        )
    }

    fn pulse_colors(self, mode_now: Mode, color_now: ColorMask) -> (r: (Handler, Action))
        requires
            self@.mode == Mode::PulseCycling,
        ensures
            r.0@ == self@.pulse_colors(mode_now, color_now@).0,
            r.1 == self@.pulse_colors(mode_now, color_now@).1,
            r.0@.wf(),
    {
        proof {
            use_type_invariant(self);
        }
        if mode_now != self.mode {
            return self.leave();
        }
        let wave = self.wave.tick();
        let duty: u16 = wave.duty();
        let levels = Levels::masked(color_now, duty);
        (
            Handler { wave, ..self },
            Action {
                advance_color: duty == 0,
                levels: Some(levels),
                delay_ms: PULSE_TICK_MS,
                exit: false,
            },
        )
    }

    fn const_color(self, mode_now: Mode, color_now: ColorMask) -> (r: (Handler, Action))
        requires
            self@.mode == Mode::ConstantSingle,
        ensures
            r.0@ == self@.const_color(mode_now, color_now@).0,
            r.1 == self@.const_color(mode_now, color_now@).1,
            r.0@.wf(),
    {
        proof {
            use_type_invariant(self);
        }
        if mode_now != self.mode {
            return self.leave();
        }
        let levels = Levels::masked(color_now, self.wave.max());
        (self, Action { advance_color: false, levels: Some(levels), delay_ms: 0, exit: false })
    }

    fn const_colors(self, mode_now: Mode, color_now: ColorMask) -> (r: (Handler, Action))
        requires
            self@.mode == Mode::ConstantCycling,
        ensures
            r.0@ == self@.const_colors(mode_now, color_now@).0,
            r.1 == self@.const_colors(mode_now, color_now@).1,
            r.0@.wf(),
    {
        proof {
            use_type_invariant(self);
        }
        if self.dwelling && self.ticks >= DWELL_TICKS {
            return (
                Handler { ticks: 0, dwelling: false, ..self },
                Action { advance_color: true, levels: None, delay_ms: 0, exit: false },
            );
        }
        if mode_now != self.mode {
            return self.leave();
        }
        if !self.dwelling {
            return (
                Handler { dwelling: true, ..self },
                Action { advance_color: false, levels: None, delay_ms: 0, exit: false },
            );
        }
        let levels = Levels::masked(color_now, self.wave.max());
        (
            Handler { ticks: self.ticks + 1, ..self },
            Action { advance_color: false, levels: Some(levels), delay_ms: 0, exit: false },
        )
    }
}

} // verus!
