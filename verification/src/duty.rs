//! The duty generator: a triangle wave between 0 and a maximum, one step per
//! tick.

use vstd::prelude::*;

verus! {

/// The state of a triangle wave: the current duty, the bound it climbs to,
/// and the direction of the next step.
pub struct Wave {
    pub duty: nat,
    pub max: nat,
    /// `true` while the duty climbs.
    pub to_add: bool,
}

impl Wave {
    /// The duty lies within its bounds, and the direction points away from
    /// the bound that the duty stands on. With a maximum of 0 the wave can
    /// only rest at its start.
    pub open spec fn wf(self) -> bool {
        &&& self.duty <= self.max
        &&& self.to_add ==> self.duty < self.max || self.max == 0
        &&& !self.to_add ==> self.duty > 0
    }

    /// The wave as a handler finds it on entry: at the minimum, climbing.
    pub open spec fn start(max: nat) -> Wave {
        Wave { duty: 0, max, to_add: true }
    }

    /// One tick: a step of one in the current direction, which turns round
    /// when the step reaches a bound.
    pub open spec fn tick(self) -> Wave {
        if self.to_add {
            Wave { duty: self.duty + 1, max: self.max, to_add: self.duty + 1 != self.max }
        } else {
            Wave { duty: (self.duty - 1) as nat, max: self.max, to_add: self.duty - 1 == 0 }
        }
    }

    /// The wave after `n` ticks.
    pub open spec fn after(self, n: nat) -> Wave
        decreases n,
    {
        if n == 0 {
            self
        } else {
            self.after((n - 1) as nat).tick()
        }
    }

    /// A tick keeps the wave within its bounds and moves the duty by exactly
    /// one: up while climbing, down while falling. The direction turns round
    /// exactly at a bound.
    pub proof fn lemma_tick(self)
        requires
            self.wf(),
            self.max > 0,
        ensures
            self.tick().wf(),
            self.tick().max == self.max,
            self.to_add ==> self.tick().duty == self.duty + 1,
            !self.to_add ==> self.tick().duty + 1 == self.duty,
            self.tick().to_add != self.to_add <==> (self.tick().duty == 0 || self.tick().duty
                == self.max),
    {
    }

    /// However many ticks pass, the duty stays between 0 and the maximum.
    pub proof fn lemma_after_bounded(self, n: nat)
        requires
            self.wf(),
            self.max > 0,
        ensures
            self.after(n).wf(),
            self.after(n).max == self.max,
            self.after(n).duty <= self.max,
        decreases n,
    {
        if n > 0 {
            self.lemma_after_bounded((n - 1) as nat);
            self.after((n - 1) as nat).lemma_tick();
        }
    }

    /// Between any two consecutive ticks the duty changes by exactly one, and
    /// it leaves a bound in the direction of the other bound.
    pub proof fn lemma_after_steps_by_one(self, n: nat)
        requires
            self.wf(),
            self.max > 0,
        ensures
            self.after(n + 1).duty == self.after(n).duty + 1 || self.after(n + 1).duty + 1
                == self.after(n).duty,
            self.after(n).duty == 0 ==> self.after(n + 1).duty == 1,
            self.after(n).duty == self.max ==> self.after(n + 1).duty + 1 == self.max,
    {
        self.lemma_after_bounded(n);
        self.after(n).lemma_tick();
    }
}

/// The height of a triangle wave of the given maximum, `n` ticks after it
/// left the minimum: it climbs for `max` ticks and falls for `max` ticks.
pub open spec fn triangle(max: nat, n: nat) -> nat {
    let phase = n % (2 * max);
    if phase <= max {
        phase
    } else {
        (2 * max - phase) as nat
    }
}

/// Whether a triangle wave of the given maximum climbs at its next tick, `n`
/// ticks after it left the minimum.
pub open spec fn climbing(max: nat, n: nat) -> bool {
    n % (2 * max) < max
}

proof fn lemma_phase_step(period: nat, n: nat)
    requires
        period > 0,
    ensures
        (n + 1) % period == (if n % period + 1 == period { 0 } else { n % period + 1 }),
{
    let d = period as int;
    let q = n as int / d;
    let r = n as int % d;
    vstd::arithmetic::div_mod::lemma_fundamental_div_mod(n as int, d);
    vstd::arithmetic::div_mod::lemma_mod_pos_bound(n as int, d);
    if r + 1 == d {
        assert(n + 1 == (q + 1) * d + 0) by (nonlinear_arith)
            requires
                n == d * q + r,
                r + 1 == d,
        ;
        vstd::arithmetic::div_mod::lemma_fundamental_div_mod_converse(n as int + 1, d, q + 1, 0);
    } else {
        assert(n + 1 == q * d + (r + 1)) by (nonlinear_arith)
            requires
                n == d * q + r,
        ;
        vstd::arithmetic::div_mod::lemma_fundamental_div_mod_converse(n as int + 1, d, q, r + 1);
    }
}

/// The wave that starts at the minimum is the triangle wave: after `n` ticks
/// its duty is `triangle(max, n)`, and it climbs exactly during the first
/// half of each period of `2 * max` ticks.
pub proof fn lemma_wave_is_triangle(max: nat, n: nat)
    requires
        max > 0,
    ensures
        Wave::start(max).after(n).duty == triangle(max, n),
        Wave::start(max).after(n).to_add == climbing(max, n),
        Wave::start(max).after(n).max == max,
    decreases n,
{
    if n > 0 {
        let m = (n - 1) as nat;
        lemma_wave_is_triangle(max, m);
        lemma_phase_step(2 * max, m);
    }
}

/// A duty generator for one run of a mode handler.
#[derive(Clone, Copy, Debug, PartialEq, Eq, Structural)]
pub struct DutyGenerator {
    duty: u16,
    max: u16,
    to_add: bool,
}

impl View for DutyGenerator {
    type V = Wave;

    closed spec fn view(&self) -> Wave {
        Wave { duty: self.duty as nat, max: self.max as nat, to_add: self.to_add }
    }
}

impl DutyGenerator {
    #[verifier::type_invariant]
    spec fn valid(self) -> bool {
        self@.wf()
    }

    /// A generator at the minimum, about to climb to `max`.
    pub fn new(max: u16) -> (r: DutyGenerator)
        ensures
            r@ == Wave::start(max as nat),
            r@.wf(),
    {
        DutyGenerator { duty: 0, max, to_add: true }
    }

    /// One tick. The maximum must be positive: between 0 and 0 there is no
    /// step of one to take.
    pub fn tick(self) -> (r: DutyGenerator)
        requires
            self@.max > 0,
        ensures
            r@ == self@.tick(),
            r@.wf(),
            r@.max == self@.max,
            self@.to_add ==> r@.duty == self@.duty + 1,
            !self@.to_add ==> r@.duty + 1 == self@.duty,
    {
        proof {
            use_type_invariant(self);
        }
        if self.to_add {
            let duty: u16 = self.duty + 1;
            DutyGenerator { duty, max: self.max, to_add: duty != self.max }
        } else {
            let duty: u16 = self.duty - 1;
            DutyGenerator { duty, max: self.max, to_add: duty == 0 }
        }
    }

    /// The current duty.
    pub fn duty(self) -> (r: u16)
        ensures
            r == self@.duty,
            r <= self@.max,
            self@.wf(),
    {
        proof {
            use_type_invariant(self);
        }
        self.duty
    }

    /// The bound that the duty climbs to.
    pub fn max(self) -> (r: u16)
        ensures
            r == self@.max,
    {
        self.max
    }

    /// Whether the next tick raises the duty.
    pub fn to_add(self) -> (r: bool)
        ensures
            r == self@.to_add,
    {
        self.to_add
    }
}

} // verus!
