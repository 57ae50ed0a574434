//! The lighting mode and its cyclic order.

use vstd::prelude::*;

verus! {

/// The index of the mode selected at power-on, for a shared cell that has
/// to be filled before any code runs.
pub const INITIAL_MODE_INDEX: u8 = 0;

/// The four lighting modes, in the order in which the mode button steps
/// through them.
#[derive(Clone, Copy, Debug, PartialEq, Eq, Structural)]
pub enum Mode {
    /// Hold each colour at full level for a dwell, then move to the next one.
    ConstantCycling,
    /// Hold the selected colour at full level.
    ConstantSingle,
    /// Pulse, and move to the next colour after every pulse.
    PulseCycling,
    /// Pulse the selected colour.
    PulseSingle,
}

impl Mode {
    /// The position of the mode in the cycle, from 0 to 3.
    pub open spec fn spec_index(self) -> nat {
        match self {
            Mode::ConstantCycling => 0,
            Mode::ConstantSingle => 1,
            Mode::PulseCycling => 2,
            Mode::PulseSingle => 3,
        }
    }

    /// The mode at position `i mod 4` of the cycle.
    pub open spec fn at(i: nat) -> Mode {
        if i % 4 == 1 {
            Mode::ConstantSingle
        } else if i % 4 == 2 {
            Mode::PulseCycling
        } else if i % 4 == 3 {
            Mode::PulseSingle
        } else {
            Mode::ConstantCycling
        }
    }

    /// The mode that one button press leads to.
    pub open spec fn spec_next(self) -> Mode {
        Mode::at(self.spec_index() + 1)
    }

    /// The mode reached after `n` button presses.
    pub open spec fn pressed(self, n: nat) -> Mode
        decreases n,
    {
        if n == 0 {
            self
        } else {
            self.pressed((n - 1) as nat).spec_next()
        }
    }

    /// Whether the mode ramps the duty up and down.
    pub open spec fn spec_is_pulsing(self) -> bool {
        self == Mode::PulseCycling || self == Mode::PulseSingle
    }

    /// The mode selected at power-on.
    pub fn initial() -> (r: Mode)
        ensures
            r == Mode::ConstantCycling,
            r.spec_index() == INITIAL_MODE_INDEX,
    {
        Mode::ConstantCycling
    }

    /// The position of the mode in the cycle.
    pub fn index(self) -> (r: u8)
        ensures
            r == self.spec_index(),
            r < 4,
    {
        match self {
            Mode::ConstantCycling => 0,
            Mode::ConstantSingle => 1,
            Mode::PulseCycling => 2,
            Mode::PulseSingle => 3,
        }
    }

    /// The mode with the given position, if there is one.
    pub fn from_index(i: u8) -> (r: Option<Mode>)
        ensures
            i < 4 ==> r == Some(Mode::at(i as nat)) && r.unwrap().spec_index() == i,
            i >= 4 ==> r is None,
    {
        if i == 0 {
            Some(Mode::ConstantCycling)
        } else if i == 1 {
            Some(Mode::ConstantSingle)
        } else if i == 2 {
            Some(Mode::PulseCycling)
        } else if i == 3 {
            Some(Mode::PulseSingle)
        } else {
            None
        }
    }

    /// The mode that the control loop runs for a raw value of the shared
    /// cell: 1, 2 and 3 select their mode, every other value the first one.
    pub fn dispatch(raw: u8) -> (r: Mode)
        ensures
            raw == 1 ==> r == Mode::ConstantSingle,
            raw == 2 ==> r == Mode::PulseCycling,
            raw == 3 ==> r == Mode::PulseSingle,
            raw == 0 || raw > 3 ==> r == Mode::ConstantCycling,
            raw < 4 ==> r == Mode::at(raw as nat) && r.spec_index() == raw,
    {
        if raw == 3 {
            Mode::PulseSingle
        } else if raw == 2 {
            Mode::PulseCycling
        } else if raw == 1 {
            Mode::ConstantSingle
        } else {
            Mode::ConstantCycling
        }
    }

    /// The mode after one press of the mode button: the next one in the
    /// cycle, and the first one after the last.
    #[verifier::when_used_as_spec(spec_next)]
    pub fn next(self) -> (r: Mode)
        ensures
            r == self.spec_next(),
            r.spec_index() == (self.spec_index() + 1) % 4,
    {
        match self {
            Mode::ConstantCycling => Mode::ConstantSingle,
            Mode::ConstantSingle => Mode::PulseCycling,
            Mode::PulseCycling => Mode::PulseSingle,
            Mode::PulseSingle => Mode::ConstantCycling,
        }
    }

    /// Whether the mode ramps the duty up and down.
    #[verifier::when_used_as_spec(spec_is_pulsing)]
    pub fn is_pulsing(self) -> (r: bool)
        ensures
            r == self.spec_is_pulsing(),
    {
        match self {
            Mode::PulseCycling => true,
            Mode::PulseSingle => true,
            _ => false,
        }
    }

    /// After `n` presses the position has moved forward by `n`, around the
    /// cycle of four.
    pub proof fn lemma_pressed_index(self, n: nat)
        ensures
            self.pressed(n).spec_index() == (self.spec_index() + n) % 4,
            self.pressed(n) == Mode::at(self.spec_index() + n),
        decreases n,
    {
        if n > 0 {
            self.lemma_pressed_index((n - 1) as nat);
        }
    }

    /// Four presses lead back to the mode they started from.
    pub proof fn lemma_four_presses_return(self)
        ensures
            self.pressed(4) == self,
            self.spec_next().spec_next().spec_next().spec_next() == self,
    {
        self.lemma_pressed_index(4);
    }
}

} // verus!
