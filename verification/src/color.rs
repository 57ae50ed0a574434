//! The colour mask: three bits, one per channel.

use vstd::prelude::*;

verus! {

/// The value of the mask selected at power-on, for a shared cell that has to
/// be filled before any code runs.
pub const INITIAL_COLOR_BITS: u8 = 1;

/// One of the three output channels.
#[derive(Clone, Copy, Debug, PartialEq, Eq, Structural)]
pub enum Channel {
    Red,
    Green,
    Blue,
}

impl Channel {
    /// The number of the channel's bit in a colour mask.
    pub open spec fn spec_index(self) -> nat {
        match self {
            Channel::Red => 0,
            Channel::Green => 1,
            Channel::Blue => 2,
        }
    }

    /// The value of the channel's bit in a colour mask.
    pub open spec fn weight(self) -> nat {
        match self {
            Channel::Red => 1,
            Channel::Green => 2,
            Channel::Blue => 4,
        }
    }

    /// The number of the channel's bit in a colour mask.
    pub fn index(self) -> (r: u8)
        ensures
            r == self.spec_index(),
            r < 3,
    {
        match self {
            Channel::Red => 0,
            Channel::Green => 1,
            Channel::Blue => 2,
        }
    }

    /// The channel whose bit has the given number, if there is one.
    pub fn from_index(i: u8) -> (r: Option<Channel>)
        ensures
            i < 3 ==> r is Some && r.unwrap().spec_index() == i,
            i >= 3 ==> r is None,
    {
        if i == 0 {
            Some(Channel::Red)
        } else if i == 1 {
            Some(Channel::Green)
        } else if i == 2 {
            Some(Channel::Blue)
        } else {
            None
        }
    }
}

/// Whether the bit of channel `ch` is set in the mask value `c`.
pub open spec fn channel_on(c: nat, ch: Channel) -> bool {
    (c / ch.weight()) % 2 == 1
}

/// The mask value that a press of the colour button leads to.
pub open spec fn next_color(c: nat) -> nat {
    (c + 1) % 8
}

/// The mask value that a handler moves to by itself: the next one, but never
/// the one with all channels off.
pub open spec fn auto_next_color(c: nat) -> nat {
    if next_color(c) == 0 {
        1
    } else {
        next_color(c)
    }
}

/// The mask value reached from `c` after `n` presses of the colour button.
pub open spec fn color_pressed(c: nat, n: nat) -> nat
    decreases n,
{
    if n == 0 {
        c
    } else {
        next_color(color_pressed(c, (n - 1) as nat))
    }
}

/// After `n` presses the mask value has moved forward by `n`, around the
/// cycle of eight.
pub proof fn lemma_color_pressed(c: nat, n: nat)
    requires
        c < 8,
    ensures
        color_pressed(c, n) == (c + n) % 8,
    decreases n,
{
    if n > 0 {
        lemma_color_pressed(c, (n - 1) as nat);
    }
}

/// Eight presses lead back to the mask value they started from.
pub proof fn lemma_eight_presses_return(c: nat)
    requires
        c < 8,
    ensures
        color_pressed(c, 8) == c,
{
    lemma_color_pressed(c, 8);
}

/// A handler never moves to the mask with all channels off by itself, and
/// differs from a button press only where the press would lead there.
pub proof fn lemma_auto_next_skips_dark(c: nat)
    ensures
        1 <= auto_next_color(c) < 8,
        next_color(c) != 0 ==> auto_next_color(c) == next_color(c),
        next_color(c) == 0 ==> auto_next_color(c) == 1,
        c < 8 ==> (next_color(c) == 0 <==> c == 7),
{
}

/// A selection of channels: bit 0 enables red, bit 1 green, bit 2 blue.
#[derive(Clone, Copy, Debug, PartialEq, Eq, Structural)]
pub struct ColorMask {
    bits: u8,
}

impl View for ColorMask {
    type V = nat;

    closed spec fn view(&self) -> nat {
        self.bits as nat
    }
}

impl ColorMask {
    #[verifier::type_invariant]
    spec fn three_bits(self) -> bool {
        self.bits < 8
    }

    /// Two masks with the same value are the same mask.
    pub proof fn lemma_same_value(self, other: ColorMask)
        requires
            self@ == other@,
        ensures
            self == other,
    {
    }

    /// The mask selected at power-on: red alone.
    pub fn initial() -> (r: ColorMask)
        ensures
            r@ == INITIAL_COLOR_BITS,
            r@ == 1,
    {
        ColorMask { bits: INITIAL_COLOR_BITS }
    }

    /// The mask with the given value, if the value has no bit above the
    /// third.
    pub fn from_bits(bits: u8) -> (r: Option<ColorMask>)
        ensures
            bits < 8 ==> r is Some && r.unwrap()@ == bits,
            bits >= 8 ==> r is None,
    {
        if bits < 8 {
            Some(ColorMask { bits })
        } else {
            None
        }
    }

    /// The mask made of the three lowest bits of `bits`.
    pub fn from_bits_truncate(bits: u8) -> (r: ColorMask)
        ensures
            r@ == bits % 8,
    {
        assert(bits & 7 == bits % 8) by (bit_vector);
        ColorMask { bits: bits & 7 }
    }

    /// The value of the mask.
    pub fn bits(self) -> (r: u8)
        ensures
            r == self@,
            r < 8,
    {
        proof {
            use_type_invariant(self);
        }
        self.bits
    }

    /// Whether the mask enables the channel.
    pub fn enables(self, ch: Channel) -> (r: bool)
        ensures
            r == channel_on(self@, ch),
    {
        let b: u8 = self.bits;
        proof {
            use_type_invariant(self);
            assert(b < 8 ==> ((b & 1 == 1) <==> (b / 1) % 2 == 1)) by (bit_vector);
            assert(b < 8 ==> ((b & 2 == 2) <==> (b / 2) % 2 == 1)) by (bit_vector);
            assert(b < 8 ==> ((b & 4 == 4) <==> (b / 4) % 2 == 1)) by (bit_vector);
        }
        match ch {
            Channel::Red => b & 1 == 1,
            Channel::Green => b & 2 == 2,
            Channel::Blue => b & 4 == 4,
        }
    }

    /// The mask after one press of the colour button: the next value, and 0
    /// after 7.
    pub fn next(self) -> (r: ColorMask)
        ensures
            r@ == next_color(self@),
            r@ == (self@ + 1) % 8,
            self@ < 8,
    {
        proof {
            use_type_invariant(self);
        }
        ColorMask { bits: (self.bits + 1) % 8 }
    }

    /// The mask that a handler moves to by itself: the next value, and 1
    /// where that would be 0.
    pub fn auto_next(self) -> (r: ColorMask)
        ensures
            r@ == auto_next_color(self@),
            r@ == (if self@ == 7 { 1 } else { self@ + 1 }),
            1 <= r@ < 8,
            self@ < 8,
    {
        proof {
            use_type_invariant(self);
        }
        let stepped: u8 = (self.bits + 1) % 8;
        if stepped == 0 {
            ColorMask { bits: 1 }
        } else {
            ColorMask { bits: stepped }
        }
    }
}

} // verus!
