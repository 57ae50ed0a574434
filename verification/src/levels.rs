//! The channel driver: which level each of the three outputs gets.

use vstd::prelude::*;
use crate::color::{channel_on, Channel, ColorMask};

verus! {

/// The duty levels of the three channels.
#[derive(Clone, Copy, Debug, PartialEq, Eq, Structural)]
pub struct Levels {
    pub red: u16,
    pub green: u16,
    pub blue: u16,
}

impl Levels {
    /// The level of one channel.
    pub open spec fn spec_get(self, ch: Channel) -> u16 {
        match ch {
            Channel::Red => self.red,
            Channel::Green => self.green,
            Channel::Blue => self.blue,
        }
    }

    /// All channels at the minimum.
    pub open spec fn spec_dark() -> Levels {
        Levels { red: 0, green: 0, blue: 0 }
    }

    /// `active` on the channels that the mask value enables, the minimum on
    /// the others.
    pub open spec fn spec_masked(color: nat, active: u16) -> Levels {
        Levels {
            red: if channel_on(color, Channel::Red) { active } else { 0 },
            green: if channel_on(color, Channel::Green) { active } else { 0 },
            blue: if channel_on(color, Channel::Blue) { active } else { 0 },
        }
    }

    /// All channels at the minimum.
    pub fn dark() -> (r: Levels)
        ensures
            r == Levels::spec_dark(),
    {
        Levels { red: 0, green: 0, blue: 0 }
    }

    /// The levels for one tick: every channel whose bit is set in `color`
    /// gets `active`, every other channel the minimum. Nothing of an earlier
    /// tick enters into it.
    pub fn masked(color: ColorMask, active: u16) -> (r: Levels)
        ensures
            r == Levels::spec_masked(color@, active),
            forall|ch: Channel|
                #[trigger] r.spec_get(ch) == (if channel_on(color@, ch) { active } else { 0 }),
    {
        Levels {
            red: if color.enables(Channel::Red) { active } else { 0 },
            green: if color.enables(Channel::Green) { active } else { 0 },
            blue: if color.enables(Channel::Blue) { active } else { 0 },
        }
    }

    /// The level of one channel.
    pub fn get(self, ch: Channel) -> (r: u16)
        ensures
            r == self.spec_get(ch),
    {
        match ch {
            Channel::Red => self.red,
            Channel::Green => self.green,
            Channel::Blue => self.blue,
        }
    }

    /// A channel is driven to the active level exactly where its bit is set,
    /// and to the minimum otherwise.
    pub proof fn lemma_masked_channel(color: nat, active: u16, ch: Channel)
        ensures
            channel_on(color, ch) ==> Levels::spec_masked(color, active).spec_get(ch) == active,
            !channel_on(color, ch) ==> Levels::spec_masked(color, active).spec_get(ch) == 0,
            active > 0 ==> (Levels::spec_masked(color, active).spec_get(ch) == active
                <==> channel_on(color, ch)),
    {
    }
}

} // verus!
