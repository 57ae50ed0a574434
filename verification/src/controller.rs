//! The control loop: it enters the handler of the mode it polls, lets that
//! handler run until it exits, and enters the next one.

use vstd::prelude::*;
use crate::color::ColorMask;
use crate::handler::{Action, Handler, HandlerState};
use crate::levels::Levels;
use crate::mode::Mode;

verus! {

/// One turn of the control loop on its state: the handler that owns the
/// channels, or none between two handlers. With no handler the loop enters
/// the one of the polled mode, with `max` as its maximum duty. Otherwise the
/// handler takes the poll, and is dropped if it exits.
pub open spec fn control_step(
    state: Option<HandlerState>,
    mode_now: Mode,
    color_now: nat,
    max: nat,
) -> (Option<HandlerState>, Action) {
    match state {
        None => (
            Some(HandlerState::entered(mode_now, max)),
            HandlerState::entry_action(mode_now),
        ),
        Some(handler) => {
            let (next, action) = handler.step(mode_now, color_now);
            (
                if action.exit {
                    None
                } else {
                    Some(next)
                },
                action,
            )
        },
    }
}

/// A pulsing handler that polls another mode hands back an action that puts
/// all three channels to the minimum, and only the turn after that enters
/// the handler of the mode polled then, with its duty at 0 and climbing.
pub proof fn lemma_dark_before_redispatch(
    handler: HandlerState,
    mode_now: Mode,
    color_now: nat,
    mode_then: Mode,
    color_then: nat,
    max: nat,
)
    requires
        handler.wf(),
        handler.mode.spec_is_pulsing(),
        mode_now != handler.mode,
    ensures
        ({
            let (between, first) = control_step(Some(handler), mode_now, color_now, max);
            let (after, second) = control_step(between, mode_then, color_then, max);
            &&& first.exit
            &&& first.levels == Some(Levels::spec_dark())
            &&& !first.advance_color
            &&& between is None
            &&& after == Some(HandlerState::entered(mode_then, max))
            &&& after.unwrap().wave.duty == 0
            &&& after.unwrap().wave.to_add
            &&& second == HandlerState::entry_action(mode_then)
        }),
{
}

/// The state of the control loop.
#[derive(Clone, Copy, Debug)]
pub struct Controller {
    current: Option<Handler>,
}

impl View for Controller {
    type V = Option<HandlerState>;

    closed spec fn view(&self) -> Option<HandlerState> {
        match self.current {
            None => None,
            Some(handler) => Some(handler@),
        }
    }
}

impl Controller {
    /// The control loop at power-on, before any handler is entered.
    pub fn new() -> (r: Controller)
        ensures
            r@ is None,
    {
        Controller { current: None }
    }

    /// The mode whose handler owns the channels, if one does.
    pub fn mode(self) -> (r: Option<Mode>)
        ensures
            r is Some <==> self@ is Some,
            r is Some ==> r.unwrap() == self@.unwrap().mode,
    {
        match self.current {
            None => None,
            Some(handler) => Some(handler.mode()),
        }
    }

    /// One turn of the control loop, given the shared mode and colour as
    /// just read and the maximum duty that the hardware reports. Entering a
    /// pulsing mode needs a positive maximum.
    pub fn poll(self, mode_now: Mode, color_now: ColorMask, max: u16) -> (r: (Controller, Action))
        requires
            self@ is None && mode_now.spec_is_pulsing() ==> max > 0,
        ensures
            r.0@ == control_step(self@, mode_now, color_now@, max as nat).0,
            r.1 == control_step(self@, mode_now, color_now@, max as nat).1,
            r.0@ is Some ==> r.0@.unwrap().wf(),
    {
        match self.current {
            None => {
                let (handler, action) = Handler::enter(mode_now, max);
                (Controller { current: Some(handler) }, action)
            },
            Some(handler) => {
                let (next, action) = handler.step(mode_now, color_now);
                if action.exit {
                    (Controller { current: None }, action)
                } else {
                    (Controller { current: Some(next) }, action)
                }
            },
        }
    }
}

} // verus!
