//! The event loop's decisions.
//!
//! The loop itself — drawing, polling, restoring the terminal — belongs to
//! the unverified front end; what it decides on each iteration is a pure
//! function of the polled event, verified here.

use vstd::prelude::*;

verus! {

/// The designated quit key.
pub const QUIT_KEY: char = 'q';

/// The bound, in milliseconds, on one input poll, so the redraw cadence
/// never stalls on a quiet keyboard.
pub const POLL_TIMEOUT_MILLIS: u64 = 10;

/// A discrete input event delivered by the input collaborator.
#[derive(Clone, Copy, Debug, PartialEq, Eq, Structural)]
pub enum InputEvent {
    /// A character key was pressed.
    Key(char),
    /// Any other event (other keys, resize, focus changes).
    Other,
}

/// The loop's reaction to one iteration's polled input.
#[derive(Clone, Copy, Debug, PartialEq, Eq, Structural)]
pub enum LoopAction {
    /// Redraw and poll again.
    Continue,
    /// Leave the loop and restore the terminal.
    Quit,
}

/// Decides one iteration of the event loop: quit exactly when the
/// designated quit key was pressed; every other event, and a poll that
/// timed out with no event, continues the loop.
pub fn decide(polled: &Option<InputEvent>) -> (a: LoopAction)
    ensures
        a is Quit <==> *polled == Some(InputEvent::Key(QUIT_KEY)),
        a is Continue <==> *polled != Some(InputEvent::Key(QUIT_KEY)),
{
    match polled {
        Some(InputEvent::Key(c)) => {
            if *c == 'q' {
                LoopAction::Quit
            } else {
                LoopAction::Continue
            }
        },
        _ => LoopAction::Continue,
    }
}

} // verus!
