//! The seat: keyboard focus and the look of the pointer.
use vstd::prelude::*;
use crate::state::{Backend, CursorImageStatus, Keyboard, Seat, Waysight};

verus! {

/// A change of keyboard focus that has to be passed on to the keyboard.
#[derive(Clone, Copy, Debug, PartialEq, Eq, Structural)]
pub struct FocusUpdate {
    /// The surface that the keyboard is to focus on, by its id, under a
    /// fresh serial.
    pub target: u64,
}

/// The state after the focus moved, and the update for the keyboard if
/// there is one to make.
///
/// The keyboard follows a focus that moved to a surface. Without a
/// keyboard, or when the focus moved to nothing, the state stays as it is
/// and there is nothing to pass on.
pub open spec fn focus_step<B: Backend>(state: Waysight<B>, focused: Option<u64>) -> (
    Waysight<B>,
    Option<FocusUpdate>,
) {
    match (focused, state.seat.keyboard) {
        (Some(target), Some(keyboard)) => (
            Waysight {
                seat: Seat { keyboard: Some(Keyboard { focus: Some(target), ..keyboard }) },
                ..state
            },
            Some(FocusUpdate { target }),
        ),
        _ => (state, None),
    }
}

impl<B: Backend> Waysight<B> {
    /// Takes note of what a client wants the pointer to look like.
    pub fn cursor_image(&mut self, image: CursorImageStatus)
        ensures
            *final(self) == (Waysight { cursor_image_status: image, ..*old(self) }),
    {
        self.cursor_image_status = image;
    }

    /// Takes note that the keyboard focus moved.
    pub fn focus_changed(&mut self, focused: Option<u64>) -> (update: Option<FocusUpdate>)
        ensures
            *final(self) == focus_step(*old(self), focused).0,
            update == focus_step(*old(self), focused).1,
    {
        let target = match focused {
            Some(target) => target,
            None => { return None; },
        };
        match &mut self.seat.keyboard {
            Some(keyboard) => {
                keyboard.focus = Some(target);
                Some(FocusUpdate { target })
            },
            None => None,
        }
    }
}

} // verus!
