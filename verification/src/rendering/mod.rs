//! Rendering a frame: what follows from how binding and drawing went.
//!
//! The buffer, the renderer and the damage tracker's history belong to the
//! caller. A frame takes two steps there, binding the buffer and drawing
//! what has changed; after each, the caller reports how it went and is
//! told how to go on.
use vstd::prelude::*;
use crate::handlers::wsoutput::Rectangle;

verus! {

/// What became of one element in a frame.
#[derive(Clone, Copy, Debug, PartialEq, Eq, Structural)]
pub struct ElementState {
    /// The element, by its id.
    pub element: u64,
    /// Whether any of it was drawn.
    pub rendered: bool,
}

/// What became of the elements of a frame, for the accounting of frame
/// callbacks.
pub struct RenderElementStates {
    pub states: Vec<ElementState>,
}

/// How to go on after the attempt to bind the buffer.
#[derive(Clone, Copy, Debug, PartialEq, Eq, Structural)]
pub enum FrameStep {
    /// Draw what has changed, with a buffer of this age.
    Draw { age: usize },
    /// Leave the frame out. The next tick tries again.
    Skip,
}

/// How the drawing went.
pub enum DrawOutcome {
    /// The frame was left out: nothing was bound, so nothing was drawn.
    Skipped,
    /// Nothing had changed, so nothing was drawn.
    Unchanged(RenderElementStates),
    /// These rectangles were drawn again.
    Damaged(Vec<Rectangle>, RenderElementStates),
    /// Working out the damage, or drawing, failed; with the cause.
    Failed(String),
}

/// What a renderer is set up with.
#[derive(Clone, Copy, Debug, PartialEq, Eq, Structural)]
pub struct WaysightRenderer {
    /// The pixel format that buffers are asked for in, as a four-character
    /// code.
    pub format: u32,
}

/// Whether a frame shows anything new.
pub open spec fn presented(outcome: DrawOutcome) -> bool {
    outcome is Damaged
}

/// The states of the elements that a frame reports: those that the drawing
/// gave, none if it failed or was left out.
pub open spec fn reported_states(outcome: DrawOutcome) -> Seq<ElementState> {
    match outcome {
        DrawOutcome::Unchanged(states) => states.states@,
        DrawOutcome::Damaged(_, states) => states.states@,
        DrawOutcome::Failed(_) => Seq::empty(),
        DrawOutcome::Skipped => Seq::empty(),
    }
}

impl WaysightRenderer {
    /// A renderer that asks for buffers in the given format.
    pub fn new(preferred_format: u32) -> (renderer: WaysightRenderer)
        ensures
            renderer.format == preferred_format,
    {
        WaysightRenderer { format: preferred_format }
    }

    /// Decides how a frame goes on after the attempt to bind its buffer: a
    /// buffer that is bound is drawn to, with its age; without one the
    /// frame is left out.
    pub fn after_bind(&self, bound: bool, age: u8) -> (step: FrameStep)
        ensures
            step == (if bound {
                FrameStep::Draw { age: age as usize }
            } else {
                FrameStep::Skip
            }),
    {
        if bound {
            FrameStep::Draw { age: age as usize }
        } else {
            FrameStep::Skip
        }
    }

    /// Sums up a frame that was drawn through the damage tracker.
    ///
    /// The first part of the result says whether the frame shows anything
    /// new, and so whether it is worth presenting: it does exactly when
    /// something was drawn again. The second part are the states of the
    /// elements. A failure, like a frame that was left out, counts as a
    /// frame on which nothing was drawn and of which nothing is known.
    pub fn render_from_damage_tracker(&self, outcome: DrawOutcome) -> (r: (
        bool,
        RenderElementStates,
    ))
        ensures
            r.0 == presented(outcome),
            r.1.states@ == reported_states(outcome),
    {
        match outcome {
            DrawOutcome::Damaged(_, states) => (true, states),
            DrawOutcome::Unchanged(states) => (false, states),
            DrawOutcome::Failed(_) => (false, RenderElementStates { states: Vec::new() }),
            DrawOutcome::Skipped => (false, RenderElementStates { states: Vec::new() }),
        }
    }
}

} // verus!
