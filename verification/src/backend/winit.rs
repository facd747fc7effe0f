//! The backend that runs in a window of another display server.
//!
//! The window and its event loop belong to the caller. Once per frame tick
//! it hands over the window's events and is told what the frame looks like.
use vstd::prelude::*;
use vstd::string::*;
use crate::config::InputConfig;
use crate::handlers::input::{input_step, InputAction, InputEvent};
use crate::handlers::wsoutput::{
    full_rectangle, output_with, Mode, Output, PhysicalProperties, Rectangle, Size, Subpixel,
    Transform,
};
use crate::state::{Backend, LoopSignal, Waysight};

verus! {

/// The rate at which the window is said to refresh, in thousandths of a
/// hertz.
pub const REFRESH: i32 = 60_000;

/// Milliseconds from one frame tick to the next.
pub const FRAME_PERIOD_MS: u64 = 16;

/// Milliseconds that the event loop waits for events before it looks after
/// the clients.
pub const LOOP_TIMEOUT_MS: u64 = 8;

/// What the nested backend holds in the shared state: nothing. The window
/// belongs to the frame loop.
pub struct WinitBackend {}

impl Backend for WinitBackend {
    open spec fn seat_name_spec(&self) -> Seq<char> {
        "waysight-seat"@
    }

    fn seat_name(&self) -> (name: String) {
        String::from_str("waysight-seat")
    }
}

/// An event of the window.
#[derive(Clone, Copy, Debug, PartialEq, Eq, Structural)]
pub enum WinitEvent {
    /// An input event that happened in the window.
    Input(InputEvent),
    /// The window has this size now.
    Resized { size: Size },
    /// The user asked for the window to be closed.
    CloseRequested,
    /// Anything else: focus, a request to redraw.
    Other,
}

/// Whether an output is the one that stands for a window of the given
/// size: named `waysight`, with `Smithay` for its make and `Waysight` for
/// its model, without a size in millimetres, as large as the window,
/// flipped and turned upside down as the window's buffers are, at the
/// origin.
pub open spec fn is_window_output(output: Output, size: Size) -> bool {
    &&& output.name@ == "waysight"@
    &&& output.physical.size == (Size { w: 0, h: 0 })
    &&& output.physical.subpixel == Subpixel::Unknown
    &&& output.physical.make@ == "Smithay"@
    &&& output.physical.model@ == "Waysight"@
    &&& output.mode == Some(Mode { size, refresh: REFRESH })
    &&& output.transform == Transform::Flipped180
    &&& output.location == (0i32, 0i32)
}

/// Starts the nested backend on the window that was opened.
///
/// `window` is the size of the window, or why there is none. Without a
/// window the backend does not start, and the cause is handed back. With
/// one, there is a single output, named `waysight`, as large as the window.
pub fn initialize(window: Result<Size, String>) -> (r: Result<Output, String>)
    ensures
        match window {
            Ok(size) => r matches Ok(output) && is_window_output(output, size),
            Err(cause) => r matches Err(e) && e == cause,
        },
{
    let size = match window {
        Ok(size) => size,
        Err(cause) => { return Err(cause); },
    };
    let mut output = Output::new(
        String::from_str("waysight"),
        PhysicalProperties {
            size: Size { w: 0, h: 0 },
            subpixel: Subpixel::Unknown,
            make: String::from_str("Smithay"),
            model: String::from_str("Waysight"),
        },
    );
    output.change_current_state(
        Some(Mode { size, refresh: REFRESH }),
        Some(Transform::Flipped180),
        Some((0, 0)),
    );
    Ok(output)
}

/// What one frame tick comes to.
pub struct Frame {
    /// What has to be done about each input event, in their order.
    pub actions: Vec<InputAction>,
    /// The title that the window carries.
    pub title: String,
    /// The size to draw at.
    pub size: Size,
    /// What to clear to the background colour.
    pub clear: Rectangle,
    /// What to present as changed.
    pub damage: Rectangle,
}

/// The state after the events of the window.
pub open spec fn state_after(
    state: Waysight<WinitBackend>,
    events: Seq<WinitEvent>,
    config: InputConfig,
) -> Waysight<WinitBackend>
    decreases events.len(),
{
    if events.len() == 0 {
        state
    } else {
        let before = state_after(state, events.drop_last(), config);
        match events.last() {
            WinitEvent::Input(event) => input_step(before, event, config).0,
            _ => before,
        }
    }
}

/// The output after the events of the window: each change of size sets the
/// mode, and nothing else of the output changes.
pub open spec fn output_after(output: Output, events: Seq<WinitEvent>) -> Output
    decreases events.len(),
{
    if events.len() == 0 {
        output
    } else {
        let before = output_after(output, events.drop_last());
        match events.last() {
            WinitEvent::Resized { size } => output_with(
                before,
                Some(Mode { size, refresh: REFRESH }),
                None,
                None,
            ),
            _ => before,
        }
    }
}

/// What has to be done about the input events among the events of the
/// window, one entry for each, in their order.
pub open spec fn actions_after(
    state: Waysight<WinitBackend>,
    events: Seq<WinitEvent>,
    config: InputConfig,
) -> Seq<InputAction>
    decreases events.len(),
{
    if events.len() == 0 {
        Seq::empty()
    } else {
        let before = state_after(state, events.drop_last(), config);
        let earlier = actions_after(state, events.drop_last(), config);
        match events.last() {
            WinitEvent::Input(event) => earlier.push(input_step(before, event, config).1),
            _ => earlier,
        }
    }
}

/// Whether one of the events asks for the window to be closed.
pub open spec fn close_requested(events: Seq<WinitEvent>) -> bool {
    exists|i: int| 0 <= i < events.len() && events[i] == WinitEvent::CloseRequested
}

/// The state after a frame tick: the events are taken in, and a window
/// that was closed, or is asked to be, asks the loop to stop.
pub open spec fn state_after_tick(
    state: Waysight<WinitBackend>,
    events: Seq<WinitEvent>,
    closed: bool,
    config: InputConfig,
) -> Waysight<WinitBackend> {
    let after = state_after(state, events, config);
    if closed || close_requested(events) {
        Waysight { loop_signal: LoopSignal { stop_requested: true }, ..after }
    } else {
        after
    }
}

/// Takes in the events of the window since the last frame tick and lays
/// out the frame.
///
/// `closed` says whether the window is gone, `window_size` is its size
/// after the events. Input events go the way of all input events. A change
/// of size sets the mode of the output, and touches nothing else. A window
/// that is gone, or that the user asked to close, asks the loop to stop,
/// which is no error. The frame is
/// cleared and presented as a whole: one rectangle, from the origin, of
/// the size of the window.
pub fn dispatch_winit_events(
    state: &mut Waysight<WinitBackend>,
    output: &mut Output,
    events: &Vec<WinitEvent>,
    closed: bool,
    window_size: Size,
    config: &InputConfig,
) -> (frame: Frame)
    ensures
        *final(state) == state_after_tick(*old(state), events@, closed, *config),
        *final(output) == output_after(*old(output), events@),
        frame.actions@ == actions_after(*old(state), events@, *config),
        frame.title@ == "Waysight"@,
        frame.size == window_size,
        frame.clear == full_rectangle(window_size),
        frame.damage == full_rectangle(window_size),
{
    let mut actions: Vec<InputAction> = Vec::new();
    let mut asked = false;
    let mut i: usize = 0;
    while i < events.len()
        invariant
            i <= events.len(),
            asked == close_requested(events@.take(i as int)),
            *state == state_after(*old(state), events@.take(i as int), *config),
            *output == output_after(*old(output), events@.take(i as int)),
            actions@ == actions_after(*old(state), events@.take(i as int), *config),
        decreases events.len() - i,
    {
        proof {
            assert(events@.take(i + 1).drop_last() =~= events@.take(i as int));
        }
        match events[i] {
            WinitEvent::Input(event) => {
                let action = state.parse_input_event_winit(event, config);
                actions.push(action);
            },
            WinitEvent::Resized { size } => {
                output.change_current_state(Some(Mode { size, refresh: REFRESH }), None, None);
            },
            WinitEvent::CloseRequested => {
                asked = true;
            },
            WinitEvent::Other => {},
        }
        i += 1;
    }
    proof {
        assert(events@.take(events.len() as int) =~= events@);
    }
    if closed || asked {
        state.loop_signal.stop();
    }
    let whole = Rectangle { x: 0, y: 0, w: window_size.w, h: window_size.h };
    Frame {
        actions,
        title: String::from_str("Waysight"),
        size: window_size,
        clear: whole,
        damage: whole,
    }
}

} // verus!
