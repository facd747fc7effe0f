//! The state of the compositor that every event handler works on.
//!
//! One value of `Waysight` lives as long as the process. The event loop
//! owns it and lends it, one handler at a time, to whatever has to react to
//! a client, an input device or a frame tick.
use vstd::prelude::*;

verus! {

/// What a backend has to offer to the shared state.
pub trait Backend {
    /// The name of the seat, as a sequence of characters.
    spec fn seat_name_spec(&self) -> Seq<char>;

    /// The name of the seat that the backend's input devices belong to.
    fn seat_name(&self) -> (name: String)
        ensures
            name@ == self.seat_name_spec(),
    ;
}

/// The handle by which the event loop is told to stop.
#[derive(Clone, Copy, Debug, PartialEq, Eq, Structural)]
pub struct LoopSignal {
    /// Whether a stop has been asked for. Once set, it stays set.
    pub stop_requested: bool,
}

impl LoopSignal {
    /// The signal of a loop that nobody has asked to stop.
    pub fn new() -> (signal: LoopSignal)
        ensures
            !signal.stop_requested,
    {
        LoopSignal { stop_requested: false }
    }

    /// Asks the loop to stop.
    pub fn stop(&mut self)
        ensures
            final(self).stop_requested,
    {
        self.stop_requested = true;
    }
}

/// What the pointer looks like.
#[derive(Clone, Copy, Debug, PartialEq, Eq, Structural)]
pub enum CursorImageStatus {
    /// No cursor is drawn.
    Hidden,
    /// The compositor draws its own cursor.
    Default,
    /// A client's surface, by its id, is drawn as the cursor.
    Surface(u64),
}

/// The keyboard of a seat.
pub struct Keyboard {
    pub layout: String,
    pub variant: String,
    /// Milliseconds before a held key starts to repeat.
    pub repeat_delay: i32,
    /// Repeats per second.
    pub repeat_rate: i32,
    /// The surface that key events go to, by its id.
    pub focus: Option<u64>,
}

/// The input devices that clients see as one.
pub struct Seat {
    /// The keyboard of the seat, once a keyboard has been added.
    pub keyboard: Option<Keyboard>,
}

/// The state of the compositor, for a backend of type `B`.
pub struct Waysight<B: Backend> {
    pub backend_data: B,
    pub seat_name: String,
    pub seat: Seat,
    /// The name of the socket that clients connect to.
    pub socket_name: String,
    pub loop_signal: LoopSignal,
    pub cursor_image_status: CursorImageStatus,
}

impl<B: Backend> Waysight<B> {
    /// Whether the state hangs together: the seat carries the name that
    /// the backend gives it.
    pub open spec fn wf(&self) -> bool {
        self.seat_name@ == self.backend_data.seat_name_spec()
    }

    /// Makes the state for a backend, once the listening socket is there.
    ///
    /// `socket_name` is the name under which the socket was made, `None` if
    /// it could not be made. Without a socket there is no state. With one,
    /// the seat carries the name that the backend gives and has no keyboard
    /// yet, nobody has asked the loop to stop, and the compositor draws the
    /// cursor.
    pub fn new(backend_data: B, socket_name: Option<String>) -> (r: Option<Waysight<B>>)
        ensures
            r is Some <==> socket_name is Some,
            r matches Some(state) ==> {
                &&& state.wf()
                &&& state.backend_data == backend_data
                &&& state.seat_name@ == backend_data.seat_name_spec()
                &&& state.seat.keyboard is None
                &&& Some(state.socket_name) == socket_name
                &&& !state.loop_signal.stop_requested
                &&& state.cursor_image_status == CursorImageStatus::Default
            },
    {
        match socket_name {
            None => None,
            Some(socket_name) => {
                let seat_name = backend_data.seat_name();
                Some(
                    Waysight {
                        backend_data,
                        seat_name,
                        seat: Seat { keyboard: None },
                        socket_name,
                        loop_signal: LoopSignal::new(),
                        cursor_image_status: CursorImageStatus::Default,
                    },
                )
            },
        }
    }
}

impl<B: Backend> Waysight<B> {
    /// Whether frames are still drawn: they are until the loop has been
    /// asked to stop.
    pub fn draws_frames(&self) -> (draws: bool)
        ensures
            draws == !self.loop_signal.stop_requested,
    {
        !self.loop_signal.stop_requested
    }
}

} // verus!
