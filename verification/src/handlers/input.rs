//! Input: from the events of the input devices to what the seat does with
//! them, and the key combinations that never reach a client.
//!
//! An event takes two steps. `parse_input_event` decides whether it
//! concerns the seat at all, and hands a key on to the keyboard, under a
//! serial that the caller draws from the counter of the process. The
//! keyboard then works out the modifiers and the key
//! symbol and asks the filter, once for each key event, whether the key is
//! the compositor's own or goes to the client in focus.
use vstd::prelude::*;
use crate::backend::drm::DrmBackend;
use crate::backend::winit::WinitBackend;
use crate::config::InputConfig;
use crate::state::{Backend, Keyboard, LoopSignal, Seat, Waysight};

verus! {

/// The key symbol of the letter z.
pub const KEY_Z: u32 = 0x7a;

/// The key symbol of the Return key.
pub const KEY_RETURN: u32 = 0xff0d;

/// Milliseconds before a held key starts to repeat.
pub const REPEAT_DELAY: i32 = 200;

/// Repeats per second of a held key.
pub const REPEAT_RATE: i32 = 25;

/// Whether a key went down or came up.
#[derive(Clone, Copy, Debug, PartialEq, Eq, Structural)]
pub enum KeyState {
    Released,
    Pressed,
}

/// The modifiers that are held.
#[derive(Clone, Copy, Debug, PartialEq, Eq, Structural)]
pub struct ModifiersState {
    pub ctrl: bool,
    pub alt: bool,
    pub shift: bool,
    pub caps_lock: bool,
    pub logo: bool,
    pub num_lock: bool,
}

/// An event of an input device.
#[derive(Clone, Copy, Debug, PartialEq, Eq, Structural)]
pub enum InputEvent {
    /// A device has appeared. `keyboard` says whether it can act as one.
    DeviceAdded { keyboard: bool },
    /// A key went down or came up, at `time` milliseconds.
    Keyboard { key_code: u32, state: KeyState, time: u32 },
    /// Anything else: pointer, touch, a device that went away.
    Other,
}

/// What has to be done about an input event.
pub enum InputAction {
    /// Give the seat a keyboard with these settings.
    AddKeyboard { layout: String, variant: String, repeat_delay: i32, repeat_rate: i32 },
    /// Hand the key to the seat's keyboard, under a fresh serial.
    Key { key_code: u32, state: KeyState, time: u32 },
    /// Nothing: the event is dropped.
    Nothing,
}

/// What the compositor does on a key combination of its own.
#[derive(Clone, Copy, Debug, PartialEq, Eq, Structural)]
pub enum KeyAction {
    /// Stop the event loop.
    StopLoop,
    /// Start a terminal.
    SpawnTerminal,
}

/// The answer of the filter.
#[derive(Clone, Copy, Debug, PartialEq, Eq, Structural)]
pub enum FilterResult {
    /// The key goes to the client in focus, as it came.
    Forward,
    /// The key is consumed, and this is done instead.
    Intercept(KeyAction),
}

/// The keyboard that a seat gets from the settings.
pub open spec fn keyboard_for(config: InputConfig) -> Keyboard {
    Keyboard {
        layout: config.keyboard_layout,
        variant: config.keyboard_variant,
        repeat_delay: REPEAT_DELAY,
        repeat_rate: REPEAT_RATE,
        focus: None,
    }
}

/// The state after an input event, and what has to be done about it.
///
/// The first device that can act as a keyboard gives the seat its
/// keyboard; later ones change nothing. A key goes to the keyboard as it
/// came, if there is a keyboard, and is dropped if there is none. Nothing
/// else concerns the seat.
pub open spec fn input_step<B: Backend>(
    state: Waysight<B>,
    event: InputEvent,
    config: InputConfig,
) -> (Waysight<B>, InputAction) {
    match event {
        InputEvent::DeviceAdded { keyboard: true } => if state.seat.keyboard is None {
            (
                Waysight { seat: Seat { keyboard: Some(keyboard_for(config)) }, ..state },
                InputAction::AddKeyboard {
                    layout: config.keyboard_layout,
                    variant: config.keyboard_variant,
                    repeat_delay: REPEAT_DELAY,
                    repeat_rate: REPEAT_RATE,
                },
            )
        } else {
            (state, InputAction::Nothing)
        },
        InputEvent::Keyboard { key_code, state: key_state, time } => if state.seat.keyboard is Some {
            (state, InputAction::Key { key_code, state: key_state, time })
        } else {
            (state, InputAction::Nothing)
        },
        _ => (state, InputAction::Nothing),
    }
}

/// The answer of the filter on the direct backend: Alt and z, going down,
/// stop the loop.
pub open spec fn drm_filter(state: KeyState, modifiers: ModifiersState, keysym: u32) -> FilterResult {
    if state == KeyState::Pressed && modifiers.alt && keysym == KEY_Z {
        FilterResult::Intercept(KeyAction::StopLoop)
    } else {
        FilterResult::Forward
    }
}

/// The answer of the filter for a key that went down in the window of the
/// nested backend: Alt and z stop the loop; else the logo key and Return
/// start a terminal.
pub open spec fn winit_pressed_filter(modifiers: ModifiersState, keysym: u32) -> FilterResult {
    if modifiers.alt && keysym == KEY_Z {
        FilterResult::Intercept(KeyAction::StopLoop)
    } else if modifiers.logo && keysym == KEY_RETURN {
        FilterResult::Intercept(KeyAction::SpawnTerminal)
    } else {
        FilterResult::Forward
    }
}

/// The answer of the filter on the nested backend.
pub open spec fn winit_filter(state: KeyState, modifiers: ModifiersState, keysym: u32) -> FilterResult {
    if state == KeyState::Pressed {
        winit_pressed_filter(modifiers, keysym)
    } else {
        FilterResult::Forward
    }
}

/// The state after the filter gave an answer: a stop of the loop is asked
/// for at once; nothing else touches the state.
pub open spec fn filtered<B: Backend>(state: Waysight<B>, answer: FilterResult) -> Waysight<B> {
    if answer == FilterResult::Intercept(KeyAction::StopLoop) {
        Waysight { loop_signal: LoopSignal { stop_requested: true }, ..state }
    } else {
        state
    }
}

impl<B: Backend> Waysight<B> {
    /// Takes in an input event, whatever the backend it comes from.
    pub fn route_input(&mut self, event: InputEvent, config: &InputConfig) -> (action: InputAction)
        ensures
            *final(self) == input_step(*old(self), event, *config).0,
            action == input_step(*old(self), event, *config).1,
    {
        match event {
            InputEvent::DeviceAdded { keyboard: true } => {
                if self.seat.keyboard.is_none() {
                    self.seat.keyboard = Some(
                        Keyboard {
                            layout: config.keyboard_layout.clone(),
                            variant: config.keyboard_variant.clone(),
                            repeat_delay: REPEAT_DELAY,
                            repeat_rate: REPEAT_RATE,
                            focus: None,
                        },
                    );
                    InputAction::AddKeyboard {
                        layout: config.keyboard_layout.clone(),
                        variant: config.keyboard_variant.clone(),
                        repeat_delay: REPEAT_DELAY,
                        repeat_rate: REPEAT_RATE,
                    }
                } else {
                    InputAction::Nothing
                }
            },
            InputEvent::Keyboard { key_code, state, time } => {
                if self.seat.keyboard.is_some() {
                    InputAction::Key { key_code, state, time }
                } else {
                    InputAction::Nothing
                }
            },
            _ => InputAction::Nothing,
        }
    }

    /// Does what the filter's answer calls for.
    fn apply_filter(&mut self, answer: FilterResult)
        ensures
            *final(self) == filtered(*old(self), answer),
    {
        match answer {
            FilterResult::Intercept(KeyAction::StopLoop) => {
                self.loop_signal.stop();
            },
            _ => {},
        }
    }
}

impl Waysight<DrmBackend> {
    /// Takes in an event of the session's input devices.
    pub fn parse_input_event(&mut self, event: InputEvent, config: &InputConfig) -> (action:
        InputAction)
        ensures
            *final(self) == input_step(*old(self), event, *config).0,
            action == input_step(*old(self), event, *config).1,
    {
        self.route_input(event, config)
    }

    /// The filter of the direct backend: decides, for one key event,
    /// whether the key is the compositor's own.
    pub fn filter_key(&mut self, state: KeyState, modifiers: &ModifiersState, keysym: u32) -> (answer:
        FilterResult)
        ensures
            answer == drm_filter(state, *modifiers, keysym),
            *final(self) == filtered(*old(self), answer),
    {
        let answer = if state == KeyState::Pressed && modifiers.alt && keysym == KEY_Z {
            FilterResult::Intercept(KeyAction::StopLoop)
        } else {
            FilterResult::Forward
        };
        self.apply_filter(answer);
        answer
    }
}

impl Waysight<WinitBackend> {
    /// Decides what a key that went down in the window does.
    pub fn on_keyboard_input(&mut self, modifiers: &ModifiersState, keysym: u32) -> (answer:
        FilterResult)
        ensures
            answer == winit_pressed_filter(*modifiers, keysym),
            *final(self) == filtered(*old(self), answer),
    {
        let answer = if modifiers.alt && keysym == KEY_Z {
            FilterResult::Intercept(KeyAction::StopLoop)
        } else if modifiers.logo && keysym == KEY_RETURN {
            FilterResult::Intercept(KeyAction::SpawnTerminal)
        } else {
            FilterResult::Forward
        };
        self.apply_filter(answer);
        answer
    }

    /// Takes in an input event of the window.
    pub fn parse_input_event_winit(&mut self, event: InputEvent, config: &InputConfig) -> (action:
        InputAction)
        ensures
            *final(self) == input_step(*old(self), event, *config).0,
            action == input_step(*old(self), event, *config).1,
    {
        self.route_input(event, config)
    }

    /// The filter of the nested backend: a key that comes up always goes on
    /// to the client; one that goes down is looked at.
    pub fn filter_key_winit(
        &mut self,
        state: KeyState,
        modifiers: &ModifiersState,
        keysym: u32,
    ) -> (answer: FilterResult)
        ensures
            answer == winit_filter(state, *modifiers, keysym),
            *final(self) == filtered(*old(self), answer),
    {
        if state == KeyState::Pressed {
            return self.on_keyboard_input(modifiers, keysym);
        }
        FilterResult::Forward
    }
}

/// The state after a run of input events.
pub open spec fn run_inputs<B: Backend>(
    state: Waysight<B>,
    events: Seq<InputEvent>,
    config: InputConfig,
) -> Waysight<B>
    decreases events.len(),
{
    if events.len() == 0 {
        state
    } else {
        input_step(run_inputs(state, events.drop_last(), config), events.last(), config).0
    }
}

/// How often a run of input events asks for a keyboard to be added.
pub open spec fn keyboards_added<B: Backend>(
    state: Waysight<B>,
    events: Seq<InputEvent>,
    config: InputConfig,
) -> nat
    decreases events.len(),
{
    if events.len() == 0 {
        0
    } else {
        let before = run_inputs(state, events.drop_last(), config);
        let earlier = keyboards_added(state, events.drop_last(), config);
        if input_step(before, events.last(), config).1 is AddKeyboard {
            earlier + 1
        } else {
            earlier
        }
    }
}

/// Whether a seat has a keyboard, as a number.
pub open spec fn keyboard_count<B: Backend>(state: Waysight<B>) -> nat {
    if state.seat.keyboard is Some {
        1
    } else {
        0
    }
}

/// No input event and no answer of the filter takes the seat's name away
/// from the backend's: a state that hangs together stays so.
pub proof fn lemma_input_keeps_state_together<B: Backend>(
    state: Waysight<B>,
    event: InputEvent,
    config: InputConfig,
    answer: FilterResult,
)
    requires
        state.wf(),
    ensures
        input_step(state, event, config).0.wf(),
        filtered(state, answer).wf(),
{
}

/// Alt and z, going down, are consumed on both backends, whatever else is
/// held: the filter's answer is never `Forward`, and once it is acted on
/// the loop has been asked to stop.
pub proof fn lemma_alt_z_is_consumed<B: Backend>(state: Waysight<B>, modifiers: ModifiersState)
    requires
        modifiers.alt,
    ensures
        drm_filter(KeyState::Pressed, modifiers, KEY_Z) == FilterResult::Intercept(
            KeyAction::StopLoop,
        ),
        winit_filter(KeyState::Pressed, modifiers, KEY_Z) == FilterResult::Intercept(
            KeyAction::StopLoop,
        ),
        filtered(state, FilterResult::Intercept(KeyAction::StopLoop)).loop_signal.stop_requested,
{
}

/// A key that is none of the compositor's own combinations goes on as it
/// came: the filter answers `Forward` and leaves the state alone, and the
/// key had been handed to the keyboard with the code, the direction and the
/// time of the event. A key that comes up is never a combination.
pub proof fn lemma_other_keys_are_forwarded<B: Backend>(
    state: Waysight<B>,
    config: InputConfig,
    key_code: u32,
    key_state: KeyState,
    time: u32,
    modifiers: ModifiersState,
    keysym: u32,
)
    requires
        state.seat.keyboard is Some,
    ensures
        !(key_state == KeyState::Pressed && modifiers.alt && keysym == KEY_Z) ==> drm_filter(
            key_state,
            modifiers,
            keysym,
        ) == FilterResult::Forward,
        !(key_state == KeyState::Pressed && ((modifiers.alt && keysym == KEY_Z) || (modifiers.logo
            && keysym == KEY_RETURN))) ==> winit_filter(key_state, modifiers, keysym)
            == FilterResult::Forward,
        filtered(state, FilterResult::Forward) == state,
        input_step(state, InputEvent::Keyboard { key_code, state: key_state, time }, config).1
            == (InputAction::Key { key_code, state: key_state, time }),
{
}

/// A seat gets its keyboard at most once: over any run of input events,
/// the requests to add a keyboard and the keyboard that was there before
/// add up to the keyboard that is there after, which is one at most.
pub proof fn lemma_keyboard_is_added_once<B: Backend>(
    state: Waysight<B>,
    events: Seq<InputEvent>,
    config: InputConfig,
)
    ensures
        keyboards_added(state, events, config) + keyboard_count(state) == keyboard_count(
            run_inputs(state, events, config),
        ),
        keyboards_added(state, events, config) <= 1,
    decreases events.len(),
{
    if events.len() > 0 {
        lemma_keyboard_is_added_once(state, events.drop_last(), config);
    }
}

/// A key that arrives while the seat has no keyboard is dropped, and the
/// state, focus included, stays exactly as it was.
pub proof fn lemma_early_key_is_dropped<B: Backend>(
    state: Waysight<B>,
    config: InputConfig,
    key_code: u32,
    key_state: KeyState,
    time: u32,
)
    requires
        state.seat.keyboard is None,
    ensures
        input_step(state, InputEvent::Keyboard { key_code, state: key_state, time }, config) == (
            state,
            InputAction::Nothing,
        ),
{
}

/// As long as no device was added, keys change nothing: a run of events
/// without a `DeviceAdded`, on a seat without a keyboard, leaves the state
/// as it was.
pub proof fn lemma_keys_before_devices_change_nothing<B: Backend>(
    state: Waysight<B>,
    events: Seq<InputEvent>,
    config: InputConfig,
)
    requires
        state.seat.keyboard is None,
        forall|i: int| 0 <= i < events.len() ==> !(#[trigger] events[i] is DeviceAdded),
    ensures
        run_inputs(state, events, config) == state,
        keyboards_added(state, events, config) == 0,
    decreases events.len(),
{
    if events.len() > 0 {
        lemma_keys_before_devices_change_nothing(state, events.drop_last(), config);
    }
}

} // verus!
