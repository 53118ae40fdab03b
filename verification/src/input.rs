//! The normalized input snapshot, the device events that update it, and the
//! movement intent read from it.

use vstd::prelude::*;

verus! {

/// The device that produced the most recent event.
#[derive(Debug, Clone, Copy, PartialEq, Eq, Structural)]
pub enum ControllerType {
    Keyboard,
    Gamepad,
}

/// Thresholds applied to analog readings.
#[derive(Debug, Clone, Copy, PartialEq, Eq, Structural)]
pub struct ControllerSettings {
    pub dead_zone: i16,
    pub left_trigger_activation_threshold: i16,
    pub right_trigger_activation_threshold: i16,
}

/// Level state of every control for one tick. There is no edge detection:
/// a button reads `true` for as long as it is held.
#[derive(Debug, Clone, Copy, PartialEq, Eq, Structural)]
pub struct InputState {
    pub device: ControllerType,
    pub left_x_pos: i16,
    pub left_y_pos: i16,
    pub right_x_pos: i16,
    pub right_y_pos: i16,
    pub trig_left_pos: i16,
    pub trig_right_pos: i16,
    pub left_shoulder: bool,
    pub right_shoulder: bool,
    pub dpad_up: bool,
    pub dpad_down: bool,
    pub dpad_left: bool,
    pub dpad_right: bool,
    pub btn_left: bool,
    pub btn_right: bool,
    pub btn_up: bool,
    pub btn_down: bool,
    pub btn_start: bool,
    pub btn_back: bool,
    pub left_stick: bool,
    pub right_stick: bool,
    pub shutdown: bool,
}

/// The keyboard keys that carry a meaning; every other key is `Other`.
#[derive(Debug, Clone, Copy, PartialEq, Eq, Structural)]
pub enum Key {
    Escape,
    W,
    A,
    S,
    D,
    I,
    J,
    K,
    L,
    E,
    U,
    Other,
}

/// The analog axes of a gamepad.
#[derive(Debug, Clone, Copy, PartialEq, Eq, Structural)]
pub enum Axis {
    LeftX,
    LeftY,
    RightX,
    RightY,
    TriggerLeft,
    TriggerRight,
}

/// The gamepad buttons that carry a meaning; every other button is `Other`.
#[derive(Debug, Clone, Copy, PartialEq, Eq, Structural)]
pub enum Button {
    A,
    B,
    X,
    Y,
    LeftShoulder,
    RightShoulder,
    DPadUp,
    DPadDown,
    DPadLeft,
    DPadRight,
    Start,
    Back,
    LeftStick,
    RightStick,
    Other,
}

/// One raw device event, as the input source delivers it.
#[derive(Debug, Clone, Copy, PartialEq, Eq, Structural)]
pub enum InputEvent {
    /// The window was closed.
    Quit,
    KeyDown(Key),
    KeyUp(Key),
    AxisMotion(Axis, i16),
    ButtonDown(Button),
    ButtonUp(Button),
    /// Anything else the device layer reports.
    Other,
}

/// The discrete controls of an `InputState`, one per boolean field.
#[derive(Debug, Clone, Copy, PartialEq, Eq, Structural)]
pub enum Control {
    LeftShoulder,
    RightShoulder,
    DpadUp,
    DpadDown,
    DpadLeft,
    DpadRight,
    BtnLeft,
    BtnRight,
    BtnUp,
    BtnDown,
    BtnStart,
    BtnBack,
    LeftStick,
    RightStick,
}

/// A direction of movement, kept exact.
///
/// `Eighths(k)` is the angle of `k` eighths of a full turn, counter-clockwise
/// from "right": `k` times a quarter of pi radians. `Stick { x, y }` is the
/// direction of a stick deflected by `x` to the right and `y` downwards: the
/// angle whose tangent is `-y / x`, in the quadrant of `(x, -y)`.
#[derive(Debug, Clone, Copy, PartialEq, Eq, Structural)]
pub enum Heading {
    Eighths(u8),
    Stick { x: i16, y: i16 },
}

impl ControllerSettings {
    /// The default thresholds: a dead zone of 2000 and trigger activation at
    /// 10000, of a signed 16-bit range.
    pub fn new() -> (settings: ControllerSettings)
        ensures
            settings.dead_zone == 2000,
            settings.left_trigger_activation_threshold == 10000,
            settings.right_trigger_activation_threshold == 10000,
    {
        ControllerSettings {
            dead_zone: 2000,
            left_trigger_activation_threshold: 10000,
            right_trigger_activation_threshold: 10000,
        }
    }
}

impl Heading {
    /// An eighth below eight, or a stick that is not at rest.
    pub open spec fn wf(self) -> bool {
        match self {
            Heading::Eighths(k) => k < 8,
            Heading::Stick { x, y } => x != 0 || y != 0,
        }
    }
}

/// The control a key is bound to.
pub open spec fn key_control(key: Key) -> Option<Control> {
    match key {
        Key::W => Some(Control::DpadUp),
        Key::A => Some(Control::DpadLeft),
        Key::D => Some(Control::DpadRight),
        Key::S => Some(Control::DpadDown),
        Key::I => Some(Control::BtnUp),
        Key::J => Some(Control::BtnLeft),
        Key::K => Some(Control::BtnDown),
        Key::L => Some(Control::BtnRight),
        Key::E => Some(Control::LeftShoulder),
        Key::U => Some(Control::RightShoulder),
        Key::Escape => None,
        Key::Other => None,
    }
}

/// The control a gamepad button is bound to.
pub open spec fn button_control(button: Button) -> Option<Control> {
    match button {
        Button::A => Some(Control::BtnDown),
        Button::X => Some(Control::BtnLeft),
        Button::Y => Some(Control::BtnUp),
        Button::B => Some(Control::BtnRight),
        Button::LeftShoulder => Some(Control::LeftShoulder),
        Button::RightShoulder => Some(Control::RightShoulder),
        Button::DPadDown => Some(Control::DpadDown),
        Button::DPadLeft => Some(Control::DpadLeft),
        Button::DPadRight => Some(Control::DpadRight),
        Button::DPadUp => Some(Control::DpadUp),
        Button::Start => Some(Control::BtnStart),
        Button::Back => Some(Control::BtnBack),
        Button::LeftStick => Some(Control::LeftStick),
        Button::RightStick => Some(Control::RightStick),
        Button::Other => None,
    }
}

/// An analog reading after the dead zone: readings strictly inside
/// `(-dead_zone, dead_zone)` count as rest.
pub open spec fn dead_zone_filtered(value: i16, dead_zone: i16) -> i16 {
    if -(dead_zone as int) < value as int && (value as int) < dead_zone as int {
        0i16
    } else {
        value
    }
}

impl InputState {
    /// The snapshot of a keyboard with nothing pressed, every axis at rest
    /// and no shutdown requested.
    pub open spec fn neutral() -> InputState {
        InputState {
            device: ControllerType::Keyboard,
            left_x_pos: 0,
            left_y_pos: 0,
            right_x_pos: 0,
            right_y_pos: 0,
            trig_left_pos: 0,
            trig_right_pos: 0,
            left_shoulder: false,
            right_shoulder: false,
            dpad_up: false,
            dpad_down: false,
            dpad_left: false,
            dpad_right: false,
            btn_left: false,
            btn_right: false,
            btn_up: false,
            btn_down: false,
            btn_start: false,
            btn_back: false,
            left_stick: false,
            right_stick: false,
            shutdown: false,
        }
    }

    /// The snapshot with one control pressed or released.
    pub open spec fn with_control(self, control: Control, pressed: bool) -> InputState {
        match control {
            Control::LeftShoulder => InputState { left_shoulder: pressed, ..self },
            Control::RightShoulder => InputState { right_shoulder: pressed, ..self },
            Control::DpadUp => InputState { dpad_up: pressed, ..self },
            Control::DpadDown => InputState { dpad_down: pressed, ..self },
            Control::DpadLeft => InputState { dpad_left: pressed, ..self },
            Control::DpadRight => InputState { dpad_right: pressed, ..self },
            Control::BtnLeft => InputState { btn_left: pressed, ..self },
            Control::BtnRight => InputState { btn_right: pressed, ..self },
            Control::BtnUp => InputState { btn_up: pressed, ..self },
            Control::BtnDown => InputState { btn_down: pressed, ..self },
            Control::BtnStart => InputState { btn_start: pressed, ..self },
            Control::BtnBack => InputState { btn_back: pressed, ..self },
            Control::LeftStick => InputState { left_stick: pressed, ..self },
            Control::RightStick => InputState { right_stick: pressed, ..self },
        }
    }

    /// The snapshot with the control that `binding` names, if any, pressed
    /// or released.
    pub open spec fn with_binding(self, binding: Option<Control>, pressed: bool) -> InputState {
        match binding {
            Some(control) => self.with_control(control, pressed),
            None => self,
        }
    }

    /// The snapshot with one axis at `value`.
    pub open spec fn with_axis(self, axis: Axis, value: i16) -> InputState {
        match axis {
            Axis::LeftX => InputState { left_x_pos: value, ..self },
            Axis::LeftY => InputState { left_y_pos: value, ..self },
            Axis::RightX => InputState { right_x_pos: value, ..self },
            Axis::RightY => InputState { right_y_pos: value, ..self },
            Axis::TriggerLeft => InputState { trig_left_pos: value, ..self },
            Axis::TriggerRight => InputState { trig_right_pos: value, ..self },
        }
    }

    /// The snapshot as last touched by `device`.
    pub open spec fn with_device(self, device: ControllerType) -> InputState {
        InputState { device, ..self }
    }

    /// The snapshot after one device event.
    ///
    /// Closing the window or pressing Escape raises the shutdown flag and
    /// touches nothing else. Every other key or gamepad event records its
    /// device; a bound key or button sets or clears its control, and an axis
    /// takes the reading that the dead zone lets through.
    pub open spec fn after_event(self, settings: ControllerSettings, event: InputEvent)
        -> InputState {
        match event {
            InputEvent::Quit => InputState { shutdown: true, ..self },
            InputEvent::KeyDown(Key::Escape) => InputState { shutdown: true, ..self },
            InputEvent::KeyDown(key) => self.with_device(ControllerType::Keyboard).with_binding(
                key_control(key),
                true,
            ),
            InputEvent::KeyUp(key) => self.with_device(ControllerType::Keyboard).with_binding(
                key_control(key),
                false,
            ),
            InputEvent::AxisMotion(axis, value) => self.with_device(
                ControllerType::Gamepad,
            ).with_axis(axis, dead_zone_filtered(value, settings.dead_zone)),
            InputEvent::ButtonDown(button) => self.with_device(
                ControllerType::Gamepad,
            ).with_binding(button_control(button), true),
            InputEvent::ButtonUp(button) => self.with_device(
                ControllerType::Gamepad,
            ).with_binding(button_control(button), false),
            InputEvent::Other => self,
        }
    }

    /// Whether neither axis of the left stick is deflected.
    pub open spec fn stick_at_rest(self) -> bool {
        self.left_x_pos == 0 && self.left_y_pos == 0
    }

    /// Whether the directional buttons give no direction: none is pressed,
    /// or two opposite ones are.
    pub open spec fn dpad_undecided(self) -> bool {
        ||| !(self.dpad_left || self.dpad_right || self.dpad_up || self.dpad_down)
        ||| (self.dpad_left && self.dpad_right)
        ||| (self.dpad_up && self.dpad_down)
    }

    /// The movement intent of the snapshot. A deflected left stick wins;
    /// otherwise the directional buttons give one of eight directions, or
    /// none where they are undecided.
    pub open spec fn intent(self) -> Option<Heading> {
        if !self.stick_at_rest() {
            Some(Heading::Stick { x: self.left_x_pos, y: self.left_y_pos })
        } else if self.dpad_undecided() {
            None
        } else {
            Some(
                Heading::Eighths(
                    eighth_of(
                        pressed_units(self.dpad_right) - pressed_units(self.dpad_left),
                        pressed_units(self.dpad_up) - pressed_units(self.dpad_down),
                    ),
                ),
            )
        }
    }

    /// The snapshot the game starts with: nothing pressed, nothing
    /// deflected.
    pub fn new() -> (input: InputState)
        ensures
            input == InputState::neutral(),
            input.intent() is None,
    {
        InputState {
            device: ControllerType::Keyboard,
            left_x_pos: 0,
            left_y_pos: 0,
            right_x_pos: 0,
            right_y_pos: 0,
            trig_left_pos: 0,
            trig_right_pos: 0,
            left_shoulder: false,
            right_shoulder: false,
            dpad_up: false,
            dpad_down: false,
            dpad_left: false,
            dpad_right: false,
            btn_left: false,
            btn_right: false,
            btn_up: false,
            btn_down: false,
            btn_start: false,
            btn_back: false,
            left_stick: false,
            right_stick: false,
            shutdown: false,
        }
    }

    /// Presses or releases one control.
    pub fn set_control(&mut self, control: Control, pressed: bool)
        ensures
            *final(self) == old(self).with_control(control, pressed),
    {
        match control {
            Control::LeftShoulder => { *self = InputState { left_shoulder: pressed, ..*self }; },
            Control::RightShoulder => { *self = InputState { right_shoulder: pressed, ..*self }; },
            Control::DpadUp => { *self = InputState { dpad_up: pressed, ..*self }; },
            Control::DpadDown => { *self = InputState { dpad_down: pressed, ..*self }; },
            Control::DpadLeft => { *self = InputState { dpad_left: pressed, ..*self }; },
            Control::DpadRight => { *self = InputState { dpad_right: pressed, ..*self }; },
            Control::BtnLeft => { *self = InputState { btn_left: pressed, ..*self }; },
            Control::BtnRight => { *self = InputState { btn_right: pressed, ..*self }; },
            Control::BtnUp => { *self = InputState { btn_up: pressed, ..*self }; },
            Control::BtnDown => { *self = InputState { btn_down: pressed, ..*self }; },
            Control::BtnStart => { *self = InputState { btn_start: pressed, ..*self }; },
            Control::BtnBack => { *self = InputState { btn_back: pressed, ..*self }; },
            Control::LeftStick => { *self = InputState { left_stick: pressed, ..*self }; },
            Control::RightStick => { *self = InputState { right_stick: pressed, ..*self }; },
        }
    }

    /// Stores an axis reading as it is.
    pub fn set_axis(&mut self, axis: Axis, value: i16)
        ensures
            *final(self) == old(self).with_axis(axis, value),
    {
        match axis {
            Axis::LeftX => { *self = InputState { left_x_pos: value, ..*self }; },
            Axis::LeftY => { *self = InputState { left_y_pos: value, ..*self }; },
            Axis::RightX => { *self = InputState { right_x_pos: value, ..*self }; },
            Axis::RightY => { *self = InputState { right_y_pos: value, ..*self }; },
            Axis::TriggerLeft => { *self = InputState { trig_left_pos: value, ..*self }; },
            Axis::TriggerRight => { *self = InputState { trig_right_pos: value, ..*self }; },
        }
    }
}

/// One for a pressed button, zero for a released one.
pub open spec fn pressed_units(pressed: bool) -> int {
    if pressed {
        1
    } else {
        0
    }
}

/// The eighth of a turn in which the unit step `(h, v)` points, `h` to the
/// right and `v` upwards: right is 0, up is 2, left is 4, down is 6, the
/// diagonals lie between.
pub open spec fn eighth_of(h: int, v: int) -> u8 {
    if h > 0 && v == 0 {
        0
    } else if h > 0 && v > 0 {
        1
    } else if h == 0 && v > 0 {
        2
    } else if h < 0 && v > 0 {
        3
    } else if h < 0 && v == 0 {
        4
    } else if h < 0 && v < 0 {
        5
    } else if h == 0 && v < 0 {
        6
    } else {
        7
    }
}

/// With the stick at rest, each of the eight ways to press one directional
/// button, or two that are not opposite, gives its own eighth of a turn:
/// right is 0, up and right 1, up 2, up and left 3, left 4, down and left 5,
/// down 6, down and right 7.
pub proof fn lemma_dpad_eighths(input: InputState)
    requires
        input.stick_at_rest(),
        !(input.dpad_left && input.dpad_right),
        !(input.dpad_up && input.dpad_down),
    ensures
        input.dpad_right && !input.dpad_up && !input.dpad_down ==> input.intent() == Some(
            Heading::Eighths(0),
        ),
        input.dpad_right && input.dpad_up ==> input.intent() == Some(Heading::Eighths(1)),
        input.dpad_up && !input.dpad_left && !input.dpad_right ==> input.intent() == Some(
            Heading::Eighths(2),
        ),
        input.dpad_left && input.dpad_up ==> input.intent() == Some(Heading::Eighths(3)),
        input.dpad_left && !input.dpad_up && !input.dpad_down ==> input.intent() == Some(
            Heading::Eighths(4),
        ),
        input.dpad_left && input.dpad_down ==> input.intent() == Some(Heading::Eighths(5)),
        input.dpad_down && !input.dpad_left && !input.dpad_right ==> input.intent() == Some(
            Heading::Eighths(6),
        ),
        input.dpad_right && input.dpad_down ==> input.intent() == Some(Heading::Eighths(7)),
{
}

/// The control a key is bound to, if any.
pub fn key_binding(key: Key) -> (binding: Option<Control>)
    ensures
        binding == key_control(key),
{
    match key {
        Key::W => Some(Control::DpadUp),
        Key::A => Some(Control::DpadLeft),
        Key::D => Some(Control::DpadRight),
        Key::S => Some(Control::DpadDown),
        Key::I => Some(Control::BtnUp),
        Key::J => Some(Control::BtnLeft),
        Key::K => Some(Control::BtnDown),
        Key::L => Some(Control::BtnRight),
        Key::E => Some(Control::LeftShoulder),
        Key::U => Some(Control::RightShoulder),
        Key::Escape | Key::Other => None,
    }
}

/// The control a gamepad button is bound to, if any.
pub fn button_binding(button: Button) -> (binding: Option<Control>)
    ensures
        binding == button_control(button),
{
    match button {
        Button::A => Some(Control::BtnDown),
        Button::X => Some(Control::BtnLeft),
        Button::Y => Some(Control::BtnUp),
        Button::B => Some(Control::BtnRight),
        Button::LeftShoulder => Some(Control::LeftShoulder),
        Button::RightShoulder => Some(Control::RightShoulder),
        Button::DPadDown => Some(Control::DpadDown),
        Button::DPadLeft => Some(Control::DpadLeft),
        Button::DPadRight => Some(Control::DpadRight),
        Button::DPadUp => Some(Control::DpadUp),
        Button::Start => Some(Control::BtnStart),
        Button::Back => Some(Control::BtnBack),
        Button::LeftStick => Some(Control::LeftStick),
        Button::RightStick => Some(Control::RightStick),
        Button::Other => None,
    }
}

/// Filters one analog reading through the dead zone.
pub fn apply_dead_zone(value: i16, dead_zone: i16) -> (filtered: i16)
    ensures
        filtered == dead_zone_filtered(value, dead_zone),
{
    let reading: i32 = value as i32;
    let limit: i32 = dead_zone as i32;
    if reading < limit && reading > -limit {
        0
    } else {
        value
    }
}

/// Folds one device event into the snapshot.
pub fn read_input_event(
    input: &mut InputState,
    controller_settings: &ControllerSettings,
    event: &InputEvent,
)
    ensures
        *final(input) == old(input).after_event(*controller_settings, *event),
{
    match *event {
        InputEvent::Quit | InputEvent::KeyDown(Key::Escape) => {
            *input = InputState { shutdown: true, ..*input };
        },
        InputEvent::KeyDown(key) => {
            *input = InputState { device: ControllerType::Keyboard, ..*input };
            if let Some(control) = key_binding(key) {
                input.set_control(control, true);
            }
        },
        InputEvent::KeyUp(key) => {
            *input = InputState { device: ControllerType::Keyboard, ..*input };
            if let Some(control) = key_binding(key) {
                input.set_control(control, false);
            }
        },
        InputEvent::AxisMotion(axis, value) => {
            *input = InputState { device: ControllerType::Gamepad, ..*input };
            let filtered: i16 = apply_dead_zone(value, controller_settings.dead_zone);
            input.set_axis(axis, filtered);
        },
        InputEvent::ButtonDown(button) => {
            *input = InputState { device: ControllerType::Gamepad, ..*input };
            if let Some(control) = button_binding(button) {
                input.set_control(control, true);
            }
        },
        InputEvent::ButtonUp(button) => {
            *input = InputState { device: ControllerType::Gamepad, ..*input };
            if let Some(control) = button_binding(button) {
                input.set_control(control, false);
            }
        },
        InputEvent::Other => {},
    }
}

/// The direction in which the player wants to move this tick, if any.
pub fn get_player_intent_vector(input: &InputState) -> (intent: Option<Heading>)
    ensures
        intent == input.intent(),
        intent is None <==> input.stick_at_rest() && input.dpad_undecided(),
        intent matches Some(heading) ==> heading.wf(),
{
    if input.left_y_pos != 0 || input.left_x_pos != 0 {
        return Some(Heading::Stick { x: input.left_x_pos, y: input.left_y_pos });
    }
    match (input.dpad_left, input.dpad_right, input.dpad_up, input.dpad_down) {
        (false, false, false, false) => None,
        (false, true, false, false) => Some(Heading::Eighths(0)),
        (false, true, true, false) => Some(Heading::Eighths(1)),
        (false, false, true, false) => Some(Heading::Eighths(2)),
        (true, false, true, false) => Some(Heading::Eighths(3)),
        (true, false, false, false) => Some(Heading::Eighths(4)),
        (true, false, false, true) => Some(Heading::Eighths(5)),
        (false, false, false, true) => Some(Heading::Eighths(6)),
        (false, true, false, true) => Some(Heading::Eighths(7)),
        _ => None,
    }
}

} // verus!
