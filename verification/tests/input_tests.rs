use game_core::input::{
    apply_dead_zone, button_binding, get_player_intent_vector, key_binding, read_input_event, Axis,
    Button, Control, ControllerSettings, ControllerType, Heading, InputEvent, InputState, Key,
};

fn dpad(left: bool, right: bool, up: bool, down: bool) -> InputState {
    let mut input = InputState::new();
    input.dpad_left = left;
    input.dpad_right = right;
    input.dpad_up = up;
    input.dpad_down = down;
    input
}

#[test]
fn default_settings() {
    let settings = ControllerSettings::new();
    assert_eq!(settings.dead_zone, 2000);
    assert_eq!(settings.left_trigger_activation_threshold, 10000);
    assert_eq!(settings.right_trigger_activation_threshold, 10000);
}

#[test]
fn new_input_is_neutral() {
    let input = InputState::new();
    assert_eq!(input.device, ControllerType::Keyboard);
    assert_eq!(
        (input.left_x_pos, input.left_y_pos, input.right_x_pos, input.right_y_pos),
        (0, 0, 0, 0)
    );
    assert_eq!((input.trig_left_pos, input.trig_right_pos), (0, 0));
    assert!(!input.left_shoulder && !input.right_shoulder);
    assert!(!input.dpad_up && !input.dpad_down && !input.dpad_left && !input.dpad_right);
    assert!(!input.btn_up && !input.btn_down && !input.btn_left && !input.btn_right);
    assert!(!input.btn_start && !input.btn_back && !input.left_stick && !input.right_stick);
    assert!(!input.shutdown);
    assert_eq!(get_player_intent_vector(&input), None);
}

#[test]
fn dpad_gives_eight_directions() {
    assert_eq!(get_player_intent_vector(&dpad(false, true, false, false)), Some(Heading::Eighths(0)));
    assert_eq!(get_player_intent_vector(&dpad(false, true, true, false)), Some(Heading::Eighths(1)));
    assert_eq!(get_player_intent_vector(&dpad(false, false, true, false)), Some(Heading::Eighths(2)));
    assert_eq!(get_player_intent_vector(&dpad(true, false, true, false)), Some(Heading::Eighths(3)));
    assert_eq!(get_player_intent_vector(&dpad(true, false, false, false)), Some(Heading::Eighths(4)));
    assert_eq!(get_player_intent_vector(&dpad(true, false, false, true)), Some(Heading::Eighths(5)));
    assert_eq!(get_player_intent_vector(&dpad(false, false, false, true)), Some(Heading::Eighths(6)));
    assert_eq!(get_player_intent_vector(&dpad(false, true, false, true)), Some(Heading::Eighths(7)));
}

#[test]
fn undecided_dpad_gives_no_direction() {
    assert_eq!(get_player_intent_vector(&dpad(false, false, false, false)), None);
    assert_eq!(get_player_intent_vector(&dpad(true, true, false, false)), None);
    assert_eq!(get_player_intent_vector(&dpad(false, false, true, true)), None);
    assert_eq!(get_player_intent_vector(&dpad(true, true, true, false)), None);
    assert_eq!(get_player_intent_vector(&dpad(true, true, false, true)), None);
    assert_eq!(get_player_intent_vector(&dpad(true, false, true, true)), None);
    assert_eq!(get_player_intent_vector(&dpad(false, true, true, true)), None);
    assert_eq!(get_player_intent_vector(&dpad(true, true, true, true)), None);
}

#[test]
fn every_dpad_combination_is_none_exactly_when_undecided() {
    for bits in 0..16u8 {
        let (left, right, up, down) = (bits & 1 != 0, bits & 2 != 0, bits & 4 != 0, bits & 8 != 0);
        let undecided = !(left || right || up || down) || (left && right) || (up && down);
        assert_eq!(get_player_intent_vector(&dpad(left, right, up, down)).is_none(), undecided);
    }
}

#[test]
fn stick_wins_over_dpad() {
    let mut input = dpad(true, false, false, false);
    input.left_x_pos = 3000;
    assert_eq!(get_player_intent_vector(&input), Some(Heading::Stick { x: 3000, y: 0 }));
    input.left_x_pos = 0;
    input.left_y_pos = -32768;
    assert_eq!(get_player_intent_vector(&input), Some(Heading::Stick { x: 0, y: -32768 }));
    input.left_y_pos = 0;
    assert_eq!(get_player_intent_vector(&input), Some(Heading::Eighths(4)));
}

#[test]
fn right_stick_gives_no_intent() {
    let mut input = InputState::new();
    input.right_x_pos = 20000;
    input.right_y_pos = 20000;
    assert_eq!(get_player_intent_vector(&input), None);
}

#[test]
fn dead_zone_is_open_interval() {
    assert_eq!(apply_dead_zone(0, 2000), 0);
    assert_eq!(apply_dead_zone(1999, 2000), 0);
    assert_eq!(apply_dead_zone(-1999, 2000), 0);
    assert_eq!(apply_dead_zone(2000, 2000), 2000);
    assert_eq!(apply_dead_zone(-2000, 2000), -2000);
    assert_eq!(apply_dead_zone(32767, 2000), 32767);
    assert_eq!(apply_dead_zone(-32768, 2000), -32768);
}

#[test]
fn dead_zone_edge_settings() {
    assert_eq!(apply_dead_zone(5, 0), 5);
    assert_eq!(apply_dead_zone(0, 0), 0);
    assert_eq!(apply_dead_zone(5, -10), 5);
    assert_eq!(apply_dead_zone(5, i16::MIN), 5);
    assert_eq!(apply_dead_zone(-32767, i16::MAX), -32767);
    assert_eq!(apply_dead_zone(-32766, i16::MAX), 0);
    assert_eq!(apply_dead_zone(32766, i16::MAX), 0);
}

#[test]
fn key_bindings() {
    assert_eq!(key_binding(Key::W), Some(Control::DpadUp));
    assert_eq!(key_binding(Key::A), Some(Control::DpadLeft));
    assert_eq!(key_binding(Key::S), Some(Control::DpadDown));
    assert_eq!(key_binding(Key::D), Some(Control::DpadRight));
    assert_eq!(key_binding(Key::I), Some(Control::BtnUp));
    assert_eq!(key_binding(Key::J), Some(Control::BtnLeft));
    assert_eq!(key_binding(Key::K), Some(Control::BtnDown));
    assert_eq!(key_binding(Key::L), Some(Control::BtnRight));
    assert_eq!(key_binding(Key::E), Some(Control::LeftShoulder));
    assert_eq!(key_binding(Key::U), Some(Control::RightShoulder));
    assert_eq!(key_binding(Key::Escape), None);
    assert_eq!(key_binding(Key::Other), None);
}

#[test]
fn button_bindings() {
    assert_eq!(button_binding(Button::A), Some(Control::BtnDown));
    assert_eq!(button_binding(Button::B), Some(Control::BtnRight));
    assert_eq!(button_binding(Button::X), Some(Control::BtnLeft));
    assert_eq!(button_binding(Button::Y), Some(Control::BtnUp));
    assert_eq!(button_binding(Button::LeftShoulder), Some(Control::LeftShoulder));
    assert_eq!(button_binding(Button::RightShoulder), Some(Control::RightShoulder));
    assert_eq!(button_binding(Button::DPadUp), Some(Control::DpadUp));
    assert_eq!(button_binding(Button::DPadDown), Some(Control::DpadDown));
    assert_eq!(button_binding(Button::DPadLeft), Some(Control::DpadLeft));
    assert_eq!(button_binding(Button::DPadRight), Some(Control::DpadRight));
    assert_eq!(button_binding(Button::Start), Some(Control::BtnStart));
    assert_eq!(button_binding(Button::Back), Some(Control::BtnBack));
    assert_eq!(button_binding(Button::LeftStick), Some(Control::LeftStick));
    assert_eq!(button_binding(Button::RightStick), Some(Control::RightStick));
    assert_eq!(button_binding(Button::Other), None);
}

#[test]
fn set_control_touches_one_field() {
    let mut input = InputState::new();
    input.set_control(Control::BtnStart, true);
    let mut expected = InputState::new();
    expected.btn_start = true;
    assert_eq!(input, expected);
    input.set_control(Control::BtnStart, false);
    assert_eq!(input, InputState::new());
    input.set_axis(Axis::TriggerRight, -5);
    expected = InputState::new();
    expected.trig_right_pos = -5;
    assert_eq!(input, expected);
}

#[test]
fn key_events_set_and_clear_controls() {
    let settings = ControllerSettings::new();
    let mut input = InputState::new();
    input.device = ControllerType::Gamepad;
    read_input_event(&mut input, &settings, &InputEvent::KeyDown(Key::W));
    let mut expected = InputState::new();
    expected.dpad_up = true;
    assert_eq!(input, expected);
    read_input_event(&mut input, &settings, &InputEvent::KeyDown(Key::K));
    expected.btn_down = true;
    assert_eq!(input, expected);
    read_input_event(&mut input, &settings, &InputEvent::KeyUp(Key::W));
    expected.dpad_up = false;
    assert_eq!(input, expected);
    read_input_event(&mut input, &settings, &InputEvent::KeyUp(Key::K));
    assert_eq!(input, InputState::new());
}

#[test]
fn quit_and_escape_request_shutdown_only() {
    let settings = ControllerSettings::new();
    let mut input = InputState::new();
    input.device = ControllerType::Gamepad;
    let mut expected = input;
    expected.shutdown = true;
    let mut after_quit = input;
    read_input_event(&mut after_quit, &settings, &InputEvent::Quit);
    assert_eq!(after_quit, expected);
    read_input_event(&mut input, &settings, &InputEvent::KeyDown(Key::Escape));
    assert_eq!(input, expected);
}

#[test]
fn releasing_escape_only_records_the_keyboard() {
    let settings = ControllerSettings::new();
    let mut input = InputState::new();
    input.device = ControllerType::Gamepad;
    read_input_event(&mut input, &settings, &InputEvent::KeyUp(Key::Escape));
    assert_eq!(input, InputState::new());
}

#[test]
fn unbound_inputs_only_record_the_device() {
    let settings = ControllerSettings::new();
    let mut input = InputState::new();
    read_input_event(&mut input, &settings, &InputEvent::ButtonDown(Button::Other));
    let mut expected = InputState::new();
    expected.device = ControllerType::Gamepad;
    assert_eq!(input, expected);
    read_input_event(&mut input, &settings, &InputEvent::KeyDown(Key::Other));
    assert_eq!(input, InputState::new());
    read_input_event(&mut input, &settings, &InputEvent::Other);
    assert_eq!(input, InputState::new());
}

#[test]
fn button_events_set_and_clear_controls() {
    let settings = ControllerSettings::new();
    let mut input = InputState::new();
    read_input_event(&mut input, &settings, &InputEvent::ButtonDown(Button::Start));
    assert!(input.btn_start);
    assert_eq!(input.device, ControllerType::Gamepad);
    read_input_event(&mut input, &settings, &InputEvent::ButtonDown(Button::RightShoulder));
    assert!(input.right_shoulder && input.btn_start);
    read_input_event(&mut input, &settings, &InputEvent::ButtonUp(Button::Start));
    assert!(!input.btn_start && input.right_shoulder);
}

#[test]
fn axis_events_pass_the_dead_zone() {
    let settings = ControllerSettings::new();
    let mut input = InputState::new();
    read_input_event(&mut input, &settings, &InputEvent::AxisMotion(Axis::LeftX, 12000));
    assert_eq!(input.left_x_pos, 12000);
    assert_eq!(input.device, ControllerType::Gamepad);
    read_input_event(&mut input, &settings, &InputEvent::AxisMotion(Axis::LeftX, 1500));
    assert_eq!(input.left_x_pos, 0);
    read_input_event(&mut input, &settings, &InputEvent::AxisMotion(Axis::LeftY, -2000));
    read_input_event(&mut input, &settings, &InputEvent::AxisMotion(Axis::RightX, 2001));
    read_input_event(&mut input, &settings, &InputEvent::AxisMotion(Axis::RightY, -1));
    read_input_event(&mut input, &settings, &InputEvent::AxisMotion(Axis::TriggerLeft, 32767));
    read_input_event(&mut input, &settings, &InputEvent::AxisMotion(Axis::TriggerRight, 1999));
    let mut expected = InputState::new();
    expected.device = ControllerType::Gamepad;
    expected.left_y_pos = -2000;
    expected.right_x_pos = 2001;
    expected.trig_left_pos = 32767;
    assert_eq!(input, expected);
}

#[test]
fn axis_events_use_the_given_dead_zone() {
    let settings = ControllerSettings {
        dead_zone: 100,
        left_trigger_activation_threshold: 10000,
        right_trigger_activation_threshold: 10000,
    };
    let mut input = InputState::new();
    read_input_event(&mut input, &settings, &InputEvent::AxisMotion(Axis::LeftX, 100));
    assert_eq!(input.left_x_pos, 100);
    read_input_event(&mut input, &settings, &InputEvent::AxisMotion(Axis::LeftX, 99));
    assert_eq!(input.left_x_pos, 0);
}
