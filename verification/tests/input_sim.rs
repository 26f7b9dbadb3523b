use groovtube_hotkey::sim::input_sim::{press_event, release_event, InputEvent, InputSim};
use groovtube_hotkey::sim::types::{Button, HeldButtons, InputSimCommand, Key, MouseButton};

fn held_set(buttons: &[Button]) -> HeldButtons {
    let mut set = HeldButtons::new();
    for button in buttons {
        set.insert(*button);
    }
    set
}

#[test]
fn new_simulation_holds_nothing() {
    let sim = InputSim::new();
    assert!(sim.held_buttons.is_empty());
    assert!(sim.held_list().is_empty());
}

#[test]
fn same_buttons_twice_give_one_press() {
    let mut sim = InputSim::new();
    let first = sim.set_held_buttons(held_set(&[Button::MouseRight]));
    assert_eq!(first, vec![InputEvent::ButtonPress(MouseButton::Right)]);
    let second = sim.set_held_buttons(held_set(&[Button::MouseRight]));
    assert_eq!(second, vec![]);
    assert_eq!(sim.held_list(), vec![Button::MouseRight]);
}

#[test]
fn swap_releases_before_it_presses() {
    let mut sim = InputSim::new();
    sim.set_held_buttons(held_set(&[Button::ShiftLeft, Button::KeyA]));
    let events = sim.set_held_buttons(held_set(&[Button::KeyA, Button::KeyB]));
    assert_eq!(
        events,
        vec![InputEvent::KeyRelease(Key::ShiftLeft), InputEvent::KeyPress(Key::KeyB)]
    );
    assert_eq!(sim.held_buttons, held_set(&[Button::KeyA, Button::KeyB]));
    assert_eq!(sim.held_list(), vec![Button::KeyA, Button::KeyB]);
}

#[test]
fn empty_set_releases_everything_in_held_order() {
    let mut sim = InputSim::new();
    let pressed = sim.set_held_buttons(held_set(&[
        Button::ControlLeft,
        Button::MouseMiddle,
        Button::F5,
    ]));
    assert_eq!(
        pressed,
        vec![
            InputEvent::KeyPress(Key::ControlLeft),
            InputEvent::ButtonPress(MouseButton::Middle),
            InputEvent::KeyPress(Key::F5),
        ]
    );
    let released = sim.set_held_buttons(HeldButtons::new());
    assert_eq!(
        released,
        vec![
            InputEvent::KeyRelease(Key::ControlLeft),
            InputEvent::ButtonRelease(MouseButton::Middle),
            InputEvent::KeyRelease(Key::F5),
        ]
    );
    assert!(sim.held_buttons.is_empty());
    assert_eq!(sim.set_held_buttons(HeldButtons::new()), vec![]);
}

#[test]
fn same_buttons_in_another_order_give_no_event() {
    let mut sim = InputSim::new();
    sim.set_held_buttons(held_set(&[Button::Alt, Button::KeyQ]));
    let events = sim.set_held_buttons(held_set(&[Button::KeyQ, Button::Alt]));
    assert_eq!(events, vec![]);
    assert_eq!(sim.held_list(), vec![Button::KeyQ, Button::Alt]);
}

#[test]
fn command_sets_the_held_buttons() {
    let mut sim = InputSim::new();
    let events = sim.on_command(InputSimCommand::SetHeldButtons(held_set(&[Button::MouseLeft])));
    assert_eq!(events, vec![InputEvent::ButtonPress(MouseButton::Left)]);
    let events = sim.on_command(InputSimCommand::SetHeldButtons(held_set(&[Button::Space])));
    assert_eq!(
        events,
        vec![InputEvent::ButtonRelease(MouseButton::Left), InputEvent::KeyPress(Key::Space)]
    );
}

#[test]
fn held_set_follows_presses_and_releases() {
    let steps: Vec<Vec<Button>> = vec![
        vec![Button::KeyA],
        vec![Button::KeyA, Button::ShiftLeft],
        vec![Button::MouseLeft],
        vec![],
        vec![Button::MouseLeft, Button::MouseRight, Button::Kp0],
        vec![Button::Kp0, Button::Tab],
        vec![Button::Tab, Button::Kp0],
    ];
    let mut sim = InputSim::new();
    let mut down: Vec<InputEvent> = Vec::new();
    for step in &steps {
        let events = sim.set_held_buttons(held_set(step));
        let mut pressing = false;
        for event in events {
            match event {
                InputEvent::ButtonRelease(b) => {
                    assert!(!pressing, "a release after a press");
                    let at = down.iter().position(|e| *e == InputEvent::ButtonPress(b));
                    down.remove(at.expect("released a button that was not down"));
                }
                InputEvent::KeyRelease(k) => {
                    assert!(!pressing, "a release after a press");
                    let at = down.iter().position(|e| *e == InputEvent::KeyPress(k));
                    down.remove(at.expect("released a key that was not down"));
                }
                press => {
                    pressing = true;
                    assert!(!down.contains(&press), "pressed twice");
                    down.push(press);
                }
            }
        }
        let mut expected: Vec<InputEvent> = step.iter().map(|b| press_event(*b)).collect();
        let mut actual = down.clone();
        expected.sort_by_key(|e| format!("{:?}", e));
        actual.sort_by_key(|e| format!("{:?}", e));
        assert_eq!(actual, expected);
        assert_eq!(sim.held_buttons, held_set(step));
    }
}

#[test]
fn events_by_the_kind_of_button() {
    assert_eq!(press_event(Button::MouseLeft), InputEvent::ButtonPress(MouseButton::Left));
    assert_eq!(release_event(Button::MouseLeft), InputEvent::ButtonRelease(MouseButton::Left));
    assert_eq!(press_event(Button::KeyZ), InputEvent::KeyPress(Key::KeyZ));
    assert_eq!(release_event(Button::KeyZ), InputEvent::KeyRelease(Key::KeyZ));
    for button in Button::all() {
        match (button.rdev_mouse_button(), button.rdev_key()) {
            (Some(mouse_button), None) => {
                assert_eq!(press_event(button), InputEvent::ButtonPress(mouse_button));
                assert_eq!(release_event(button), InputEvent::ButtonRelease(mouse_button));
            }
            (None, Some(key)) => {
                assert_eq!(press_event(button), InputEvent::KeyPress(key));
                assert_eq!(release_event(button), InputEvent::KeyRelease(key));
            }
            other => panic!("{:?} is {:?}", button, other),
        }
    }
}
