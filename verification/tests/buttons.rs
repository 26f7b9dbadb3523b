use groovtube_hotkey::config::types::BreathDirection;
use groovtube_hotkey::sim::types::{Button, Key, MouseButton};

#[test]
fn all_buttons_once_in_order() {
    let all = Button::all();
    assert_eq!(all.len(), 107);
    assert_eq!(all.len(), Button::COUNT);
    assert_eq!(all[0], Button::MouseLeft);
    assert_eq!(all[1], Button::MouseRight);
    assert_eq!(all[2], Button::MouseMiddle);
    assert_eq!(all[3], Button::UpArrow);
    assert_eq!(all[106], Button::KpReturn);
    for (i, a) in all.iter().enumerate() {
        for b in &all[i + 1..] {
            assert_ne!(a, b);
        }
    }
}

#[test]
fn mouse_buttons() {
    assert_eq!(Button::MouseLeft.rdev_mouse_button(), Some(MouseButton::Left));
    assert_eq!(Button::MouseRight.rdev_mouse_button(), Some(MouseButton::Right));
    assert_eq!(Button::MouseMiddle.rdev_mouse_button(), Some(MouseButton::Middle));
    assert_eq!(Button::KeyA.rdev_mouse_button(), None);
    assert_eq!(Button::MouseLeft.rdev_key(), None);
    assert_eq!(Button::MouseRight.rdev_key(), None);
    assert_eq!(Button::MouseMiddle.rdev_key(), None);
}

#[test]
fn keys_carry_the_name_of_their_button() {
    assert_eq!(Button::KeyA.rdev_key(), Some(Key::KeyA));
    assert_eq!(Button::ShiftLeft.rdev_key(), Some(Key::ShiftLeft));
    assert_eq!(Button::Alt.rdev_key(), Some(Key::Alt));
    assert_eq!(Button::KpReturn.rdev_key(), Some(Key::KpReturn));
    assert_eq!(Button::Num0.rdev_key(), Some(Key::Num0));
    assert_eq!(Button::Function.rdev_key(), Some(Key::Function));
    for button in Button::all() {
        if let Some(key) = button.rdev_key() {
            assert_eq!(format!("{:?}", key), format!("{:?}", button));
        }
    }
}

#[test]
fn every_button_is_a_mouse_button_or_a_key() {
    let mut keys = 0;
    let mut mouse_buttons = 0;
    for button in Button::all() {
        assert_ne!(button.rdev_mouse_button().is_some(), button.rdev_key().is_some());
        if button.rdev_key().is_some() {
            keys += 1;
        } else {
            mouse_buttons += 1;
        }
    }
    assert_eq!(mouse_buttons, 3);
    assert_eq!(keys, 104);
}

#[test]
fn distinct_buttons_press_distinct_keys() {
    let all = Button::all();
    for (i, a) in all.iter().enumerate() {
        for b in &all[i + 1..] {
            if a.rdev_key().is_some() {
                assert_ne!(a.rdev_key(), b.rdev_key());
            }
            if a.rdev_mouse_button().is_some() {
                assert_ne!(a.rdev_mouse_button(), b.rdev_mouse_button());
            }
        }
    }
}

#[test]
fn button_labels() {
    assert_eq!(Button::MouseLeft.label(), "Mouse Left");
    assert_eq!(Button::MouseMiddle.label(), "Mouse Middle");
    assert_eq!(Button::BackQuote.label(), "`");
    assert_eq!(Button::BackSlash.label(), "\\");
    assert_eq!(Button::Quote.label(), "'");
    assert_eq!(Button::Escape.label(), "Esc");
    assert_eq!(Button::Function.label(), "Fn");
    assert_eq!(Button::KeyA.label(), "A");
    assert_eq!(Button::Num7.label(), "7");
    assert_eq!(Button::Kp7.label(), "Keypad 7");
    assert_eq!(Button::KpDivide.label(), "Keypad /");
    assert_eq!(Button::UpArrow.label(), "Up Arrow");
    assert_eq!(Button::DownArrow.label(), "DownArrow");
    assert_eq!(Button::SemiColon.label(), ";");
    assert_eq!(Button::F12.label(), "F12");
    for button in Button::all() {
        assert!(!button.label().is_empty());
    }
}

#[test]
fn breath_directions() {
    assert_eq!(BreathDirection::all(), vec![BreathDirection::Puff, BreathDirection::Sip]);
    assert_eq!(BreathDirection::Puff.label(), "Puff");
    assert_eq!(BreathDirection::Sip.label(), "Sip");
}
