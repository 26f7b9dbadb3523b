use groovtube_hotkey::config::types::{BreathDirection, Config, HotkeyConfig};
use groovtube_hotkey::device::types::{DeviceEvent, DeviceState};
use groovtube_hotkey::gui::edit::{
    add_hotkey, apply_hotkey_change, can_add_hotkey, parse_i8, MAX_HOTKEYS, MAX_THRESHOLD,
    MIN_THRESHOLD,
};
use groovtube_hotkey::gui::link::{is_http_link, starts_with};
use groovtube_hotkey::gui::status::{decimal_string, DeviceStatus};
use groovtube_hotkey::gui::types::{HotkeyChange, HotkeyModifier};
use groovtube_hotkey::sim::types::Button;

fn new_hotkey() -> HotkeyConfig {
    HotkeyConfig {
        breath_direction: BreathDirection::Puff,
        threshold: None,
        modifier_shift: false,
        modifier_ctrl: false,
        modifier_meta: false,
        modifier_alt: false,
        button: Button::MouseLeft,
    }
}

fn threshold_after(threshold: Option<i8>, text: &str) -> Option<i8> {
    let mut hotkey = new_hotkey();
    hotkey.threshold = threshold;
    let mut config = Config { hotkeys: vec![hotkey] };
    assert!(apply_hotkey_change(&mut config, 0, &HotkeyChange::ThresholdChange(text.to_string())));
    config.hotkeys[0].threshold
}

#[test]
fn numbers_are_read_as_the_standard_parser_reads_them() {
    assert_eq!(parse_i8("0"), Some(0));
    assert_eq!(parse_i8("42"), Some(42));
    assert_eq!(parse_i8("+42"), Some(42));
    assert_eq!(parse_i8("-42"), Some(-42));
    assert_eq!(parse_i8("127"), Some(127));
    assert_eq!(parse_i8("-128"), Some(-128));
    assert_eq!(parse_i8("128"), None);
    assert_eq!(parse_i8("-129"), None);
    assert_eq!(parse_i8("0000127"), Some(127));
    assert_eq!(parse_i8("-0"), Some(0));
    assert_eq!(parse_i8(""), None);
    assert_eq!(parse_i8("+"), None);
    assert_eq!(parse_i8("-"), None);
    assert_eq!(parse_i8("+-1"), None);
    assert_eq!(parse_i8("1 "), None);
    assert_eq!(parse_i8(" 1"), None);
    assert_eq!(parse_i8("1a"), None);
    assert_eq!(parse_i8("12345678901234567890"), None);
    assert_eq!(parse_i8("٣"), None);
    assert_eq!(parse_i8("1é"), None);
    let alphabet = ['0', '1', '2', '8', '9', '+', '-', ' ', 'a', 'é'];
    let mut count = 0;
    for length in 0..=4usize {
        for code in 0..alphabet.len().pow(length as u32) {
            let mut text = String::new();
            let mut rest = code;
            for _ in 0..length {
                text.push(alphabet[rest % alphabet.len()]);
                rest /= alphabet.len();
            }
            assert_eq!(parse_i8(&text), text.parse::<i8>().ok(), "{:?}", text);
            count += 1;
        }
    }
    assert!(count > 10000);
    for value in -300..=300i32 {
        let text = value.to_string();
        assert_eq!(parse_i8(&text), text.parse::<i8>().ok());
    }
}

#[test]
fn threshold_field() {
    assert_eq!(MIN_THRESHOLD, 1);
    assert_eq!(MAX_THRESHOLD, 99);
    assert_eq!(threshold_after(Some(30), "45"), Some(45));
    assert_eq!(threshold_after(None, "45"), Some(45));
    assert_eq!(threshold_after(Some(30), ""), None);
    assert_eq!(threshold_after(Some(30), "0"), Some(1));
    assert_eq!(threshold_after(Some(30), "-7"), Some(1));
    assert_eq!(threshold_after(Some(30), "-128"), Some(1));
    assert_eq!(threshold_after(Some(30), "1"), Some(1));
    assert_eq!(threshold_after(Some(30), "99"), Some(99));
    assert_eq!(threshold_after(Some(30), "100"), Some(99));
    assert_eq!(threshold_after(Some(30), "127"), Some(99));
    // what does not spell a number leaves the threshold as it was
    assert_eq!(threshold_after(Some(30), "128"), Some(30));
    assert_eq!(threshold_after(Some(30), "abc"), Some(30));
    assert_eq!(threshold_after(Some(30), "4.5"), Some(30));
    assert_eq!(threshold_after(Some(30), " "), Some(30));
    assert_eq!(threshold_after(None, "x"), None);
}

#[test]
fn changes_to_a_hotkey() {
    let mut config = Config::default();
    assert!(apply_hotkey_change(
        &mut config,
        1,
        &HotkeyChange::BreathDirectionChange(BreathDirection::Sip)
    ));
    assert_eq!(config.hotkeys[1].breath_direction, BreathDirection::Sip);
    assert!(apply_hotkey_change(&mut config, 0, &HotkeyChange::ButtonChange(Button::KeyX)));
    assert_eq!(config.hotkeys[0].button, Button::KeyX);
    assert_eq!(config.hotkeys[1].button, Button::MouseLeft);
    for (modifier, read) in [
        (HotkeyModifier::Shift, (|h: &HotkeyConfig| h.modifier_shift) as fn(&HotkeyConfig) -> bool),
        (HotkeyModifier::Ctrl, |h: &HotkeyConfig| h.modifier_ctrl),
        (HotkeyModifier::Meta, |h: &HotkeyConfig| h.modifier_meta),
        (HotkeyModifier::Alt, |h: &HotkeyConfig| h.modifier_alt),
    ] {
        let before = config.clone();
        assert!(apply_hotkey_change(&mut config, 0, &HotkeyChange::ModifierToggle(modifier)));
        assert!(read(&config.hotkeys[0]));
        assert_eq!(config.hotkeys[1], before.hotkeys[1]);
        assert!(apply_hotkey_change(&mut config, 0, &HotkeyChange::ModifierToggle(modifier)));
        assert_eq!(config, before);
    }
}

#[test]
fn delete_removes_the_hotkey() {
    let mut config = Config::default();
    add_hotkey(&mut config);
    assert!(apply_hotkey_change(&mut config, 1, &HotkeyChange::Delete));
    assert_eq!(config.hotkeys, vec![Config::default().hotkeys[0], new_hotkey()]);
    assert!(apply_hotkey_change(&mut config, 0, &HotkeyChange::Delete));
    assert!(apply_hotkey_change(&mut config, 0, &HotkeyChange::Delete));
    assert!(config.hotkeys.is_empty());
}

#[test]
fn change_to_a_hotkey_that_is_not_there() {
    let mut config = Config::default();
    assert!(!apply_hotkey_change(&mut config, 2, &HotkeyChange::Delete));
    assert!(!apply_hotkey_change(&mut config, usize::MAX, &HotkeyChange::ButtonChange(Button::KeyA)));
    assert!(!apply_hotkey_change(&mut config, 2, &HotkeyChange::ThresholdChange("5".to_string())));
    assert_eq!(config, Config::default());
    let mut empty = Config { hotkeys: vec![] };
    assert!(!apply_hotkey_change(&mut empty, 0, &HotkeyChange::Delete));
}

#[test]
fn adding_hotkeys() {
    let mut config = Config { hotkeys: vec![] };
    assert_eq!(MAX_HOTKEYS, 8);
    for count in 0..8 {
        assert_eq!(config.hotkeys.len(), count);
        assert!(can_add_hotkey(&config));
        add_hotkey(&mut config);
        assert_eq!(config.hotkeys[count], new_hotkey());
    }
    assert!(!can_add_hotkey(&config));
    add_hotkey(&mut config);
    assert_eq!(config.hotkeys.len(), 9);
    assert!(!can_add_hotkey(&config));
}

#[test]
fn decimal_texts() {
    assert_eq!(decimal_string(0), "0");
    assert_eq!(decimal_string(9), "9");
    assert_eq!(decimal_string(10), "10");
    assert_eq!(decimal_string(100), "100");
    assert_eq!(decimal_string(255), "255");
    for number in 0..=u8::MAX {
        assert_eq!(decimal_string(number), number.to_string());
    }
}

#[test]
fn status_follows_the_events() {
    let mut status = DeviceStatus::new();
    assert_eq!(status.latest_device_state, DeviceState::Initial);
    assert_eq!(status.latest_breath_value, 0);
    status.on_event(&DeviceEvent::StateChange(DeviceState::Connected));
    status.on_event(&DeviceEvent::Breath(-40));
    assert_eq!(status.latest_device_state, DeviceState::Connected);
    assert_eq!(status.latest_breath_value, -40);
    status.on_event(&DeviceEvent::StateChange(DeviceState::Scanning { no_permission: false }));
    assert_eq!(status.latest_device_state, DeviceState::Scanning { no_permission: false });
    assert_eq!(status.latest_breath_value, 0);
}

#[test]
fn status_lines() {
    let line = |state: DeviceState, breath: i8| {
        DeviceStatus { latest_device_state: state, latest_breath_value: breath }.label()
    };
    assert_eq!(line(DeviceState::Initial, 0), "");
    assert_eq!(line(DeviceState::Initial, 50), "");
    assert_eq!(line(DeviceState::Scanning { no_permission: false }, 0), "Scanning…");
    assert_eq!(
        line(DeviceState::Scanning { no_permission: true }, 0),
        "Not allowed to access Bluetooth!"
    );
    assert_eq!(line(DeviceState::Connecting, 0), "Connecting…");
    assert_eq!(line(DeviceState::Connected, 0), "0% puff");
    assert_eq!(line(DeviceState::Connected, 7), "7% puff");
    assert_eq!(line(DeviceState::Connected, 100), "100% puff");
    assert_eq!(line(DeviceState::Connected, -1), "1% sip");
    assert_eq!(line(DeviceState::Connected, -45), "45% sip");
    assert_eq!(line(DeviceState::Connected, -100), "100% sip");
    assert_eq!(line(DeviceState::Connected, i8::MIN), "128% sip");
}

#[test]
fn links_that_are_opened() {
    assert!(is_http_link("http://example.org"));
    assert!(is_http_link("https://github.com/Joris-van-der-Wel/groovtube-hotkey"));
    assert!(is_http_link("http://"));
    assert!(is_http_link("https://"));
    assert!(!is_http_link("https:/"));
    assert!(!is_http_link("ftp://example.org"));
    assert!(!is_http_link("file:///etc/passwd"));
    assert!(!is_http_link(" http://example.org"));
    assert!(!is_http_link("HTTP://example.org"));
    assert!(!is_http_link(""));
    assert!(!is_http_link("httpé://"));
    assert!(starts_with("abc", ""));
    assert!(starts_with("", ""));
    assert!(starts_with("äbc", "äb"));
    assert!(!starts_with("ab", "abc"));
    assert!(!starts_with("abd", "abc"));
    for text in ["", "h", "http", "http:/", "http://x", "https://x", "xhttp://"] {
        assert_eq!(
            is_http_link(text),
            text.starts_with("http://") || text.starts_with("https://")
        );
    }
}
