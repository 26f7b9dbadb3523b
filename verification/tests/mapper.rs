use groovtube_hotkey::config::types::{BreathDirection, Config, HotkeyConfig};
use groovtube_hotkey::device::types::{DeviceEvent, DeviceState};
use groovtube_hotkey::sim::breath_input_sim::BreathInputSim;
use groovtube_hotkey::sim::types::{BreathInputSimCommand, Button, HeldButtons};

fn hotkey(direction: BreathDirection, threshold: Option<i8>, button: Button) -> HotkeyConfig {
    HotkeyConfig {
        breath_direction: direction,
        threshold,
        modifier_shift: false,
        modifier_ctrl: false,
        modifier_meta: false,
        modifier_alt: false,
        button,
    }
}

fn buttons(list: &[Button]) -> HeldButtons {
    let mut set = HeldButtons::new();
    for button in list {
        set.insert(*button);
    }
    set
}

fn in_order(set: &HeldButtons) -> Vec<Button> {
    set.iter().copied().collect()
}

fn mapping(hotkeys: Vec<HotkeyConfig>) -> BreathInputSim {
    let mut sim = BreathInputSim::new();
    sim.set_config(Config { hotkeys });
    sim
}

/// The selection written out over the table: the strongest threshold that
/// the strength reaches, the first of the table among equals.
fn selected_by_table(table: &[HotkeyConfig], breath: i8) -> Option<HotkeyConfig> {
    let direction = if breath < 0 { BreathDirection::Sip } else { BreathDirection::Puff };
    let strength = (breath as i16).abs();
    let mut best: Option<HotkeyConfig> = None;
    for hotkey in table {
        if hotkey.breath_direction != direction {
            continue;
        }
        if let Some(threshold) = hotkey.threshold {
            if (threshold as i16) <= strength {
                let better = match best {
                    None => true,
                    Some(b) => b.threshold.unwrap() < threshold,
                };
                if better {
                    best = Some(*hotkey);
                }
            }
        }
    }
    best
}

#[test]
fn default_hotkeys_select_by_direction_and_threshold() {
    let sim = mapping(Config::default().hotkeys);
    assert_eq!(sim.buttons_for(-45), buttons(&[Button::MouseRight]));
    assert_eq!(sim.buttons_for(10), buttons(&[]));
    assert_eq!(sim.buttons_for(45), buttons(&[Button::MouseLeft]));
    assert_eq!(sim.buttons_for(-10), buttons(&[]));
    assert_eq!(sim.buttons_for(0), buttons(&[]));
}

#[test]
fn threshold_is_reached_at_equality() {
    let sim = mapping(Config::default().hotkeys);
    assert_eq!(sim.buttons_for(29), buttons(&[]));
    assert_eq!(sim.buttons_for(30), buttons(&[Button::MouseLeft]));
    assert_eq!(sim.buttons_for(-29), buttons(&[]));
    assert_eq!(sim.buttons_for(-30), buttons(&[Button::MouseRight]));
    assert_eq!(sim.buttons_for(100), buttons(&[Button::MouseLeft]));
    assert_eq!(sim.buttons_for(-100), buttons(&[Button::MouseRight]));
}

#[test]
fn strongest_reached_threshold_wins() {
    let table = vec![
        hotkey(BreathDirection::Puff, Some(20), Button::KeyA),
        hotkey(BreathDirection::Puff, Some(50), Button::KeyB),
    ];
    let sim = mapping(table.clone());
    assert_eq!(sim.select_hotkey(60), Some(table[1]));
    assert_eq!(sim.select_hotkey(30), Some(table[0]));
    assert_eq!(sim.select_hotkey(19), None);
    assert_eq!(sim.buttons_for(60), buttons(&[Button::KeyB]));
    assert_eq!(sim.buttons_for(30), buttons(&[Button::KeyA]));
    // the other way round in the table
    let sim = mapping(vec![table[1], table[0]]);
    assert_eq!(sim.select_hotkey(60), Some(table[1]));
    assert_eq!(sim.select_hotkey(30), Some(table[0]));
}

#[test]
fn first_of_the_table_wins_among_equal_thresholds() {
    let table = vec![
        hotkey(BreathDirection::Sip, Some(40), Button::KeyA),
        hotkey(BreathDirection::Puff, Some(40), Button::KeyB),
        hotkey(BreathDirection::Puff, Some(40), Button::KeyC),
        hotkey(BreathDirection::Puff, Some(10), Button::KeyD),
        hotkey(BreathDirection::Sip, Some(40), Button::KeyE),
    ];
    let sim = mapping(table.clone());
    assert_eq!(sim.select_hotkey(40), Some(table[1]));
    assert_eq!(sim.select_hotkey(-40), Some(table[0]));
    assert_eq!(sim.select_hotkey(39), Some(table[3]));
    assert_eq!(sim.select_hotkey(-39), None);
}

#[test]
fn hotkey_without_threshold_never_triggers() {
    let table = vec![
        hotkey(BreathDirection::Puff, None, Button::KeyA),
        hotkey(BreathDirection::Sip, None, Button::KeyB),
    ];
    let sim = mapping(table);
    for breath in i8::MIN..=i8::MAX {
        assert_eq!(sim.select_hotkey(breath), None);
        assert!(sim.buttons_for(breath).is_empty());
    }
}

#[test]
fn lists_are_parted_by_direction_and_sorted() {
    let table = vec![
        hotkey(BreathDirection::Puff, Some(10), Button::KeyA),
        hotkey(BreathDirection::Sip, Some(70), Button::KeyB),
        hotkey(BreathDirection::Puff, None, Button::KeyC),
        hotkey(BreathDirection::Puff, Some(90), Button::KeyD),
        hotkey(BreathDirection::Sip, Some(-5), Button::KeyE),
        hotkey(BreathDirection::Puff, Some(10), Button::KeyF),
        hotkey(BreathDirection::Sip, None, Button::KeyG),
        hotkey(BreathDirection::Sip, Some(80), Button::KeyH),
        hotkey(BreathDirection::Puff, Some(0), Button::KeyI),
    ];
    let sim = mapping(table.clone());
    // as a stable sort by descending threshold, none counting as 0, then a
    // partition gives it
    let mut sorted = table.clone();
    sorted.sort_by(|a, b| b.threshold.unwrap_or(0).cmp(&a.threshold.unwrap_or(0)));
    let (puff, sip): (Vec<HotkeyConfig>, Vec<HotkeyConfig>) =
        sorted.into_iter().partition(|h| h.breath_direction == BreathDirection::Puff);
    assert_eq!(sim.puff_hotkeys, puff);
    assert_eq!(sim.sip_hotkeys, sip);
    assert_eq!(
        sim.puff_hotkeys.iter().map(|h| h.button).collect::<Vec<_>>(),
        vec![Button::KeyD, Button::KeyA, Button::KeyF, Button::KeyC, Button::KeyI]
    );
    assert_eq!(
        sim.sip_hotkeys.iter().map(|h| h.button).collect::<Vec<_>>(),
        vec![Button::KeyH, Button::KeyB, Button::KeyG, Button::KeyE]
    );
}

#[test]
fn selection_is_the_strongest_of_the_table_for_every_breath() {
    let tables: Vec<Vec<HotkeyConfig>> = vec![
        vec![],
        Config::default().hotkeys,
        vec![
            hotkey(BreathDirection::Puff, Some(10), Button::KeyA),
            hotkey(BreathDirection::Sip, Some(70), Button::KeyB),
            hotkey(BreathDirection::Puff, None, Button::KeyC),
            hotkey(BreathDirection::Puff, Some(90), Button::KeyD),
            hotkey(BreathDirection::Sip, Some(-5), Button::KeyE),
            hotkey(BreathDirection::Puff, Some(10), Button::KeyF),
            hotkey(BreathDirection::Sip, None, Button::KeyG),
            hotkey(BreathDirection::Sip, Some(80), Button::KeyH),
            hotkey(BreathDirection::Puff, Some(0), Button::KeyI),
            hotkey(BreathDirection::Sip, Some(127), Button::KeyJ),
            hotkey(BreathDirection::Puff, Some(-128), Button::KeyK),
        ],
    ];
    for table in tables {
        let sim = mapping(table.clone());
        for breath in i8::MIN..=i8::MAX {
            assert_eq!(sim.select_hotkey(breath), selected_by_table(&table, breath), "{}", breath);
        }
    }
}

#[test]
fn modifiers_come_before_the_button() {
    let mut h = hotkey(BreathDirection::Puff, Some(1), Button::KeyV);
    h.modifier_shift = true;
    h.modifier_ctrl = true;
    h.modifier_meta = true;
    h.modifier_alt = true;
    let sim = mapping(vec![h]);
    assert_eq!(
        in_order(&sim.buttons_for(1)),
        vec![Button::ShiftLeft, Button::ControlLeft, Button::MetaLeft, Button::Alt, Button::KeyV]
    );
    h.modifier_ctrl = false;
    h.modifier_alt = false;
    let sim = mapping(vec![h]);
    assert_eq!(
        in_order(&sim.buttons_for(1)),
        vec![Button::ShiftLeft, Button::MetaLeft, Button::KeyV]
    );
}

#[test]
fn button_that_is_its_own_modifier_is_held_once() {
    let mut h = hotkey(BreathDirection::Sip, Some(5), Button::ShiftLeft);
    h.modifier_shift = true;
    h.modifier_alt = true;
    let sim = mapping(vec![h]);
    assert_eq!(in_order(&sim.buttons_for(-5)), vec![Button::ShiftLeft, Button::Alt]);
    let mut h = hotkey(BreathDirection::Sip, Some(5), Button::Alt);
    h.modifier_alt = true;
    let sim = mapping(vec![h]);
    assert_eq!(in_order(&sim.buttons_for(-5)), vec![Button::Alt]);
}

#[test]
fn new_mapping_has_no_hotkeys() {
    let sim = BreathInputSim::new();
    assert!(sim.puff_hotkeys.is_empty());
    assert!(sim.sip_hotkeys.is_empty());
    assert!(sim.buttons_for(100).is_empty());
    assert!(sim.buttons_for(-100).is_empty());
}

#[test]
fn new_config_replaces_the_old_one() {
    let mut sim = mapping(Config::default().hotkeys);
    sim.on_command(BreathInputSimCommand::SetConfig(Config {
        hotkeys: vec![hotkey(BreathDirection::Puff, Some(60), Button::Space)],
    }));
    assert_eq!(sim.buttons_for(45), buttons(&[]));
    assert_eq!(sim.buttons_for(60), buttons(&[Button::Space]));
    assert_eq!(sim.buttons_for(-45), buttons(&[]));
    sim.set_config(Config { hotkeys: vec![] });
    assert_eq!(sim.buttons_for(60), buttons(&[]));
}

#[test]
fn only_breath_events_give_buttons() {
    let sim = mapping(Config::default().hotkeys);
    assert_eq!(sim.on_event(&DeviceEvent::Breath(-45)), Some(buttons(&[Button::MouseRight])));
    assert_eq!(sim.on_event(&DeviceEvent::Breath(0)), Some(buttons(&[])));
    assert_eq!(sim.on_event(&DeviceEvent::StateChange(DeviceState::Connected)), None);
    assert_eq!(sim.on_event(&DeviceEvent::StateChange(DeviceState::Initial)), None);
}

#[test]
fn strongest_sip_of_the_type_is_a_sip_of_strength_128() {
    let table = vec![
        hotkey(BreathDirection::Sip, Some(127), Button::KeyA),
        hotkey(BreathDirection::Puff, Some(127), Button::KeyB),
    ];
    let sim = mapping(table.clone());
    assert_eq!(sim.select_hotkey(i8::MIN), Some(table[0]));
    assert_eq!(sim.select_hotkey(i8::MAX), Some(table[1]));
    assert_eq!(sim.select_hotkey(-126), None);
}
