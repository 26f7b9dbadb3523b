use crate::sim::held_buttons::{held_difference, held_new, held_to_vec, held_view, without};
use crate::sim::types::{Button, HeldButtons, InputSimCommand, Key, MouseButton};
use vstd::prelude::*;

verus! {

/// An event of the simulated mouse or keyboard.
#[derive(Debug, Clone, Copy, PartialEq, Eq, Structural)]
pub enum InputEvent {
    /// A mouse button goes down.
    ButtonPress(MouseButton),
    /// A mouse button goes up.
    ButtonRelease(MouseButton),
    /// A key goes down.
    KeyPress(Key),
    /// A key goes up.
    KeyRelease(Key),
}

/// The event that presses a button: a mouse button press for a mouse button,
/// a key press for a key.
pub open spec fn press_of(button: Button) -> InputEvent {
    match button.mouse_button() {
        Some(mouse_button) => InputEvent::ButtonPress(mouse_button),
        None => InputEvent::KeyPress(button.key().unwrap()),
    }
}

/// The event that releases a button: a mouse button release for a mouse
/// button, a key release for a key.
pub open spec fn release_of(button: Button) -> InputEvent {
    match button.mouse_button() {
        Some(mouse_button) => InputEvent::ButtonRelease(mouse_button),
        None => InputEvent::KeyRelease(button.key().unwrap()),
    }
}

/// The events that lead from holding `held` to holding `desired`: first a
/// release for each held button that is not desired, in the order in which
/// they are held, then a press for each desired button that is not held, in
/// the order in which they are desired.
pub open spec fn transition_events(held: Seq<Button>, desired: Seq<Button>) -> Seq<InputEvent> {
    without(held, desired).map_values(|button: Button| release_of(button)) + without(
        desired,
        held,
    ).map_values(|button: Button| press_of(button))
}

/// The event that presses a button.
pub fn press_event(button: Button) -> (event: InputEvent)
    ensures
        event == press_of(button),
{
    match button.rdev_mouse_button() {
        Some(mouse_button) => InputEvent::ButtonPress(mouse_button),
        None => match button.rdev_key() {
            Some(key) => InputEvent::KeyPress(key),
            None => {
                proof {
                    button.lemma_mouse_button_or_key();
                }
                unreached()
            },
        },
    }
}

/// The event that releases a button.
pub fn release_event(button: Button) -> (event: InputEvent)
    ensures
        event == release_of(button),
{
    match button.rdev_mouse_button() {
        Some(mouse_button) => InputEvent::ButtonRelease(mouse_button),
        None => match button.rdev_key() {
            Some(key) => InputEvent::KeyRelease(key),
            None => {
                proof {
                    button.lemma_mouse_button_or_key();
                }
                unreached()
            },
        },
    }
}

/// The input simulation: it knows which buttons it holds down, and turns each
/// new set of buttons to hold into the presses and releases that lead there.
pub struct InputSim {
    /// The buttons that are held down.
    pub held_buttons: HeldButtons,
}

impl InputSim {
    /// The buttons that are held down, in the order in which they were
    /// asked for.
    pub open spec fn held(self) -> Seq<Button> {
        held_view(self.held_buttons)
    }

    /// An input simulation that holds no button.
    pub fn new() -> (sim: InputSim)
        ensures
            sim.held() == Seq::<Button>::empty(),
    {
        InputSim { held_buttons: held_new() }
    }

    /// The buttons that are held down, in the order in which they were
    /// asked for. None of them occurs twice.
    pub fn held_list(&self) -> (buttons: Vec<Button>)
        ensures
            buttons@ == self.held(),
            buttons@.no_duplicates(),
    {
        held_to_vec(&self.held_buttons)
    }

    /// Holds exactly `new_buttons` from now on. Gives the events to simulate,
    /// in their order: the releases, then the presses.
    pub fn set_held_buttons(&mut self, new_buttons: HeldButtons) -> (events: Vec<InputEvent>)
        ensures
            events@ == transition_events(old(self).held(), held_view(new_buttons)),
            final(self).held() == held_view(new_buttons),
            final(self).held_buttons == new_buttons,
    {
        let to_release = held_difference(&self.held_buttons, &new_buttons);
        let to_press = held_difference(&new_buttons, &self.held_buttons);
        let ghost releases = to_release@.map_values(|button: Button| release_of(button));
        let ghost presses = to_press@.map_values(|button: Button| press_of(button));
        let mut events: Vec<InputEvent> = Vec::new();
        let mut i: usize = 0;
        while i < to_release.len()
            invariant
                i <= to_release.len(),
                releases == to_release@.map_values(|button: Button| release_of(button)),
                events@ == releases.take(i as int),
            decreases to_release.len() - i,
        {
            events.push(release_event(to_release[i]));
            i += 1;
        }
        let mut j: usize = 0;
        while j < to_press.len()
            invariant
                j <= to_press.len(),
                presses == to_press@.map_values(|button: Button| press_of(button)),
                events@ == releases + presses.take(j as int),
            decreases to_press.len() - j,
        {
            events.push(press_event(to_press[j]));
            assert(releases + presses.take(j + 1) == (releases + presses.take(j as int)).push(
                presses[j as int],
            ));
            j += 1;
        }
        self.held_buttons = new_buttons;
        events
    }

    /// Carries out a command. Gives the events to simulate, in their order.
    pub fn on_command(&mut self, command: InputSimCommand) -> (events: Vec<InputEvent>)
        ensures
            command matches InputSimCommand::SetHeldButtons(new_buttons) ==> {
                &&& events@ == transition_events(old(self).held(), held_view(new_buttons))
                &&& final(self).held() == held_view(new_buttons)
            },
    {
        match command {
            InputSimCommand::SetHeldButtons(new_buttons) => self.set_held_buttons(new_buttons),
        }
    }
}

/// Asking for the buttons that are held already gives no event, in whatever
/// order they are asked for. So asking twice for the same buttons gives no
/// event the second time.
pub proof fn lemma_same_buttons_no_events(held: Seq<Button>, desired: Seq<Button>)
    requires
        forall|button: Button| held.contains(button) <==> desired.contains(button),
    ensures
        transition_events(held, desired) == Seq::<InputEvent>::empty(),
{
    lemma_without_contains(held, desired);
    lemma_without_contains(desired, held);
    assert(without(held, desired).len() == 0) by {
        if without(held, desired).len() > 0 {
            assert(without(held, desired).contains(without(held, desired)[0]));
        }
    }
    assert(without(desired, held).len() == 0) by {
        if without(desired, held).len() > 0 {
            assert(without(desired, held).contains(without(desired, held)[0]));
        }
    }
}

/// The releases are the held buttons that are not desired and the presses
/// are the desired buttons that are not held: so the buttons held, less those
/// released, with those pressed, are the desired buttons.
pub proof fn lemma_transition_reaches_desired(held: Seq<Button>, desired: Seq<Button>)
    ensures
        forall|button: Button|
            without(held, desired).contains(button) <==> held.contains(button)
                && !desired.contains(button),
        forall|button: Button|
            without(desired, held).contains(button) <==> desired.contains(button)
                && !held.contains(button),
        forall|button: Button|
            desired.contains(button) <==> (held.contains(button) && !without(
                held,
                desired,
            ).contains(button)) || without(desired, held).contains(button),
        transition_events(held, desired).len() == without(held, desired).len() + without(
            desired,
            held,
        ).len(),
{
    lemma_without_contains(held, desired);
    lemma_without_contains(desired, held);
}

/// `without` holds the buttons of the first list that the second lacks.
pub proof fn lemma_without_contains(buttons: Seq<Button>, other: Seq<Button>)
    ensures
        forall|button: Button|
            without(buttons, other).contains(button) <==> buttons.contains(button)
                && !other.contains(button),
{
    let lacking = |button: Button| !other.contains(button);
    assert forall|button: Button| without(buttons, other).contains(button)
        <==> buttons.contains(button) && !other.contains(button) by {
        if without(buttons, other).contains(button) {
            let i = choose|i: int|
                0 <= i < buttons.filter(lacking).len() && buttons.filter(lacking)[i] == button;
            buttons.lemma_filter_pred(lacking, i);
            buttons.lemma_filter_contains_rev(lacking, button);
        }
        if buttons.contains(button) && !other.contains(button) {
            let k = choose|k: int| 0 <= k < buttons.len() && buttons[k] == button;
            buttons.lemma_filter_contains(lacking, k);
        }
    }
}

} // verus!
