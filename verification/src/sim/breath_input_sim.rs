use crate::config::order::{
    is_stable_sort, lemma_sorted_hotkeys_is_stable_sort, sort_hotkeys_by, sorted_hotkeys,
    HotkeyOrder,
};
use crate::config::types::{BreathDirection, Config, HotkeyConfig};
use crate::device::types::DeviceEvent;
use crate::sim::held_buttons::{held_insert, held_new, held_view, with_button};
use crate::sim::types::{BreathInputSimCommand, Button, HeldButtons};
use vstd::prelude::*;

verus! {

/// The direction of a breath value: a negative value is a sip, any other a
/// puff.
pub open spec fn breath_direction(breath: i8) -> BreathDirection {
    if breath < 0 {
        BreathDirection::Sip
    } else {
        BreathDirection::Puff
    }
}

/// The strength of a breath value: its distance from rest.
pub open spec fn breath_strength(breath: i8) -> int {
    if breath < 0 {
        -(breath as int)
    } else {
        breath as int
    }
}

/// The hotkey has a threshold, and the strength reaches it.
pub open spec fn triggers(hotkey: HotkeyConfig, strength: int) -> bool {
    hotkey.threshold matches Some(threshold) && threshold <= strength
}

/// The hotkeys of one direction, in their order.
pub open spec fn of_direction(hotkeys: Seq<HotkeyConfig>, direction: BreathDirection) -> Seq<
    HotkeyConfig,
> {
    hotkeys.filter(|hotkey: HotkeyConfig| hotkey.breath_direction == direction)
}

/// The hotkeys of one direction in the order in which they are tried: the
/// stronger threshold first, hotkeys of equal threshold in the order of the
/// table.
pub open spec fn matching_list(hotkeys: Seq<HotkeyConfig>, direction: BreathDirection) -> Seq<
    HotkeyConfig,
> {
    sorted_hotkeys(of_direction(hotkeys, direction), HotkeyOrder::Matching)
}

/// Place `i` holds the first hotkey of the list that the strength triggers.
pub open spec fn is_first_triggered(list: Seq<HotkeyConfig>, strength: int, i: int) -> bool {
    &&& 0 <= i < list.len()
    &&& triggers(list[i], strength)
    &&& forall|j: int| 0 <= j < i ==> !triggers(#[trigger] list[j], strength)
}

/// The first hotkey of the list that the strength triggers, if there is one.
pub open spec fn first_triggered(list: Seq<HotkeyConfig>, strength: int) -> Option<HotkeyConfig> {
    if exists|i: int| is_first_triggered(list, strength, i) {
        Some(list[choose|i: int| is_first_triggered(list, strength, i)])
    } else {
        None
    }
}

/// Place `i` of the table holds a hotkey of the direction that the strength
/// triggers.
pub open spec fn is_candidate(
    table: Seq<HotkeyConfig>,
    direction: BreathDirection,
    strength: int,
    i: int,
) -> bool {
    &&& 0 <= i < table.len()
    &&& table[i].breath_direction == direction
    &&& triggers(table[i], strength)
}

/// Place `i` of the table holds the hotkey that a breath of the direction
/// and strength selects: among the hotkeys of the direction that the
/// strength triggers, the one with the strongest threshold, and among
/// several of those the first of the table.
pub open spec fn is_selected(
    table: Seq<HotkeyConfig>,
    direction: BreathDirection,
    strength: int,
    i: int,
) -> bool {
    &&& is_candidate(table, direction, strength, i)
    &&& forall|j: int| #[trigger]
        is_candidate(table, direction, strength, j) ==> {
            ||| table[j].threshold.unwrap() < table[i].threshold.unwrap()
            ||| (table[j].threshold.unwrap() == table[i].threshold.unwrap() && i <= j)
        }
}

/// The hotkey of the table that a breath of the direction and strength
/// selects, if there is one.
pub open spec fn selected_hotkey(
    table: Seq<HotkeyConfig>,
    direction: BreathDirection,
    strength: int,
) -> Option<HotkeyConfig> {
    if exists|i: int| is_selected(table, direction, strength, i) {
        Some(table[choose|i: int| is_selected(table, direction, strength, i)])
    } else {
        None
    }
}

/// The buttons that a hotkey holds down: the left shift, control and meta
/// keys and the alt key, as far as the hotkey asks for them, then its button
/// unless that is one of those already.
pub open spec fn hotkey_buttons(hotkey: HotkeyConfig) -> Seq<Button> {
    let none = Seq::<Button>::empty();
    let shift = if hotkey.modifier_shift {
        with_button(none, Button::ShiftLeft)
    } else {
        none
    };
    let ctrl = if hotkey.modifier_ctrl {
        with_button(shift, Button::ControlLeft)
    } else {
        shift
    };
    let meta = if hotkey.modifier_meta {
        with_button(ctrl, Button::MetaLeft)
    } else {
        ctrl
    };
    let alt = if hotkey.modifier_alt {
        with_button(meta, Button::Alt)
    } else {
        meta
    };
    with_button(alt, hotkey.button)
}

/// The buttons to hold for a selection: those of the hotkey, or none where
/// no hotkey is selected.
pub open spec fn desired_buttons(selected: Option<HotkeyConfig>) -> Seq<Button> {
    match selected {
        Some(hotkey) => hotkey_buttons(hotkey),
        None => Seq::empty(),
    }
}

/// At most one place holds the first triggered hotkey.
pub proof fn lemma_first_triggered_unique(list: Seq<HotkeyConfig>, strength: int, i: int, j: int)
    requires
        is_first_triggered(list, strength, i),
        is_first_triggered(list, strength, j),
    ensures
        i == j,
{
}

/// At most one place holds the selected hotkey.
pub proof fn lemma_selected_unique(
    table: Seq<HotkeyConfig>,
    direction: BreathDirection,
    strength: int,
    i: int,
    j: int,
)
    requires
        is_selected(table, direction, strength, i),
        is_selected(table, direction, strength, j),
    ensures
        i == j,
{
    assert(is_candidate(table, direction, strength, i));
    assert(is_candidate(table, direction, strength, j));
}

/// The hotkeys of one direction are those of the table in the same order:
/// `places[k]` is the place in the table of hotkey `k` of the direction.
pub open spec fn is_selection_of(
    table: Seq<HotkeyConfig>,
    direction: BreathDirection,
    places: Seq<int>,
) -> bool {
    let part = of_direction(table, direction);
    &&& places.len() == part.len()
    &&& forall|k: int|
        0 <= k < places.len() ==> 0 <= #[trigger] places[k] < table.len() && table[places[k]]
            == part[k] && part[k].breath_direction == direction
    &&& forall|k: int, l: int|
        0 <= k < l < places.len() ==> #[trigger] places[k] < #[trigger] places[l]
    &&& forall|i: int|
        0 <= i < table.len() && (#[trigger] table[i]).breath_direction == direction
            ==> places.contains(i)
}

/// `of_direction` keeps the hotkeys of the direction, all of them, in the
/// order of the table: the places that the lemma hands back show it.
pub proof fn lemma_of_direction(table: Seq<HotkeyConfig>, direction: BreathDirection) -> (places:
    Seq<int>)
    ensures
        is_selection_of(table, direction, places),
    decreases table.len(),
{
    reveal(Seq::filter);
    if table.len() == 0 {
        Seq::empty()
    } else {
        let shorter = table.drop_last();
        let last = table.len() - 1;
        let before = lemma_of_direction(shorter, direction);
        let part_before = of_direction(shorter, direction);
        let part = of_direction(table, direction);
        if table.last().breath_direction == direction {
            let places = before.push(last);
            assert(part == part_before.push(table.last()));
            assert forall|k: int| 0 <= k < places.len() implies 0 <= #[trigger] places[k]
                < table.len() && table[places[k]] == part[k] && part[k].breath_direction
                == direction by {
                if k < before.len() {
                    assert(places[k] == before[k]);
                    assert(shorter[before[k]] == table[before[k]]);
                }
            }
            assert forall|k: int, l: int| 0 <= k < l < places.len() implies #[trigger] places[k]
                < #[trigger] places[l] by {
                assert(places[k] == before[k]);
                if l < before.len() {
                    assert(places[l] == before[l]);
                }
            }
            assert forall|i: int|
                0 <= i < table.len() && (#[trigger] table[i]).breath_direction
                    == direction implies places.contains(i) by {
                if i == last {
                    assert(places[before.len() as int] == last);
                } else {
                    assert(shorter[i] == table[i]);
                    assert(before.contains(i));
                    let k = choose|k: int| 0 <= k < before.len() && before[k] == i;
                    assert(places[k] == i);
                }
            }
            places
        } else {
            assert(part == part_before);
            assert forall|k: int| 0 <= k < before.len() implies 0 <= #[trigger] before[k]
                < table.len() && table[before[k]] == part[k] && part[k].breath_direction
                == direction by {
                assert(shorter[before[k]] == table[before[k]]);
            }
            assert forall|i: int|
                0 <= i < table.len() && (#[trigger] table[i]).breath_direction
                    == direction implies before.contains(i) by {
                assert(shorter[i] == table[i]);
            }
            before
        }
    }
}

/// The place that `outer` gives for the place that `inner` gives for `k`.
pub open spec fn composed(outer: Seq<int>, inner: Seq<int>, k: int) -> int {
    outer[inner[k]]
}

/// Trying the hotkeys of a direction in matching order, and taking the first
/// that the strength triggers, selects the hotkey with the strongest
/// threshold that the strength reaches, and among several with that
/// threshold the first of the table.
pub proof fn lemma_first_triggered_is_selected(
    table: Seq<HotkeyConfig>,
    direction: BreathDirection,
    strength: int,
)
    ensures
        first_triggered(matching_list(table, direction), strength) == selected_hotkey(
            table,
            direction,
            strength,
        ),
        first_triggered(matching_list(table, direction), strength) is None <==> forall|i: int|
            !is_candidate(table, direction, strength, i),
{
    let part = of_direction(table, direction);
    let list = matching_list(table, direction);
    let in_table = lemma_of_direction(table, direction);
    let in_part = lemma_sorted_hotkeys_is_stable_sort(part, HotkeyOrder::Matching);
    assert(is_stable_sort(part, list, HotkeyOrder::Matching, in_part));
    // Place k of the list is place composed(in_table, in_part, k) of the table.
    assert forall|k: int| 0 <= k < list.len() implies {
        let place = composed(in_table, in_part, k);
        &&& 0 <= place < table.len()
        &&& table[place] == #[trigger] list[k]
        &&& table[place].breath_direction == direction
    } by {
        let p = in_part[k];
        assert(list[k] == part[p]);
        assert(table[in_table[p]] == part[p]);
    }
    // Every candidate of the table stands somewhere in the list.
    assert forall|i: int| is_candidate(table, direction, strength, i) implies exists|k: int|
        0 <= k < list.len() && #[trigger] composed(in_table, in_part, k) == i by {
        assert(in_table.contains(i));
        let p = choose|p: int| 0 <= p < in_table.len() && in_table[p] == i;
        assert(in_part.contains(p));
        let k = choose|k: int| 0 <= k < in_part.len() && in_part[k] == p;
        assert(composed(in_table, in_part, k) == i);
    }
    if exists|k: int| is_first_triggered(list, strength, k) {
        let k = choose|k: int| is_first_triggered(list, strength, k);
        let i = composed(in_table, in_part, k);
        assert(table[i] == list[k]);
        assert(is_candidate(table, direction, strength, i));
        assert forall|j: int| #[trigger]
            is_candidate(table, direction, strength, j) implies {
            ||| table[j].threshold.unwrap() < table[i].threshold.unwrap()
            ||| (table[j].threshold.unwrap() == table[i].threshold.unwrap() && i <= j)
        } by {
            let l = choose|l: int|
                0 <= l < list.len() && #[trigger] composed(in_table, in_part, l) == j;
            assert(table[j] == list[l]);
            if l < k {
                assert(!triggers(list[l], strength));
            } else if l > k {
                assert(HotkeyOrder::Matching.key(list[k]) <= HotkeyOrder::Matching.key(list[l]));
                if table[j].threshold.unwrap() == table[i].threshold.unwrap() {
                    assert(in_part[k] < in_part[l]);
                    assert(in_table[in_part[k]] < in_table[in_part[l]]);
                }
            }
        }
        assert(is_selected(table, direction, strength, i));
        let chosen = choose|i: int| is_selected(table, direction, strength, i);
        lemma_selected_unique(table, direction, strength, i, chosen);
    } else {
        assert forall|i: int| !is_candidate(table, direction, strength, i) by {
            if is_candidate(table, direction, strength, i) {
                let l = choose|l: int|
                    0 <= l < list.len() && #[trigger] composed(in_table, in_part, l) == i;
                assert(table[i] == list[l]);
                lemma_some_triggered_has_first(list, strength, l);
            }
        }
        assert forall|i: int| !is_selected(table, direction, strength, i) by {
            assert(!is_candidate(table, direction, strength, i));
        }
    }
}

/// Where a hotkey of the list is triggered, one of them is the first.
pub proof fn lemma_some_triggered_has_first(list: Seq<HotkeyConfig>, strength: int, l: int)
    requires
        0 <= l < list.len(),
        triggers(list[l], strength),
    ensures
        exists|k: int| is_first_triggered(list, strength, k),
    decreases l,
{
    if exists|j: int| 0 <= j < l && triggers(list[j], strength) {
        let j = choose|j: int| 0 <= j < l && triggers(list[j], strength);
        lemma_some_triggered_has_first(list, strength, j);
    } else {
        assert(is_first_triggered(list, strength, l));
    }
}

/// The mapping from breath to buttons: it keeps the hotkeys of each direction
/// in the order in which they are tried, and maps a breath value to the
/// buttons of the hotkey that the value selects.
pub struct BreathInputSim {
    /// The hotkeys that puffing triggers, the strongest threshold first.
    pub puff_hotkeys: Vec<HotkeyConfig>,
    /// The hotkeys that sipping triggers, the strongest threshold first.
    pub sip_hotkeys: Vec<HotkeyConfig>,
}

impl BreathInputSim {
    /// The mapping works on this hotkey table.
    pub open spec fn holds(self, table: Seq<HotkeyConfig>) -> bool {
        &&& self.puff_hotkeys@ == matching_list(table, BreathDirection::Puff)
        &&& self.sip_hotkeys@ == matching_list(table, BreathDirection::Sip)
    }

    /// The list that is tried for a breath value.
    pub open spec fn list_for(self, breath: i8) -> Seq<HotkeyConfig> {
        match breath_direction(breath) {
            BreathDirection::Puff => self.puff_hotkeys@,
            BreathDirection::Sip => self.sip_hotkeys@,
        }
    }

    /// The hotkey that a breath value selects.
    pub open spec fn selected(self, breath: i8) -> Option<HotkeyConfig> {
        first_triggered(self.list_for(breath), breath_strength(breath))
    }

    /// A mapping without hotkeys.
    pub fn new() -> (sim: BreathInputSim)
        ensures
            sim.puff_hotkeys@ == Seq::<HotkeyConfig>::empty(),
            sim.sip_hotkeys@ == Seq::<HotkeyConfig>::empty(),
            sim.holds(Seq::empty()),
    {
        proof {
            reveal(Seq::filter);
            assert(of_direction(Seq::empty(), BreathDirection::Puff) == Seq::<
                HotkeyConfig,
            >::empty());
            assert(of_direction(Seq::empty(), BreathDirection::Sip) == Seq::<
                HotkeyConfig,
            >::empty());
        }
        BreathInputSim { puff_hotkeys: Vec::new(), sip_hotkeys: Vec::new() }
    }

    /// Works on the hotkeys of `config` from now on.
    pub fn set_config(&mut self, config: Config)
        ensures
            final(self).holds(config.hotkeys@),
    {
        let mut puff: Vec<HotkeyConfig> = Vec::new();
        let mut sip: Vec<HotkeyConfig> = Vec::new();
        let hotkeys = config.hotkeys;
        let mut i: usize = 0;
        proof {
            reveal(Seq::filter);
            assert(hotkeys@.take(0) == Seq::<HotkeyConfig>::empty());
        }
        while i < hotkeys.len()
            invariant
                i <= hotkeys.len(),
                puff@ == of_direction(hotkeys@.take(i as int), BreathDirection::Puff),
                sip@ == of_direction(hotkeys@.take(i as int), BreathDirection::Sip),
            decreases hotkeys.len() - i,
        {
            let hotkey = hotkeys[i];
            proof {
                reveal(Seq::filter);
                assert(hotkeys@.take(i + 1).drop_last() == hotkeys@.take(i as int));
                assert(hotkeys@.take(i + 1).last() == hotkey);
            }
            match hotkey.breath_direction {
                BreathDirection::Puff => puff.push(hotkey),
                BreathDirection::Sip => sip.push(hotkey),
            }
            i += 1;
        }
        assert(hotkeys@.take(i as int) == hotkeys@);
        sort_hotkeys_by(&mut puff, HotkeyOrder::Matching);
        sort_hotkeys_by(&mut sip, HotkeyOrder::Matching);
        self.puff_hotkeys = puff;
        self.sip_hotkeys = sip;
    }

    /// Carries out a command.
    pub fn on_command(&mut self, command: BreathInputSimCommand)
        ensures
            command matches BreathInputSimCommand::SetConfig(config) ==> final(self).holds(
                config.hotkeys@,
            ),
    {
        match command {
            BreathInputSimCommand::SetConfig(config) => self.set_config(config),
        }
    }

    /// The hotkey that a breath value selects: the first in the list of its
    /// direction whose threshold the strength of the breath reaches.
    pub fn select_hotkey(&self, breath: i8) -> (selected: Option<HotkeyConfig>)
        ensures
            selected == self.selected(breath),
            selected matches Some(hotkey) ==> self.list_for(breath).contains(hotkey) && triggers(
                hotkey,
                breath_strength(breath),
            ),
    {
        let hotkeys = if breath < 0 {
            &self.sip_hotkeys
        } else {
            &self.puff_hotkeys
        };
        let strength: i16 = if breath < 0 {
            -(breath as i16)
        } else {
            breath as i16
        };
        let mut i: usize = 0;
        while i < hotkeys.len()
            invariant
                i <= hotkeys.len(),
                hotkeys@ == self.list_for(breath),
                strength == breath_strength(breath),
                forall|j: int| 0 <= j < i ==> !triggers(#[trigger] hotkeys@[j], strength as int),
            decreases hotkeys.len() - i,
        {
            let hotkey = hotkeys[i];
            if let Some(threshold) = hotkey.threshold {
                if strength >= threshold as i16 {
                    proof {
                        assert(is_first_triggered(hotkeys@, strength as int, i as int));
                        let chosen = choose|k: int|
                            is_first_triggered(hotkeys@, strength as int, k);
                        lemma_first_triggered_unique(hotkeys@, strength as int, i as int, chosen);
                    }
                    return Some(hotkey);
                }
            }
            i += 1;
        }
        None
    }

    /// The buttons to hold for a breath value: those of the hotkey that the
    /// value selects, or none where it selects no hotkey.
    pub fn buttons_for(&self, breath: i8) -> (buttons: HeldButtons)
        ensures
            held_view(buttons) == desired_buttons(self.selected(breath)),
    {
        let mut buttons = held_new();
        if let Some(hotkey) = self.select_hotkey(breath) {
            if hotkey.modifier_shift {
                held_insert(&mut buttons, Button::ShiftLeft);
            }
            if hotkey.modifier_ctrl {
                held_insert(&mut buttons, Button::ControlLeft);
            }
            if hotkey.modifier_meta {
                held_insert(&mut buttons, Button::MetaLeft);
            }
            if hotkey.modifier_alt {
                held_insert(&mut buttons, Button::Alt);
            }
            held_insert(&mut buttons, hotkey.button);
        }
        buttons
    }

    /// Takes an event of the sensor. A breath event gives the buttons to hold
    /// from now on; any other event gives nothing.
    pub fn on_event(&self, event: &DeviceEvent) -> (buttons: Option<HeldButtons>)
        ensures
            match *event {
                DeviceEvent::Breath(breath) => buttons matches Some(held) && held_view(held)
                    == desired_buttons(self.selected(breath)),
                DeviceEvent::StateChange(_) => buttons is None,
            },
    {
        match event {
            DeviceEvent::Breath(breath) => Some(self.buttons_for(*breath)),
            DeviceEvent::StateChange(_) => None,
        }
    }

    /// A mapping that works on a table maps a breath value to the hotkey of
    /// its direction with the strongest threshold that its strength
    /// reaches, and among several with that threshold to the first of the
    /// table; to none if its strength reaches no threshold of its direction.
    pub proof fn lemma_selects_strongest(self, table: Seq<HotkeyConfig>, breath: i8)
        requires
            self.holds(table),
        ensures
            self.selected(breath) == selected_hotkey(
                table,
                breath_direction(breath),
                breath_strength(breath),
            ),
            self.selected(breath) is None <==> forall|i: int|
                !is_candidate(table, breath_direction(breath), breath_strength(breath), i),
    {
        lemma_first_triggered_is_selected(
            table,
            breath_direction(breath),
            breath_strength(breath),
        );
    }
}

} // verus!
