use crate::config::types::{BreathDirection, HotkeyConfig};
use vstd::prelude::*;

verus! {

/// An order in which hotkeys are kept.
#[derive(Debug, Clone, Copy, PartialEq, Eq, Structural)]
pub enum HotkeyOrder {
    /// The order in which the table is shown and stored: sip before puff,
    /// and within a direction the weaker threshold first, hotkeys without a
    /// threshold last.
    Listing,
    /// The order in which hotkeys are tried against a breath value: the
    /// stronger threshold first, a hotkey without a threshold counting as 0.
    Matching,
}

impl HotkeyOrder {
    /// The number by which this order ranks a hotkey: the smaller number
    /// comes first.
    pub open spec fn key(self, hotkey: HotkeyConfig) -> int {
        match self {
            HotkeyOrder::Listing => {
                let direction: int = match hotkey.breath_direction {
                    BreathDirection::Sip => 0,
                    BreathDirection::Puff => 256,
                };
                let threshold: int = match hotkey.threshold {
                    Some(t) => t as int,
                    None => i8::MAX as int,
                };
                direction + threshold
            },
            HotkeyOrder::Matching => match hotkey.threshold {
                Some(t) => -(t as int),
                None => 0,
            },
        }
    }

    /// The number by which this order ranks a hotkey.
    pub fn key_of(&self, hotkey: &HotkeyConfig) -> (key: i32)
        ensures
            key == self.key(*hotkey),
    {
        match self {
            HotkeyOrder::Listing => {
                let direction: i32 = match hotkey.breath_direction {
                    BreathDirection::Sip => 0,
                    BreathDirection::Puff => 256,
                };
                let threshold: i32 = match hotkey.threshold {
                    Some(t) => t as i32,
                    None => i8::MAX as i32,
                };
                direction + threshold
            },
            HotkeyOrder::Matching => match hotkey.threshold {
                Some(t) => -(t as i32),
                None => 0,
            },
        }
    }
}

/// The hotkeys are in the order: no hotkey comes before one that ranks
/// lower.
pub open spec fn is_sorted(hotkeys: Seq<HotkeyConfig>, order: HotkeyOrder) -> bool {
    forall|i: int, j: int|
        0 <= i < j < hotkeys.len() ==> order.key(hotkeys[i]) <= order.key(hotkeys[j])
}

/// The place at which a hotkey of rank `key` enters a sorted list: behind
/// every hotkey that does not rank higher.
pub open spec fn insertion_point(sorted: Seq<HotkeyConfig>, order: HotkeyOrder, key: int) -> int
    decreases sorted.len(),
{
    if sorted.len() == 0 {
        0
    } else if order.key(sorted.last()) <= key {
        sorted.len() as int
    } else {
        insertion_point(sorted.drop_last(), order, key)
    }
}

/// The hotkeys sorted by the order, hotkeys of equal rank staying in the
/// order in which they stood: each hotkey in turn enters the sorted list of
/// those before it, behind every hotkey that does not rank higher.
pub open spec fn sorted_hotkeys(hotkeys: Seq<HotkeyConfig>, order: HotkeyOrder) -> Seq<
    HotkeyConfig,
>
    decreases hotkeys.len(),
{
    if hotkeys.len() == 0 {
        Seq::empty()
    } else {
        let before = sorted_hotkeys(hotkeys.drop_last(), order);
        before.insert(
            insertion_point(before, order, order.key(hotkeys.last())),
            hotkeys.last(),
        )
    }
}

/// `output` holds the hotkeys of `input` in a stable sort by the order:
/// `places[i]` is the place in `input` of the hotkey at place `i` of
/// `output`, every place of `input` occurs once, the ranks never fall, and
/// hotkeys of equal rank stand as they stood in `input`.
pub open spec fn is_stable_sort(
    input: Seq<HotkeyConfig>,
    output: Seq<HotkeyConfig>,
    order: HotkeyOrder,
    places: Seq<int>,
) -> bool {
    &&& output.len() == input.len()
    &&& places.len() == input.len()
    &&& forall|i: int|
        0 <= i < places.len() ==> 0 <= #[trigger] places[i] < input.len() && output[i]
            == input[places[i]]
    &&& forall|i: int, j: int|
        0 <= i < j < places.len() ==> #[trigger] places[i] != #[trigger] places[j]
    &&& forall|place: int| 0 <= place < input.len() ==> #[trigger] places.contains(place)
    &&& is_sorted(output, order)
    &&& forall|i: int, j: int|
        0 <= i < j < places.len() && order.key(output[i]) == order.key(output[j])
            ==> #[trigger] places[i] < #[trigger] places[j]
}

/// In a sorted list the insertion point parts the hotkeys that do not rank
/// higher than `key` from those that do.
pub proof fn lemma_insertion_point(sorted: Seq<HotkeyConfig>, order: HotkeyOrder, key: int)
    requires
        is_sorted(sorted, order),
    ensures
        0 <= insertion_point(sorted, order, key) <= sorted.len(),
        forall|i: int|
            0 <= i < insertion_point(sorted, order, key) ==> order.key(#[trigger] sorted[i])
                <= key,
        forall|i: int|
            insertion_point(sorted, order, key) <= i < sorted.len() ==> order.key(
                #[trigger] sorted[i],
            ) > key,
    decreases sorted.len(),
{
    if sorted.len() > 0 && order.key(sorted.last()) > key {
        let shorter = sorted.drop_last();
        assert(is_sorted(shorter, order)) by {
            assert forall|i: int, j: int| 0 <= i < j < shorter.len() implies order.key(shorter[i])
                <= order.key(shorter[j]) by {
                assert(shorter[i] == sorted[i] && shorter[j] == sorted[j]);
            }
        }
        lemma_insertion_point(shorter, order, key);
        let at = insertion_point(shorter, order, key);
        assert forall|i: int| 0 <= i < at implies order.key(#[trigger] sorted[i]) <= key by {
            assert(shorter[i] == sorted[i]);
        }
        assert forall|i: int| at <= i < sorted.len() implies order.key(#[trigger] sorted[i])
            > key by {
            if i < shorter.len() {
                assert(shorter[i] == sorted[i]);
            }
        }
    }
}

/// `sorted_hotkeys` is the stable sort: the places that the lemma hands back
/// show it.
pub proof fn lemma_sorted_hotkeys_is_stable_sort(hotkeys: Seq<HotkeyConfig>, order: HotkeyOrder)
    -> (places: Seq<int>)
    ensures
        is_stable_sort(hotkeys, sorted_hotkeys(hotkeys, order), order, places),
    decreases hotkeys.len(),
{
    if hotkeys.len() == 0 {
        Seq::empty()
    } else {
        let shorter = hotkeys.drop_last();
        let added = hotkeys.last();
        let last = hotkeys.len() - 1;
        let before = sorted_hotkeys(shorter, order);
        let places_before = lemma_sorted_hotkeys_is_stable_sort(shorter, order);
        lemma_insertion_point(before, order, order.key(added));
        let at = insertion_point(before, order, order.key(added));
        let output = before.insert(at, added);
        let places = places_before.insert(at, last);
        assert(output == sorted_hotkeys(hotkeys, order));
        assert forall|i: int| 0 <= i < places.len() implies 0 <= #[trigger] places[i]
            < hotkeys.len() && output[i] == hotkeys[places[i]] by {
            if i < at {
                assert(places[i] == places_before[i]);
                assert(output[i] == before[i]);
                assert(shorter[places_before[i]] == hotkeys[places_before[i]]);
            } else if i > at {
                assert(places[i] == places_before[i - 1]);
                assert(output[i] == before[i - 1]);
                assert(shorter[places_before[i - 1]] == hotkeys[places_before[i - 1]]);
            }
        }
        assert forall|i: int, j: int| 0 <= i < j < places.len() implies #[trigger] places[i]
            != #[trigger] places[j] by {
            let pi = if i < at {
                places_before[i]
            } else if i > at {
                places_before[i - 1]
            } else {
                last
            };
            let pj = if j < at {
                places_before[j]
            } else if j > at {
                places_before[j - 1]
            } else {
                last
            };
            assert(places[i] == pi && places[j] == pj);
        }
        assert forall|place: int| 0 <= place < hotkeys.len() implies #[trigger] places.contains(
            place,
        ) by {
            if place == last {
                assert(places[at] == last);
            } else {
                assert(places_before.contains(place));
                let i = choose|i: int| 0 <= i < places_before.len() && places_before[i] == place;
                if i < at {
                    assert(places[i] == place);
                } else {
                    assert(places[i + 1] == place);
                }
            }
        }
        assert forall|i: int, j: int| 0 <= i < j < output.len() implies order.key(output[i])
            <= order.key(output[j]) && (order.key(output[i]) == order.key(output[j])
            ==> places[i] < places[j]) by {
            let oi = if i < at {
                before[i]
            } else if i > at {
                before[i - 1]
            } else {
                added
            };
            let oj = if j < at {
                before[j]
            } else if j > at {
                before[j - 1]
            } else {
                added
            };
            assert(output[i] == oi && output[j] == oj);
            let pi = if i < at {
                places_before[i]
            } else if i > at {
                places_before[i - 1]
            } else {
                last
            };
            let pj = if j < at {
                places_before[j]
            } else if j > at {
                places_before[j - 1]
            } else {
                last
            };
            assert(places[i] == pi && places[j] == pj);
        }
        places
    }
}

/// Sorts the hotkeys by the order, hotkeys of equal rank staying in the
/// order in which they stand.
pub fn sort_hotkeys_by(hotkeys: &mut Vec<HotkeyConfig>, order: HotkeyOrder)
    ensures
        final(hotkeys)@ == sorted_hotkeys(old(hotkeys)@, order),
{
    let mut sorted: Vec<HotkeyConfig> = Vec::new();
    let mut i: usize = 0;
    assert(hotkeys@.take(0) == Seq::<HotkeyConfig>::empty());
    while i < hotkeys.len()
        invariant
            i <= hotkeys.len(),
            sorted@ == sorted_hotkeys(hotkeys@.take(i as int), order),
            sorted.len() == i,
        decreases hotkeys.len() - i,
    {
        let hotkey = hotkeys[i];
        let key = order.key_of(&hotkey);
        let mut at: usize = sorted.len();
        assert(sorted@.take(at as int) == sorted@);
        while at > 0 && order.key_of(&sorted[at - 1]) > key
            invariant
                at <= sorted.len(),
                insertion_point(sorted@, order, key as int) == insertion_point(
                    sorted@.take(at as int),
                    order,
                    key as int,
                ),
            decreases at,
        {
            assert(sorted@.take(at as int).drop_last() == sorted@.take(at - 1));
            at -= 1;
        }
        proof {
            assert(hotkeys@.take(i + 1).drop_last() == hotkeys@.take(i as int));
            assert(hotkeys@.take(i + 1).last() == hotkey);
            assert(insertion_point(sorted@, order, key as int) == at);
        }
        sorted.insert(at, hotkey);
        i += 1;
    }
    assert(hotkeys@.take(i as int) == hotkeys@);
    *hotkeys = sorted;
}

} // verus!
