use crate::sim::types::{Button, HeldButtons};
use indexmap::IndexSet;
use vstd::prelude::*;

verus! {

/// `indexmap::IndexSet`, the set in which held buttons are kept. It keeps its
/// items in the order in which they were inserted, each once, and finds an
/// item by `Hash` and `Eq`. `Button` derives both: two buttons are equal
/// exactly if they are the same variant.
#[verifier::external_type_specification]
#[verifier::external_body]
#[verifier::reject_recursive_types(T)]
#[verifier::reject_recursive_types(S)]
pub struct ExIndexSet<T, S>(IndexSet<T, S>);

/// The buttons that a set holds, in the order in which they were inserted.
/// What the functions below say of `IndexSet`, they say of this sequence.
pub uninterp spec fn held_view(held: HeldButtons) -> Seq<Button>;

/// The buttons with `button` among them: behind the others, if it was not
/// there yet.
pub open spec fn with_button(buttons: Seq<Button>, button: Button) -> Seq<Button> {
    if buttons.contains(button) {
        buttons
    } else {
        buttons.push(button)
    }
}

/// The buttons that `other` lacks, in their order.
pub open spec fn without(buttons: Seq<Button>, other: Seq<Button>) -> Seq<Button> {
    buttons.filter(|button: Button| !other.contains(button))
}

/// `IndexSet::new`: a set that holds nothing.
#[verifier::external_body]
pub(crate) fn held_new() -> (held: HeldButtons)
    ensures
        held_view(held) == Seq::<Button>::empty(),
{
    IndexSet::new()
}

/// `IndexSet::insert`: a button that the set lacks is added behind the others
/// and `true` is returned; one that it holds leaves the set as it was and
/// `false` is returned.
#[verifier::external_body]
pub(crate) fn held_insert(held: &mut HeldButtons, button: Button) -> (added: bool)
    ensures
        added == !held_view(*old(held)).contains(button),
        held_view(*final(held)) == with_button(held_view(*old(held)), button),
{
    held.insert(button)
}

/// `IndexSet::difference`, collected: the buttons of `held` that `other`
/// lacks, in the order in which `held` holds them.
#[verifier::external_body]
pub(crate) fn held_difference(held: &HeldButtons, other: &HeldButtons) -> (rest: Vec<Button>)
    ensures
        rest@ == without(held_view(*held), held_view(*other)),
{
    held.difference(other).copied().collect()
}

/// `IndexSet::iter`, collected: the buttons of the set in the order in which
/// they were inserted, none of them twice.
#[verifier::external_body]
pub(crate) fn held_to_vec(held: &HeldButtons) -> (buttons: Vec<Button>)
    ensures
        buttons@ == held_view(*held),
        buttons@.no_duplicates(),
{
    held.iter().copied().collect()
}

} // verus!
