//! The action-eligibility rule: which options of one weapon's group may still
//! be selected, given the names already chosen.

use vstd::prelude::*;

use crate::weapon::{WeaponOption, WeaponOptionView};

verus! {

/// The most actions a profile may carry.
pub const MAX_ACTIONS: usize = 3;

/// Whether some option of the group is a base option.
pub open spec fn spec_has_base(options: Seq<WeaponOptionView>) -> bool {
    exists|i: int| 0 <= i < options.len() && (#[trigger] options[i]).is_base
}

/// Whether the selection holds the given action name.
pub open spec fn spec_selected(selected: Seq<Seq<char>>, name: Seq<char>) -> bool {
    exists|i: int| 0 <= i < selected.len() && #[trigger] selected[i] == name
}

/// Whether some base option of the group is among the selected names.
pub open spec fn spec_base_selected(
    options: Seq<WeaponOptionView>,
    selected: Seq<Seq<char>>,
) -> bool {
    exists|i: int|
        0 <= i < options.len() && (#[trigger] options[i]).is_base && spec_selected(
            selected,
            options[i].action.name,
        )
}

/// The eligibility verdict for one option of a weapon's group. The global cap
/// of `MAX_ACTIONS` selections dominates; under it, an option is available
/// unless its group holds a base option, the option itself is not one, and no
/// base option of the group has been selected yet.
pub open spec fn spec_is_available(
    option: WeaponOptionView,
    sibling_options: Seq<WeaponOptionView>,
    selected: Seq<Seq<char>>,
) -> bool {
    selected.len() < MAX_ACTIONS && (!spec_has_base(sibling_options) || option.is_base
        || spec_base_selected(sibling_options, selected))
}

/// The names of a selection, as sequences of characters.
pub open spec fn spec_names(selected: Seq<String>) -> Seq<Seq<char>> {
    selected.map_values(|s: String| s@)
}

/// Whether the selection holds this name.
fn contains_name(selected_names: &Vec<String>, name: &String) -> (r: bool)
    ensures
        r == spec_selected(spec_names(selected_names@), name@),
{
    let mut i: usize = 0;
    while i < selected_names.len()
        invariant
            0 <= i <= selected_names.len(),
            forall|j: int| 0 <= j < i ==> #[trigger] selected_names@[j]@ != name@,
        decreases selected_names.len() - i,
    {
        if selected_names[i].eq(name) {
            assert(spec_names(selected_names@)[i as int] == name@);
            return true;
        }
        i = i + 1;
    }
    assert forall|j: int| 0 <= j < selected_names@.len() implies #[trigger] spec_names(
        selected_names@,
    )[j] != name@ by {
        assert(spec_names(selected_names@)[j] == selected_names@[j]@);
    }
    false
}

/// Decides whether one option of a weapon's group may still be selected.
pub fn is_available(
    option: &WeaponOption,
    sibling_options: &Vec<WeaponOption>,
    selected_names: &Vec<String>,
) -> (r: bool)
    ensures
        r == spec_is_available(
            option@,
            sibling_options@.map_values(|o: WeaponOption| o@),
            spec_names(selected_names@),
        ),
{
    let ghost sibs = sibling_options@.map_values(|o: WeaponOption| o@);
    if selected_names.len() >= MAX_ACTIONS {
        return false;
    }
    if option.is_base {
        return true;
    }
    let mut has_base = false;
    let mut base_selected = false;
    let mut i: usize = 0;
    while i < sibling_options.len()
        invariant
            0 <= i <= sibling_options.len(),
            sibs == sibling_options@.map_values(|o: WeaponOption| o@),
            sibs.len() == sibling_options@.len(),
            has_base == (exists|j: int| 0 <= j < i && (#[trigger] sibs[j]).is_base),
            base_selected == (exists|j: int|
                0 <= j < i && (#[trigger] sibs[j]).is_base && spec_selected(
                    spec_names(selected_names@),
                    sibs[j].action.name,
                )),
        decreases sibling_options.len() - i,
    {
        let opt = &sibling_options[i];
        proof {
            assert(sibs[i as int] == opt@);
        }
        if opt.is_base {
            has_base = true;
            if contains_name(selected_names, &opt.action.name) {
                base_selected = true;
            }
        }
        i = i + 1;
    }
    !has_base || base_selected
}

/// Once the global cap is reached, nothing is available: whatever the option
/// and its group, a selection of `MAX_ACTIONS` or more names closes every
/// option, base gating notwithstanding.
pub proof fn lemma_action_cap(
    option: WeaponOptionView,
    sibling_options: Seq<WeaponOptionView>,
    selected: Seq<Seq<char>>,
)
    requires
        selected.len() >= MAX_ACTIONS,
    ensures
        !spec_is_available(option, sibling_options, selected),
{
}

} // verus!
