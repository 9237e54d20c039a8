use fsd28::action::{Action, ActionCost};
use fsd28::eligibility::{is_available, MAX_ACTIONS};
use fsd28::weapon::WeaponOption;

fn named_action(name: &str) -> Action {
    Action {
        name: name.to_string(),
        cost: ActionCost {
            goon: vec![(1, 6)],
            character: vec![(1, 6)],
            hero: vec![(1, 6)],
        },
        text: "text".to_string(),
        slot: false,
        points: 1,
    }
}

fn option(name: &str, is_base: bool) -> WeaponOption {
    WeaponOption {
        action: named_action(name),
        is_base,
    }
}

#[test]
fn base_gating() {
    let options = vec![option("A", true), option("B", false), option("C", false)];
    let none_selected: Vec<String> = Vec::new();
    assert!(is_available(&options[0], &options, &none_selected));
    assert!(!is_available(&options[1], &options, &none_selected));
    assert!(!is_available(&options[2], &options, &none_selected));

    let base_selected = vec!["A".to_string()];
    assert!(is_available(&options[1], &options, &base_selected));
    assert!(is_available(&options[2], &options, &base_selected));
}

#[test]
fn group_without_base_is_open() {
    let options = vec![option("A", false), option("B", false)];
    let selected = vec!["Elsewhere".to_string()];
    assert!(is_available(&options[0], &options, &selected));
    assert!(is_available(&options[1], &options, &selected));
}

#[test]
fn action_cap_dominates() {
    assert_eq!(MAX_ACTIONS, 3);
    let options = vec![option("A", false), option("B", false)];
    let selected = vec!["X".to_string(), "Y".to_string(), "Z".to_string()];
    // Three selections elsewhere close even an ungated group.
    assert!(!is_available(&options[0], &options, &selected));
    // The cap also closes base options themselves.
    let gated = vec![option("G", true)];
    assert!(!is_available(&gated[0], &gated, &selected));
}

#[test]
fn cap_counts_selection_size_only() {
    let options = vec![option("A", false)];
    let two = vec!["X".to_string(), "Y".to_string()];
    assert!(is_available(&options[0], &options, &two));
}

#[test]
fn non_base_sibling_selection_does_not_open_group() {
    let options = vec![option("A", true), option("B", false), option("C", false)];
    let selected = vec!["B".to_string()];
    assert!(!is_available(&options[2], &options, &selected));
    assert!(is_available(&options[0], &options, &selected));
}
