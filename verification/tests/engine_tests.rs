use fsd28::action::{Action, ActionCost};
use fsd28::characteristics::Characteristics;
use fsd28::class::{Class, Tier};
use fsd28::damage_chart::DamageChart;
use fsd28::modifier::{Effect, Modifier};
use fsd28::profile::{create_profile, Profile};

fn trooper_class(cost: u32) -> Class {
    Class {
        name: "Trooper".to_string(),
        tier: Tier::Goon,
        characteristics: Characteristics::new_default(),
        special_abilities: Vec::new(),
        damage_profile: DamageChart::new_default(),
        modifiers: Vec::new(),
        cost,
    }
}

fn simple_action(name: &str, points: u32) -> Action {
    Action {
        name: name.to_string(),
        cost: ActionCost {
            goon: vec![(1, 3)],
            character: vec![(1, 3)],
            hero: vec![(1, 3)],
        },
        text: "does something".to_string(),
        slot: false,
        points,
    }
}

fn ability_modifier(id: &str, points: u32, ability: &str) -> Modifier {
    Modifier {
        id: id.to_string(),
        points,
        effects: vec![Effect::Ability(ability.to_string())],
    }
}

#[test]
fn new_profile_seeds_from_class() {
    let p = Profile::new("Alice".to_string(), trooper_class(12));
    assert_eq!(p.name, "Alice");
    assert_eq!(p.class_name, "Trooper");
    assert_eq!(p.description, "Trooper");
    assert_eq!(p.cost, 12);
    assert!(p.selected_modifiers.is_empty());
    assert!(p.actions.is_empty());
    assert!(p.special_abilities.is_empty());
}

#[test]
fn create_profile_matches_new() {
    let p = create_profile("Bob".to_string(), trooper_class(7));
    assert_eq!(p.name, "Bob");
    assert_eq!(p.cost, 7);
}

#[test]
fn cost_totaling() {
    let mut p = Profile::new("Unit".to_string(), trooper_class(10));
    p.selected_modifiers
        .push(ability_modifier("Veteran", 5, "Stealth"));
    p.actions.push(simple_action("Shoot", 3));
    p.actions.push(simple_action("Charge", 2));
    let final_profile = p.get_final_profile();
    assert_eq!(final_profile.cost, 20);
}

#[test]
fn ability_accumulation_preserves_duplicates() {
    let mut p = Profile::new("Unit".to_string(), trooper_class(0));
    p.selected_modifiers
        .push(ability_modifier("A", 0, "Stealth"));
    p.selected_modifiers
        .push(ability_modifier("B", 0, "Stealth"));
    let final_profile = p.get_final_profile();
    assert_eq!(
        final_profile.special_abilities,
        vec!["Stealth".to_string(), "Stealth".to_string()]
    );
}

#[test]
fn unknown_effects_are_ignored() {
    let mut p = Profile::new("Unit".to_string(), trooper_class(10));
    p.selected_modifiers.push(Modifier {
        id: "Armored".to_string(),
        points: 4,
        effects: vec![Effect::Unknown("defense".to_string(), "2".to_string())],
    });
    let final_profile = p.get_final_profile();
    assert!(final_profile.special_abilities.is_empty());
    assert_eq!(final_profile.cost, 14);
}

#[test]
fn description_augmentation() {
    let mut p = Profile::new("Unit".to_string(), trooper_class(0));
    assert_eq!(p.description, "Trooper");
    p.selected_modifiers
        .push(ability_modifier("Veteran", 1, "Stealth"));
    p.selected_modifiers
        .push(ability_modifier("Armored", 2, "Tough"));
    let final_profile = p.get_final_profile();
    assert_eq!(final_profile.description, "Trooper (Veteran, Armored)");
}

#[test]
fn description_unchanged_without_modifiers() {
    let p = Profile::new("Unit".to_string(), trooper_class(3));
    let final_profile = p.get_final_profile();
    assert_eq!(final_profile.description, "Trooper");
}

#[test]
fn derive_leaves_base_untouched() {
    let mut p = Profile::new("Unit".to_string(), trooper_class(10));
    p.selected_modifiers
        .push(ability_modifier("Veteran", 5, "Stealth"));
    p.actions.push(simple_action("Shoot", 3));
    let _final_profile = p.get_final_profile();
    assert_eq!(p.cost, 10);
    assert!(p.special_abilities.is_empty());
    assert_eq!(p.description, "Trooper");
    assert_eq!(p.selected_modifiers.len(), 1);
    assert_eq!(p.actions.len(), 1);
}

#[test]
fn action_cost_strings() {
    let a = Action {
        name: "Volley".to_string(),
        cost: ActionCost {
            goon: vec![(0, 0), (3, 3), (1, 2)],
            character: vec![(4, 6)],
            hero: vec![],
        },
        text: "shoot twice".to_string(),
        slot: false,
        points: 0,
    };
    assert_eq!(a.get_action_cost(&Tier::Goon), vec![(0, 0), (3, 3), (1, 2)]);
    assert_eq!(a.get_action_cost(&Tier::Char), vec![(4, 6)]);
    assert_eq!(a.get_action_cost(&Tier::Hero), vec![]);
    assert_eq!(
        a.get_action_cost_str(&Tier::Goon),
        vec!["FREE".to_string(), "3".to_string(), "1-2".to_string()]
    );
    assert_eq!(a.get_action_cost_str(&Tier::Char), vec!["4-6".to_string()]);
}
