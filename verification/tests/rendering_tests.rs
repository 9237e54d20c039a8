use fsd28::action::{Action, ActionCost};
use fsd28::app_state::{edit_menu_transition, main_menu_transition, AppState, MenuStates};
use fsd28::card_layout::{combine_two_profiles, sheet_text, CARD_PAD};
use fsd28::characteristics::Characteristics;
use fsd28::class::{Class, Tier};
use fsd28::damage_chart::DamageChart;
use fsd28::profile::Profile;
use fsd28::strutil::{join_strings, pad_right, parse_u32, split_lines, u32_to_string};

#[test]
fn decimal_rendering() {
    assert_eq!(u32_to_string(0), "0");
    assert_eq!(u32_to_string(7), "7");
    assert_eq!(u32_to_string(10), "10");
    assert_eq!(u32_to_string(305), "305");
    assert_eq!(u32_to_string(u32::MAX), "4294967295");
}

#[test]
fn decimal_parsing() {
    assert_eq!(parse_u32("0"), Some(0));
    assert_eq!(parse_u32("305"), Some(305));
    assert_eq!(parse_u32("4294967295"), Some(u32::MAX));
    assert_eq!(parse_u32("4294967296"), None);
    assert_eq!(parse_u32(""), None);
    assert_eq!(parse_u32("12a"), None);
    assert_eq!(parse_u32("-3"), None);
}

#[test]
fn padding_and_joining() {
    assert_eq!(pad_right("ab", 5), "ab   ");
    assert_eq!(pad_right("abcdef", 4), "abcdef");
    let parts = vec!["a".to_string(), "b".to_string(), "c".to_string()];
    assert_eq!(join_strings(&parts, ", "), "a, b, c");
    let one = vec!["solo".to_string()];
    assert_eq!(join_strings(&one, ", "), "solo");
    let none: Vec<String> = Vec::new();
    assert_eq!(join_strings(&none, ", "), "");
}

#[test]
fn line_splitting() {
    let empty: Vec<String> = Vec::new();
    assert_eq!(split_lines(""), empty);
    assert_eq!(split_lines("a"), vec!["a".to_string()]);
    assert_eq!(split_lines("a\nbb"), vec!["a".to_string(), "bb".to_string()]);
    assert_eq!(
        split_lines("a\nbb\n"),
        vec!["a".to_string(), "bb".to_string()]
    );
    assert_eq!(split_lines("\n"), vec!["".to_string()]);
}

#[test]
fn characteristics_card_text() {
    let c = Characteristics::new_default();
    let expected = "\nCmd   = 0       Def   = 4+      Save  = d8(2)   \
                    \nMove  = 3 DU    Shoot = 2d6     Melee = 2d6     ";
    assert_eq!(c.display_ascii(), expected);
}

#[test]
fn damage_chart_card_text() {
    let chart = DamageChart::new_default();
    let mut expected = String::new();
    expected.push_str("----------------------------------------------------------\n| ");
    expected.push_str("    1        2        3        4        5        6    ");
    expected.push_str(" |\n| ");
    expected.push_str("|  DEAD |");
    expected.push_str("|  MOV           |");
    expected.push_str("|  ARM           |");
    expected.push_str("|  PIN  |");
    expected.push_str(" |\n");
    expected.push_str("----------------------------------------------------------");
    assert_eq!(chart.display_ascii(), expected);
}

#[test]
fn action_card_text() {
    let a = Action {
        name: "Volley".to_string(),
        cost: ActionCost {
            goon: vec![(0, 0), (3, 3), (1, 2)],
            character: vec![],
            hero: vec![],
        },
        text: "shoot twice".to_string(),
        slot: true,
        points: 0,
    };
    let expected = format!(
        "------- ------- -------  {:<32}------- \n|FREE | |  3  | | 1-2 |  {:<32}|     | \n------- ------- -------  {:<32}------- ",
        "Volley", "shoot twice", " "
    );
    assert_eq!(a.display_ascii(&Tier::Goon), expected);
}

#[test]
fn combine_two_card_texts() {
    assert_eq!(combine_two_profiles("a\nbb", "X", 4), "a   X\nbb  ");
    assert_eq!(combine_two_profiles("a", "X\nY", 3), "a  X\n   Y");
    assert_eq!(combine_two_profiles("", "", 4), "");
}

#[test]
fn profile_card_text_and_sheet() {
    let class = Class {
        name: "Trooper".to_string(),
        tier: Tier::Goon,
        characteristics: Characteristics::new_default(),
        special_abilities: Vec::new(),
        damage_profile: DamageChart::new_default(),
        modifiers: Vec::new(),
        cost: 10,
    };
    let mut p = Profile::new("Alice".to_string(), class);
    p.special_abilities.push("Stealth".to_string());
    p.special_abilities.push("Tough".to_string());
    let card = p.display_ascii();
    assert!(card.starts_with("Character Name:     Alice\nDescription:        Trooper\nCost:               10\n\n"));
    assert!(card.contains("\n\nSpecial Abilities:  Stealth, Tough\n\n"));

    let profiles = vec![p];
    let sheet = sheet_text(&profiles);
    let expected = format!(
        "{}\n\n",
        combine_two_profiles(&profiles[0].display_ascii(), "", CARD_PAD)
    );
    assert_eq!(sheet, expected);
    assert_eq!(CARD_PAD, 64);
}

#[test]
fn sheet_pairs_profiles_two_per_row() {
    let class = Class {
        name: "Trooper".to_string(),
        tier: Tier::Goon,
        characteristics: Characteristics::new_default(),
        special_abilities: Vec::new(),
        damage_profile: DamageChart::new_default(),
        modifiers: Vec::new(),
        cost: 10,
    };
    let names = ["One", "Two", "Three"];
    let mut profiles = Vec::new();
    for name in names {
        let c = Class {
            name: class.name.clone(),
            tier: class.tier,
            characteristics: class.characteristics,
            special_abilities: Vec::new(),
            damage_profile: DamageChart::new_default(),
            modifiers: Vec::new(),
            cost: class.cost,
        };
        profiles.push(Profile::new(name.to_string(), c));
    }
    let sheet = sheet_text(&profiles);
    let expected = format!(
        "{}\n\n{}\n\n",
        combine_two_profiles(
            &profiles[0].display_ascii(),
            &profiles[1].display_ascii(),
            CARD_PAD
        ),
        combine_two_profiles(&profiles[2].display_ascii(), "", CARD_PAD)
    );
    assert_eq!(sheet, expected);
}

#[test]
fn menu_transitions() {
    assert_eq!(main_menu_transition(0), MenuStates::CreateProfile);
    assert_eq!(main_menu_transition(1), MenuStates::SaveProfiles);
    assert_eq!(main_menu_transition(2), MenuStates::LoadProfiles);
    assert_eq!(main_menu_transition(3), MenuStates::SelectProfile);
    assert_eq!(main_menu_transition(4), MenuStates::PrintAllProfiles);
    assert_eq!(main_menu_transition(5), MenuStates::Exit);
    assert_eq!(edit_menu_transition(0), MenuStates::EditName);
    assert_eq!(edit_menu_transition(1), MenuStates::AddAction);
    assert_eq!(edit_menu_transition(2), MenuStates::MainMenu);
}

#[test]
fn app_state_selection() {
    let mut state = AppState::new();
    assert!(state.get_selected().is_none());
    let class = Class {
        name: "Trooper".to_string(),
        tier: Tier::Goon,
        characteristics: Characteristics::new_default(),
        special_abilities: Vec::new(),
        damage_profile: DamageChart::new_default(),
        modifiers: Vec::new(),
        cost: 1,
    };
    state.add_profile(Profile::new("One".to_string(), class));
    assert_eq!(state.get_selected().unwrap().name, "One");
    state.set_selected(5);
    assert!(state.get_selected().is_none());
    state.set_selected(0);
    assert_eq!(state.get_selected().unwrap().name, "One");
    let all = state.get_all_profiles();
    assert_eq!(all.len(), 1);
    assert_eq!(all[0].name, "One");
}
