use fsd28::dice_value::{DiceError, DiceValue};

#[test]
fn new_damage_display() {
    let v = DiceValue::new(8, 3).unwrap();
    assert_eq!(v.display(), "3d8");
    let w = DiceValue::new(6, 1).unwrap();
    assert_eq!(w.display(), "1d6");
    let x = DiceValue::new(12, 10).unwrap();
    assert_eq!(x.display(), "10d12");
}

#[test]
fn display_round_trip_all_shapes() {
    for shape in [6u32, 8, 10, 12] {
        for number in [1u32, 2, 7, 15, 123] {
            let v = DiceValue::new(shape, number).unwrap();
            assert_eq!(v.display(), format!("{}d{}", number, shape));
        }
    }
}

#[test]
fn empty_pool_displays_dash() {
    let v = DiceValue::new(8, 0).unwrap();
    assert_eq!(v.display(), "-");
}

#[test]
fn armor_display() {
    let v = DiceValue::new_armor(8, 2).unwrap();
    assert_eq!(v.display(), "d8(2)");
}

#[test]
fn invalid_shape_rejected() {
    assert_eq!(DiceValue::new(7, 1), Err(DiceError::InvalidShape));
    assert_eq!(
        DiceValue::new_from_string("7".to_string()),
        Err(DiceError::InvalidShape)
    );
    assert_eq!(DiceValue::new_armor(5, 1), Err(DiceError::InvalidShape));
    assert_eq!(
        DiceValue::new_from_string("3d7".to_string()),
        Err(DiceError::InvalidShape)
    );
    assert_eq!(
        DiceValue::new_from_string("D9(2)".to_string()),
        Err(DiceError::InvalidShape)
    );
}

#[test]
fn parse_damage_pool() {
    let v = DiceValue::new_from_string("3d8".to_string()).unwrap();
    assert_eq!(v.display(), "3d8");
}

#[test]
fn parse_bare_shape_means_one_die() {
    let v = DiceValue::new_from_string("8".to_string()).unwrap();
    assert_eq!(v.display(), "1d8");
}

#[test]
fn parse_armor_syntax() {
    let v = DiceValue::new_from_string("D10(2)".to_string()).unwrap();
    assert_eq!(v.display(), "d10(2)");
    // The armor die is rolled once: parsing sets the count to one.
    assert_eq!(v.number, 1);
    assert_eq!(v.armor, 2);
    assert_eq!(v.shape, 10);
}

#[test]
fn parse_failures() {
    for text in [
        "", "abc", "d8", "3d", "3d8d6", "2x8", "(2)", "D8(2", "D8)2(", "D(2)", "-",
    ] {
        assert_eq!(
            DiceValue::new_from_string(text.to_string()),
            Err(DiceError::ParseFailure),
            "text: {:?}",
            text
        );
    }
}

#[test]
fn armor_marker_character_is_free_form() {
    // Only the shape and the parenthesized armor are read; the leading
    // marker character and anything after the closing parenthesis are not.
    let v = DiceValue::new_from_string("X8(2)".to_string()).unwrap();
    assert_eq!(v.display(), "d8(2)");
    let w = DiceValue::new_from_string("D8(2)x".to_string()).unwrap();
    assert_eq!(w.display(), "d8(2)");
}

#[test]
fn parse_idempotence_on_canonical_strings() {
    let values = [
        DiceValue::new(6, 1).unwrap(),
        DiceValue::new(8, 3).unwrap(),
        DiceValue::new(12, 25).unwrap(),
        DiceValue::new_armor(8, 2).unwrap(),
        DiceValue::new_armor(10, 13).unwrap(),
    ];
    for v in values {
        let s = v.display();
        let parsed = DiceValue::new_from_string(s.clone()).unwrap();
        assert_eq!(parsed.display(), s);
    }
}

#[test]
fn parse_is_total_on_short_texts() {
    // Every short string over the notation's alphabet either parses or is
    // rejected with an error; whatever parses re-displays to a text that
    // parses to the same value again.
    let alphabet = ['d', 'D', '(', ')', '0', '1', '6', '8', 'x'];
    let mut texts = vec![String::new()];
    for _ in 0..3 {
        let mut next = Vec::new();
        for t in &texts {
            for c in alphabet {
                let mut u = t.clone();
                u.push(c);
                next.push(u);
            }
        }
        for u in &next {
            texts.push(u.clone());
        }
        texts = next;
    }
    texts.push(String::new());
    for t in texts {
        if let Ok(v) = DiceValue::new_from_string(t.clone()) {
            let shown = v.display();
            if shown == "-" {
                // An empty pool, reachable from texts like 0d8, displays as
                // the dash, which is not parseable notation.
                continue;
            }
            let again = DiceValue::new_from_string(shown.clone()).unwrap();
            assert_eq!(again.display(), shown, "text: {:?}", t);
        }
    }
}

#[test]
fn change_number_bounds() {
    let v = DiceValue::new(8, 1).unwrap();
    assert_eq!(v.change_number(-1), Err(DiceError::BelowMinimum));
    let w = v.change_number(2).unwrap();
    assert_eq!(w.display(), "3d8");
}

#[test]
fn change_category_steps() {
    let v = DiceValue::new(8, 2).unwrap();
    let up = v.change_category(1).unwrap();
    assert_eq!(up.display(), "2d10");
    let down = v.change_category(-1).unwrap();
    assert_eq!(down.display(), "2d6");
    assert_eq!(v.change_category(2), Err(DiceError::InvalidStep));
    assert_eq!(v.change_category(0), Err(DiceError::InvalidStep));
    // Off either end of the 6-8-10-12 ladder.
    let six = DiceValue::new(6, 2).unwrap();
    assert_eq!(six.change_category(-1), Err(DiceError::InvalidShape));
    let twelve = DiceValue::new(12, 2).unwrap();
    assert_eq!(twelve.change_category(1), Err(DiceError::InvalidShape));
}

#[test]
fn change_armor_bounds() {
    let v = DiceValue::new_armor(8, 2).unwrap();
    let up = v.change_armor(1).unwrap();
    assert_eq!(up.display(), "d8(3)");
    let down = v.change_armor(-1).unwrap();
    assert_eq!(down.display(), "d8(1)");
    assert_eq!(v.change_armor(-2), Err(DiceError::BelowMinimum));
}
