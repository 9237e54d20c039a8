//! The six characteristics of a unit.

use vstd::prelude::*;

use crate::dice_value::DiceValue;
use crate::strutil::{pad_right, spec_dec, spec_pad, u32_to_string};

verus! {

/// The stat line of a unit: command, defense, save die, movement, shoot die
/// and melee die.
#[derive(Clone, Copy, Debug, PartialEq, Eq, Structural)]
pub struct Characteristics {
    pub stat_cmd: u32,
    pub stat_def: u32,
    pub stat_save: DiceValue,
    pub stat_move: u32,
    pub stat_shoot: DiceValue,
    pub stat_melee: DiceValue,
}

impl Characteristics {
    /// The stat line every unit starts from: a d8(2) save and two dice of d6
    /// for both attack modes.
    pub fn new_default() -> (r: Characteristics)
        ensures
            r == (Characteristics {
                stat_cmd: 0u32,
                stat_def: 4u32,
                stat_save: DiceValue { shape: 8u32, number: 0u32, armor: 2u32 },
                stat_move: 3u32,
                stat_shoot: DiceValue { shape: 6u32, number: 2u32, armor: 0u32 },
                stat_melee: DiceValue { shape: 6u32, number: 2u32, armor: 0u32 },
            }),
    {
        Characteristics {
            stat_cmd: 0,
            stat_def: 4,
            stat_save: DiceValue::new_armor(8, 2).unwrap(),
            stat_move: 3,
            stat_shoot: DiceValue::new(6, 2).unwrap(),
            stat_melee: DiceValue::new(6, 2).unwrap(),
        }
    }

    /// The two-row card text of the stat line: command, defense and save on
    /// the first row; movement, shoot and melee on the second. Each die value
    /// is padded to eight columns.
    pub open spec fn spec_display_ascii(&self) -> Seq<char> {
        "\nCmd   = "@ + spec_dec(self.stat_cmd as nat) + "       "@ + "Def   = "@ + spec_dec(
            self.stat_def as nat,
        ) + "+      "@ + "Save  = "@ + spec_pad(self.stat_save.spec_display(), 8) + "\nMove  = "@
            + spec_dec(self.stat_move as nat) + " DU    "@ + "Shoot = "@ + spec_pad(
            self.stat_shoot.spec_display(),
            8,
        ) + "Melee = "@ + spec_pad(self.stat_melee.spec_display(), 8)
    }

    /// Renders the stat line as card text.
    pub fn display_ascii(&self) -> (r: String)
        ensures
            r@ == self.spec_display_ascii(),
    {
        let mut out_string = String::new();
        out_string.append("\nCmd   = ");
        let cmd = u32_to_string(self.stat_cmd);
        out_string.append(cmd.as_str());
        out_string.append("       ");
        out_string.append("Def   = ");
        let def = u32_to_string(self.stat_def);
        out_string.append(def.as_str());
        out_string.append("+      ");
        out_string.append("Save  = ");
        let save = self.stat_save.display();
        let save_padded = pad_right(save.as_str(), 8);
        out_string.append(save_padded.as_str());
        out_string.append("\nMove  = ");
        let mv = u32_to_string(self.stat_move);
        out_string.append(mv.as_str());
        out_string.append(" DU    ");
        out_string.append("Shoot = ");
        let shoot = self.stat_shoot.display();
        let shoot_padded = pad_right(shoot.as_str(), 8);
        out_string.append(shoot_padded.as_str());
        out_string.append("Melee = ");
        let melee = self.stat_melee.display();
        let melee_padded = pad_right(melee.as_str(), 8);
        out_string.append(melee_padded.as_str());
        assert(out_string@ =~= self.spec_display_ascii());
        out_string
    }
}

} // verus!
