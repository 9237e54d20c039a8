//! The class templates a profile is seeded from.

use vstd::prelude::*;

use crate::characteristics::Characteristics;
use crate::damage_chart::{Color, DamageChart};
use crate::modifier::{Modifier, ModifierView};

verus! {

/// The power tier of a unit, selecting which activation-cost list of an
/// action applies.
#[derive(Clone, Copy, Debug, PartialEq, Eq, Structural)]
pub enum Tier {
    Goon,
    Char,
    Hero,
}

/// A class template: the catalog data a new profile deep-copies.
#[derive(Debug)]
pub struct Class {
    pub name: String,
    pub tier: Tier,
    pub characteristics: Characteristics,
    pub special_abilities: Vec<String>,
    pub damage_profile: DamageChart,
    pub modifiers: Vec<Modifier>,
    pub cost: u32,
}

/// The mathematical model of a class.
pub struct ClassView {
    pub name: Seq<char>,
    pub tier: Tier,
    pub characteristics: Characteristics,
    pub special_abilities: Seq<Seq<char>>,
    pub damage_profile: Seq<(u32, Color, Seq<char>)>,
    pub modifiers: Seq<ModifierView>,
    pub cost: u32,
}

impl View for Class {
    type V = ClassView;

    open spec fn view(&self) -> ClassView {
        ClassView {
            name: self.name@,
            tier: self.tier,
            characteristics: self.characteristics,
            special_abilities: self.special_abilities@.map_values(|s: String| s@),
            damage_profile: self.damage_profile@,
            modifiers: self.modifiers@.map_values(|m: Modifier| m@),
            cost: self.cost,
        }
    }
}

/// A catalog of classes.
#[derive(Debug)]
pub struct ClassesConfig {
    pub classes: Vec<Class>,
}

impl View for ClassesConfig {
    type V = Seq<ClassView>;

    open spec fn view(&self) -> Seq<ClassView> {
        self.classes@.map_values(|c: Class| c@)
    }
}

} // verus!
