//! A named group of related actions: a weapon and its options.

use vstd::prelude::*;

use crate::action::{Action, ActionView};

verus! {

/// One selectable option of a weapon: an action, and whether it is a base
/// option that must be chosen before the group's other options open up.
#[derive(Debug)]
pub struct WeaponOption {
    pub action: Action,
    pub is_base: bool,
}

/// The mathematical model of a weapon option.
pub struct WeaponOptionView {
    pub action: ActionView,
    pub is_base: bool,
}

impl View for WeaponOption {
    type V = WeaponOptionView;

    open spec fn view(&self) -> WeaponOptionView {
        WeaponOptionView { action: self.action@, is_base: self.is_base }
    }
}

impl Clone for WeaponOption {
    fn clone(&self) -> (r: Self)
        ensures
            r@ == self@,
    {
        WeaponOption { action: self.action.clone(), is_base: self.is_base }
    }
}

/// A weapon: a named, ordered group of mutually related options.
#[derive(Debug)]
pub struct Weapon {
    pub name: String,
    pub options: Vec<WeaponOption>,
}

/// The mathematical model of a weapon.
pub struct WeaponView {
    pub name: Seq<char>,
    pub options: Seq<WeaponOptionView>,
}

impl View for Weapon {
    type V = WeaponView;

    open spec fn view(&self) -> WeaponView {
        WeaponView {
            name: self.name@,
            options: self.options@.map_values(|o: WeaponOption| o@),
        }
    }
}

/// A catalog of weapons.
#[derive(Debug)]
pub struct WeaponsConfig {
    pub weapons: Vec<Weapon>,
}

impl View for WeaponsConfig {
    type V = Seq<WeaponView>;

    open spec fn view(&self) -> Seq<WeaponView> {
        self.weapons@.map_values(|w: Weapon| w@)
    }
}

} // verus!
