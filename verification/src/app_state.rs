//! The menu-driven application's state: the roster of profiles being edited,
//! which one is selected, and the transitions of the menu's state machine.
//! The interactive dialogs themselves live in the surrounding application;
//! they hand the user's choice to the functions here and perform I/O only.

use vstd::prelude::*;

use crate::profile::{Profile, ProfileView};

verus! {

/// The states of the interactive menu.
#[derive(Clone, Copy, Debug, PartialEq, Eq, Structural)]
pub enum MenuStates {
    MainMenu,
    CreateProfile,
    LoadProfiles,
    SaveProfiles,
    SelectProfile,
    EditProfile,
    AddAction,
    PrintAllProfiles,
    AddEquip,
    EditName,
    EditType,
    EditClass,
    Exit,
}

/// Where the main menu goes for each of its entries, in display order:
/// create, save, load, select, print, exit.
pub fn main_menu_transition(selection: usize) -> (r: MenuStates)
    ensures
        r == (match selection {
            0usize => MenuStates::CreateProfile,
            1usize => MenuStates::SaveProfiles,
            2usize => MenuStates::LoadProfiles,
            3usize => MenuStates::SelectProfile,
            4usize => MenuStates::PrintAllProfiles,
            _ => MenuStates::Exit,
        }),
{
    match selection {
        0 => MenuStates::CreateProfile,
        1 => MenuStates::SaveProfiles,
        2 => MenuStates::LoadProfiles,
        3 => MenuStates::SelectProfile,
        4 => MenuStates::PrintAllProfiles,
        _ => MenuStates::Exit,
    }
}

/// Where the profile-editing menu goes for each of its entries, in display
/// order: change name, add action, return.
pub fn edit_menu_transition(selection: usize) -> (r: MenuStates)
    ensures
        r == (match selection {
            0usize => MenuStates::EditName,
            1usize => MenuStates::AddAction,
            _ => MenuStates::MainMenu,
        }),
{
    match selection {
        0 => MenuStates::EditName,
        1 => MenuStates::AddAction,
        _ => MenuStates::MainMenu,
    }
}

/// The roster under edit: the profiles created so far and, when one is, the
/// index of the selected profile.
pub struct AppState {
    pub profiles: Vec<Profile>,
    pub selected: Option<usize>,
}

impl AppState {
    /// The profiles as their models.
    pub open spec fn profiles_view(&self) -> Seq<ProfileView> {
        self.profiles@.map_values(|p: Profile| p@)
    }

    /// An empty roster with nothing selected.
    pub fn new() -> (r: AppState)
        ensures
            r.profiles@.len() == 0,
            r.selected is None,
    {
        AppState { profiles: Vec::new(), selected: None }
    }

    /// Appends a profile and selects it.
    pub fn add_profile(&mut self, new_profile: Profile)
        ensures
            final(self).profiles@ == old(self).profiles@.push(new_profile),
            final(self).selected == Some((old(self).profiles@.len()) as usize),
    {
        self.profiles.push(new_profile);
        self.selected = Some(self.profiles.len() - 1);
    }

    /// The selected profile, when an in-bounds one is selected. The caller
    /// edits a profile through the public fields, under the index held in
    /// `selected`.
    pub fn get_selected(&self) -> (r: Option<&Profile>)
        ensures
            (self.selected is Some && self.selected->0 < self.profiles@.len()) ==> (r is Some
                && *r->0 == self.profiles@[self.selected->0 as int]),
            !(self.selected is Some && self.selected->0 < self.profiles@.len()) ==> r is None,
    {
        match self.selected {
            Some(index) => {
                if index >= self.profiles.len() {
                    return None;
                }
                Some(&self.profiles[index])
            },
            None => None,
        }
    }

    /// Records the index as selected. An out-of-bounds index is still
    /// recorded; `get_selected` answers `None` for it until the roster grows
    /// over it.
    pub fn set_selected(&mut self, i_index: usize)
        ensures
            final(self).profiles@ == old(self).profiles@,
            final(self).selected == Some(i_index),
    {
        if i_index >= self.profiles.len() {
            self.selected = None;
        }
        self.selected = Some(i_index);
    }

    /// A copy of every profile, in creation order.
    pub fn get_all_profiles(&self) -> (r: Vec<Profile>)
        ensures
            r@.map_values(|p: Profile| p@) == self.profiles_view(),
    {
        let mut r: Vec<Profile> = Vec::new();
        let mut i: usize = 0;
        while i < self.profiles.len()
            invariant
                0 <= i <= self.profiles.len(),
                r@.len() == i,
                forall|j: int| 0 <= j < i ==> #[trigger] r@[j]@ == self.profiles@[j]@,
            decreases self.profiles.len() - i,
        {
            r.push(self.profiles[i].clone());
            i = i + 1;
        }
        assert(r@.map_values(|p: Profile| p@) =~= self.profiles_view());
        r
    }
}

} // verus!
