//! The central aggregate and the derivation engine: a profile seeded from a
//! class, and the computation of its final, effective form from the selected
//! modifiers and actions.

use vstd::prelude::*;

use crate::action::{Action, ActionView};
use crate::characteristics::Characteristics;
use crate::class::{Class, Tier};
use crate::damage_chart::{Color, DamageChart};
use crate::modifier::{Effect, EffectView, Modifier, ModifierView};
use crate::strutil::{clone_strings, join_strings, spec_dec, spec_join, u32_to_string};

verus! {

/// A unit profile: the catalog data it deep-copied from its class, the
/// player's selections, and its cost. The cost of a base profile is the
/// class's base cost; only `get_final_profile` computes the authoritative
/// total.
#[derive(Debug)]
pub struct Profile {
    pub name: String,
    pub class_name: String,
    pub selected_modifiers: Vec<Modifier>,
    pub description: String,
    pub tier: Tier,
    pub characteristics: Characteristics,
    pub special_abilities: Vec<String>,
    pub damage_chart: DamageChart,
    pub actions: Vec<Action>,
    pub cost: u32,
}

/// The mathematical model of a profile.
pub struct ProfileView {
    pub name: Seq<char>,
    pub class_name: Seq<char>,
    pub selected_modifiers: Seq<ModifierView>,
    pub description: Seq<char>,
    pub tier: Tier,
    pub characteristics: Characteristics,
    pub special_abilities: Seq<Seq<char>>,
    pub damage_chart: Seq<(u32, Color, Seq<char>)>,
    pub actions: Seq<ActionView>,
    pub cost: u32,
}

impl View for Profile {
    type V = ProfileView;

    open spec fn view(&self) -> ProfileView {
        ProfileView {
            name: self.name@,
            class_name: self.class_name@,
            selected_modifiers: self.selected_modifiers@.map_values(|m: Modifier| m@),
            description: self.description@,
            tier: self.tier,
            characteristics: self.characteristics,
            special_abilities: self.special_abilities@.map_values(|s: String| s@),
            damage_chart: self.damage_chart@,
            actions: self.actions@.map_values(|a: Action| a@),
            cost: self.cost,
        }
    }
}

/// The ability names a list of effects grants, in order.
pub open spec fn spec_effect_abilities(effects: Seq<EffectView>) -> Seq<Seq<char>>
    decreases effects.len(),
{
    if effects.len() == 0 {
        Seq::empty()
    } else {
        spec_effect_abilities(effects.drop_last()) + (match effects.last() {
            EffectView::Ability(a) => seq![a],
            EffectView::Unknown(_, _) => Seq::empty(),
        })
    }
}

/// The ability names a list of modifiers grants, in selection order.
pub open spec fn spec_mod_abilities(mods: Seq<ModifierView>) -> Seq<Seq<char>>
    decreases mods.len(),
{
    if mods.len() == 0 {
        Seq::empty()
    } else {
        spec_mod_abilities(mods.drop_last()) + spec_effect_abilities(mods.last().effects)
    }
}

/// The points a list of modifiers adds to the cost.
pub open spec fn spec_mod_points(mods: Seq<ModifierView>) -> int
    decreases mods.len(),
{
    if mods.len() == 0 {
        0
    } else {
        spec_mod_points(mods.drop_last()) + mods.last().points
    }
}

/// The points a list of actions adds to the cost.
pub open spec fn spec_action_points(actions: Seq<ActionView>) -> int
    decreases actions.len(),
{
    if actions.len() == 0 {
        0
    } else {
        spec_action_points(actions.drop_last()) + actions.last().points
    }
}

pub proof fn lemma_mod_points_nonneg(mods: Seq<ModifierView>)
    ensures
        spec_mod_points(mods) >= 0,
    decreases mods.len(),
{
    if mods.len() > 0 {
        lemma_mod_points_nonneg(mods.drop_last());
    }
}

pub proof fn lemma_action_points_nonneg(actions: Seq<ActionView>)
    ensures
        spec_action_points(actions) >= 0,
    decreases actions.len(),
{
    if actions.len() > 0 {
        lemma_action_points_nonneg(actions.drop_last());
    }
}

/// The points of any prefix are at most the points of the whole list.
pub proof fn lemma_mod_points_prefix(mods: Seq<ModifierView>, j: int)
    requires
        0 <= j <= mods.len(),
    ensures
        spec_mod_points(mods.subrange(0, j)) <= spec_mod_points(mods),
    decreases mods.len() - j,
{
    if j == mods.len() {
        assert(mods.subrange(0, j) =~= mods);
    } else {
        lemma_mod_points_prefix(mods, j + 1);
        assert(mods.subrange(0, j + 1).drop_last() =~= mods.subrange(0, j));
    }
}

/// The points of any prefix are at most the points of the whole list.
pub proof fn lemma_action_points_prefix(actions: Seq<ActionView>, j: int)
    requires
        0 <= j <= actions.len(),
    ensures
        spec_action_points(actions.subrange(0, j)) <= spec_action_points(actions),
    decreases actions.len() - j,
{
    if j == actions.len() {
        assert(actions.subrange(0, j) =~= actions);
    } else {
        lemma_action_points_prefix(actions, j + 1);
        assert(actions.subrange(0, j + 1).drop_last() =~= actions.subrange(0, j));
    }
}

/// The modifier ids joined with a comma and a space, in selection order.
pub open spec fn spec_join_ids(mods: Seq<ModifierView>) -> Seq<char>
    decreases mods.len(),
{
    if mods.len() == 0 {
        Seq::empty()
    } else if mods.len() == 1 {
        mods[0].id
    } else {
        spec_join_ids(mods.drop_last()) + ", "@ + mods.last().id
    }
}

/// The description of the final profile: the base description, and after it,
/// when any modifier is selected, the parenthesized list of modifier ids.
pub open spec fn spec_derived_description(p: ProfileView) -> Seq<char> {
    if p.selected_modifiers.len() == 0 {
        p.description
    } else {
        p.description + " ("@ + spec_join_ids(p.selected_modifiers) + ")"@
    }
}

/// The authoritative cost of the final profile: the base cost, the points of
/// every selected modifier, and the points of every selected action.
pub open spec fn spec_derived_cost(p: ProfileView) -> int {
    p.cost + spec_mod_points(p.selected_modifiers) + spec_action_points(p.actions)
}

/// The final profile derived from a base profile: the recomputed cost, the
/// accumulated special abilities (duplicates preserved), the augmented
/// description; every other field as in the base.
pub open spec fn spec_derive(p: ProfileView) -> ProfileView {
    ProfileView {
        cost: spec_derived_cost(p) as u32,
        special_abilities: p.special_abilities + spec_mod_abilities(p.selected_modifiers),
        description: spec_derived_description(p),
        ..p
    }
}

/// Applies one modifier to a profile under derivation: appends the abilities
/// its effects grant (unknown effects are ignored, not errors) and adds its
/// points to the cost.
pub fn apply_modifier_effects(profile: &mut Profile, modifier: &Modifier)
    requires
        old(profile).cost + modifier.points <= u32::MAX,
    ensures
        final(profile)@ == (ProfileView {
            cost: (old(profile).cost + modifier.points) as u32,
            special_abilities: old(profile)@.special_abilities + spec_effect_abilities(
                modifier@.effects,
            ),
            ..old(profile)@
        }),
{
    let ghost effects_view = modifier@.effects;
    let mut k: usize = 0;
    while k < modifier.effects.len()
        invariant
            0 <= k <= modifier.effects.len(),
            effects_view == modifier@.effects,
            effects_view.len() == modifier.effects@.len(),
            profile.name == old(profile).name,
            profile.class_name == old(profile).class_name,
            profile.selected_modifiers == old(profile).selected_modifiers,
            profile.description == old(profile).description,
            profile.tier == old(profile).tier,
            profile.characteristics == old(profile).characteristics,
            profile.damage_chart == old(profile).damage_chart,
            profile.actions == old(profile).actions,
            profile.cost == old(profile).cost,
            profile@.special_abilities =~= old(profile)@.special_abilities
                + spec_effect_abilities(effects_view.subrange(0, k as int)),
        decreases modifier.effects.len() - k,
    {
        proof {
            assert(effects_view.subrange(0, k as int + 1).drop_last() =~= effects_view.subrange(
                0,
                k as int,
            ));
            assert(effects_view[k as int] == modifier.effects@[k as int]@);
        }
        match &modifier.effects[k] {
            Effect::Ability(new_ability) => {
                assert(effects_view[k as int] == EffectView::Ability(new_ability@));
                assert(spec_effect_abilities(effects_view.subrange(0, k as int + 1))
                    == spec_effect_abilities(effects_view.subrange(0, k as int)) + seq![
                    new_ability@,
                ]);
                let ghost pre_abs = profile@.special_abilities;
                let cloned = new_ability.clone();
                assert(cloned@ == new_ability@);
                profile.special_abilities.push(cloned);
                assert(profile@.special_abilities =~= pre_abs.push(new_ability@));
                assert(profile@.special_abilities =~= old(profile)@.special_abilities
                    + spec_effect_abilities(effects_view.subrange(0, k as int + 1)));
            },
            Effect::Unknown(_, _) => {
                assert(profile@.special_abilities =~= old(profile)@.special_abilities
                    + spec_effect_abilities(effects_view.subrange(0, k as int + 1)));
            },
        }
        k = k + 1;
    }
    proof {
        assert(effects_view.subrange(0, effects_view.len() as int) =~= effects_view);
    }
    profile.cost = profile.cost + modifier.points;
}

impl Profile {
    /// The profile a name and a class template seed: the description starts
    /// as the class name, the characteristics, damage chart and cost are the
    /// class's, and no modifier or action is selected yet.
    pub open spec fn spec_new(name: Seq<char>, class: crate::class::ClassView) -> ProfileView {
        ProfileView {
            name: name,
            class_name: class.name,
            selected_modifiers: Seq::empty(),
            description: class.name,
            tier: class.tier,
            characteristics: class.characteristics,
            special_abilities: Seq::empty(),
            damage_chart: class.damage_profile,
            actions: Seq::empty(),
            cost: class.cost,
        }
    }

    /// Seeds a new profile from a class.
    pub fn new(i_name: String, i_class: Class) -> (r: Profile)
        ensures
            r@ == Self::spec_new(i_name@, i_class@),
    {
        let r = Profile {
            name: i_name,
            description: i_class.name.clone(),
            class_name: i_class.name,
            selected_modifiers: Vec::new(),
            tier: i_class.tier,
            characteristics: i_class.characteristics,
            special_abilities: Vec::new(),
            damage_chart: i_class.damage_profile,
            actions: Vec::new(),
            cost: i_class.cost,
        };
        proof {
            assert(r@.selected_modifiers =~= Seq::<ModifierView>::empty());
            assert(r@.special_abilities =~= Seq::<Seq<char>>::empty());
            assert(r@.actions =~= Seq::<ActionView>::empty());
        }
        r
    }

    /// Copies the selected modifiers.
    fn clone_modifiers(v: &Vec<Modifier>) -> (r: Vec<Modifier>)
        ensures
            r@.map_values(|m: Modifier| m@) == v@.map_values(|m: Modifier| m@),
    {
        let mut r: Vec<Modifier> = Vec::new();
        let mut i: usize = 0;
        while i < v.len()
            invariant
                0 <= i <= v.len(),
                r@.len() == i,
                forall|j: int| 0 <= j < i ==> #[trigger] r@[j]@ == v@[j]@,
            decreases v.len() - i,
        {
            r.push(v[i].clone());
            i = i + 1;
        }
        assert(r@.map_values(|m: Modifier| m@) =~= v@.map_values(|m: Modifier| m@));
        r
    }

    /// Copies the selected actions.
    fn clone_actions(v: &Vec<Action>) -> (r: Vec<Action>)
        ensures
            r@.map_values(|a: Action| a@) == v@.map_values(|a: Action| a@),
    {
        let mut r: Vec<Action> = Vec::new();
        let mut i: usize = 0;
        while i < v.len()
            invariant
                0 <= i <= v.len(),
                r@.len() == i,
                forall|j: int| 0 <= j < i ==> #[trigger] r@[j]@ == v@[j]@,
            decreases v.len() - i,
        {
            r.push(v[i].clone());
            i = i + 1;
        }
        assert(r@.map_values(|a: Action| a@) =~= v@.map_values(|a: Action| a@));
        r
    }

    /// Derives the final profile: applies every selected modifier in order,
    /// adds every selected action's points, and augments the description with
    /// the list of modifier ids. The base profile is left untouched; the
    /// returned profile is an independent value.
    pub fn get_final_profile(&self) -> (r: Profile)
        requires
            spec_derived_cost(self@) <= u32::MAX,
        ensures
            r@ == spec_derive(self@),
    {
        let ghost mods = self@.selected_modifiers;
        let ghost acts = self@.actions;
        proof {
            lemma_mod_points_nonneg(mods);
            lemma_action_points_nonneg(acts);
        }
        let mut modified_profile = self.clone();

        // Applying the modifiers.
        let mut i: usize = 0;
        while i < self.selected_modifiers.len()
            invariant
                0 <= i <= self.selected_modifiers.len(),
                mods == self@.selected_modifiers,
                acts == self@.actions,
                mods.len() == self.selected_modifiers@.len(),
                spec_derived_cost(self@) <= u32::MAX,
                modified_profile@ == (ProfileView {
                    cost: (self@.cost + spec_mod_points(mods.subrange(0, i as int))) as u32,
                    special_abilities: self@.special_abilities + spec_mod_abilities(
                        mods.subrange(0, i as int),
                    ),
                    ..self@
                }),
            decreases self.selected_modifiers.len() - i,
        {
            proof {
                lemma_mod_points_nonneg(mods.subrange(0, i as int));
                lemma_mod_points_prefix(mods, i as int + 1);
                lemma_action_points_nonneg(acts);
                assert(mods.subrange(0, i as int + 1).drop_last() =~= mods.subrange(0, i as int));
                assert(mods[i as int] == self.selected_modifiers@[i as int]@);
            }
            apply_modifier_effects(&mut modified_profile, &self.selected_modifiers[i]);
            proof {
                assert(modified_profile@.special_abilities =~= self@.special_abilities
                    + spec_mod_abilities(mods.subrange(0, i as int + 1)));
            }
            i = i + 1;
        }
        proof {
            assert(mods.subrange(0, mods.len() as int) =~= mods);
        }

        // Calculating the actions costs.
        let mut k: usize = 0;
        while k < self.actions.len()
            invariant
                0 <= k <= self.actions.len(),
                mods == self@.selected_modifiers,
                acts == self@.actions,
                acts.len() == self.actions@.len(),
                spec_derived_cost(self@) <= u32::MAX,
                modified_profile@ == (ProfileView {
                    cost: (self@.cost + spec_mod_points(mods) + spec_action_points(
                        acts.subrange(0, k as int),
                    )) as u32,
                    special_abilities: self@.special_abilities + spec_mod_abilities(mods),
                    ..self@
                }),
            decreases self.actions.len() - k,
        {
            proof {
                lemma_action_points_nonneg(acts.subrange(0, k as int));
                lemma_action_points_prefix(acts, k as int + 1);
                lemma_mod_points_nonneg(mods);
                assert(acts.subrange(0, k as int + 1).drop_last() =~= acts.subrange(0, k as int));
                assert(acts[k as int] == self.actions@[k as int]@);
            }
            proof {
                assert(spec_action_points(acts.subrange(0, k as int + 1)) == spec_action_points(
                    acts.subrange(0, k as int),
                ) + acts[k as int].points);
                assert(self@.cost + spec_mod_points(mods) + spec_action_points(
                    acts.subrange(0, k as int + 1),
                ) <= u32::MAX);
            }
            modified_profile.cost = modified_profile.cost + self.actions[k].points;
            k = k + 1;
        }
        proof {
            assert(acts.subrange(0, acts.len() as int) =~= acts);
        }

        // Updating the profile description.
        let ghost costed_view = modified_profile@;
        if modified_profile.selected_modifiers.len() > 0 {
            modified_profile.description.append(" (");
            let mut m: usize = 0;
            while m < modified_profile.selected_modifiers.len()
                invariant
                    0 <= m <= modified_profile.selected_modifiers.len(),
                    mods.len() == modified_profile.selected_modifiers@.len(),
                    mods.len() > 0,
                    forall|j: int|
                        0 <= j < mods.len() ==> #[trigger] modified_profile.selected_modifiers@[j]@
                            == mods[j],
                    modified_profile@ == (ProfileView {
                        description: modified_profile@.description,
                        ..costed_view
                    }),
                    modified_profile.description@ == self@.description + " ("@ + spec_join_ids(
                        mods.subrange(0, m as int),
                    ),
                decreases modified_profile.selected_modifiers.len() - m,
            {
                proof {
                    assert(mods.subrange(0, m as int + 1).drop_last() =~= mods.subrange(
                        0,
                        m as int,
                    ));
                    if m > 0 {
                        assert(mods.subrange(0, m as int + 1).len() >= 2);
                    } else {
                        assert(mods.subrange(0, 1)[0] == mods[0]);
                    }
                }
                if m > 0 {
                    modified_profile.description.append(", ");
                }
                proof {
                    assert(modified_profile.selected_modifiers@[m as int]@ == mods[m as int]);
                    assert(mods.subrange(0, m as int + 1).last() == mods[m as int]);
                }
                let id = modified_profile.selected_modifiers[m].id.clone();
                modified_profile.description.append(id.as_str());
                assert(modified_profile.description@ =~= self@.description + " ("@
                    + spec_join_ids(mods.subrange(0, m as int + 1)));
                m = m + 1;
            }
            modified_profile.description.append(")");
            proof {
                assert(mods.subrange(0, mods.len() as int) =~= mods);
                assert(modified_profile@.description == spec_derived_description(self@));
            }
        }
        modified_profile
    }


    /// Renders the full card text of this profile: name, description and
    /// cost, the stat line, one card area per action at this profile's tier,
    /// the special abilities joined by commas, and the damage chart.
    pub fn display_ascii(&self) -> (r: String)
        ensures
            r@ == spec_profile_ascii(self@),
    {
        let ghost acts = self@.actions;
        let mut out_string = String::from_str("Character Name:     ");
        out_string.append(self.name.as_str());
        out_string.append("\nDescription:        ");
        out_string.append(self.description.as_str());
        out_string.append("\nCost:               ");
        let cost_text = u32_to_string(self.cost);
        out_string.append(cost_text.as_str());
        out_string.append("\n\n");
        let stats = self.characteristics.display_ascii();
        out_string.append(stats.as_str());
        out_string.append("\n\nActions:            ");
        let ghost header = out_string@;
        let mut i: usize = 0;
        while i < self.actions.len()
            invariant
                0 <= i <= self.actions.len(),
                acts == self@.actions,
                acts.len() == self.actions@.len(),
                self.tier == self@.tier,
                out_string@ == header + spec_actions_block(acts.subrange(0, i as int), self@.tier),
            decreases self.actions.len() - i,
        {
            proof {
                assert(acts.subrange(0, i as int + 1).drop_last() =~= acts.subrange(0, i as int));
                assert(acts.subrange(0, i as int + 1).last() == acts[i as int]);
                assert(acts[i as int] == self.actions@[i as int]@);
            }
            out_string.append("\n");
            let action_text = self.actions[i].display_ascii(&self.tier);
            out_string.append(action_text.as_str());
            i = i + 1;
        }
        proof {
            assert(acts.subrange(0, acts.len() as int) =~= acts);
        }
        out_string.append("\n\nSpecial Abilities:  ");
        let abilities = join_strings(&self.special_abilities, ", ");
        out_string.append(abilities.as_str());
        out_string.append("\n\n");
        let chart = self.damage_chart.display_ascii();
        out_string.append(chart.as_str());
        assert(out_string@ =~= spec_profile_ascii(self@));
        out_string
    }
}

/// The card areas of a list of actions, each on lines of its own.
pub open spec fn spec_actions_block(actions: Seq<ActionView>, tier: Tier) -> Seq<char>
    decreases actions.len(),
{
    if actions.len() == 0 {
        Seq::empty()
    } else {
        spec_actions_block(actions.drop_last(), tier) + "\n"@ + crate::action::spec_action_ascii(
            actions.last(),
            tier,
        )
    }
}

/// The full card text of a profile.
pub open spec fn spec_profile_ascii(p: ProfileView) -> Seq<char> {
    "Character Name:     "@ + p.name + "\nDescription:        "@ + p.description
        + "\nCost:               "@ + spec_dec(p.cost as nat) + "\n\n"@
        + p.characteristics.spec_display_ascii() + "\n\nActions:            "@
        + spec_actions_block(p.actions, p.tier) + "\n\nSpecial Abilities:  "@ + spec_join(
        p.special_abilities,
        ", "@,
    ) + "\n\n"@ + DamageChart::spec_chart_ascii(p.damage_chart)
}

impl Clone for Profile {
    /// Copies a profile field by field.
    fn clone(&self) -> (r: Profile)
        ensures
            r@ == self@,
    {
        let r = Profile {
            name: self.name.clone(),
            class_name: self.class_name.clone(),
            selected_modifiers: Profile::clone_modifiers(&self.selected_modifiers),
            description: self.description.clone(),
            tier: self.tier,
            characteristics: self.characteristics,
            special_abilities: clone_strings(&self.special_abilities),
            damage_chart: self.damage_chart.clone(),
            actions: Profile::clone_actions(&self.actions),
            cost: self.cost,
        };
        assert(r@.special_abilities =~= self@.special_abilities);
        r
    }
}

/// Creates a profile with the given name from a class template.
pub fn create_profile(i_name: String, i_class: Class) -> (r: Profile)
    ensures
        r@ == Profile::spec_new(i_name@, i_class@),
{
    Profile::new(i_name, i_class)
}

} // verus!
