//! An optional, player-selectable upgrade and its open-ended effects.

use vstd::prelude::*;

verus! {

/// One effect of a modifier. The catalog's effect bag is decoded once, at
/// load time, into this tagged form; the engine interprets only ability
/// grants, and keeps every other key opaque so that unknown effects are
/// ignored rather than rejected.
#[derive(Debug, PartialEq, Eq)]
pub enum Effect {
    /// Grants the special ability named by the text.
    Ability(String),
    /// An effect key the engine does not interpret, with the raw text of its
    /// value.
    Unknown(String, String),
}

/// The mathematical model of an effect.
pub enum EffectView {
    Ability(Seq<char>),
    Unknown(Seq<char>, Seq<char>),
}

impl View for Effect {
    type V = EffectView;

    open spec fn view(&self) -> EffectView {
        match self {
            Effect::Ability(a) => EffectView::Ability(a@),
            Effect::Unknown(k, v) => EffectView::Unknown(k@, v@),
        }
    }
}

impl Clone for Effect {
    fn clone(&self) -> (r: Self)
        ensures
            r == *self,
    {
        match self {
            Effect::Ability(a) => Effect::Ability(a.clone()),
            Effect::Unknown(k, v) => Effect::Unknown(k.clone(), v.clone()),
        }
    }
}

/// An optional upgrade: its display name (also its selection identity), the
/// points it adds to the profile's cost, and its effects.
#[derive(Debug, PartialEq, Eq)]
pub struct Modifier {
    pub id: String,
    pub points: u32,
    pub effects: Vec<Effect>,
}

/// The mathematical model of a modifier.
pub struct ModifierView {
    pub id: Seq<char>,
    pub points: u32,
    pub effects: Seq<EffectView>,
}

impl View for Modifier {
    type V = ModifierView;

    open spec fn view(&self) -> ModifierView {
        ModifierView {
            id: self.id@,
            points: self.points,
            effects: self.effects@.map_values(|e: Effect| e@),
        }
    }
}

impl Clone for Modifier {
    fn clone(&self) -> (r: Self)
        ensures
            r@ == self@,
    {
        let mut effects: Vec<Effect> = Vec::new();
        let mut i: usize = 0;
        while i < self.effects.len()
            invariant
                0 <= i <= self.effects.len(),
                effects@ =~= self.effects@.subrange(0, i as int),
            decreases self.effects.len() - i,
        {
            effects.push(self.effects[i].clone());
            i = i + 1;
        }
        assert(effects@ =~= self.effects@);
        let r = Modifier { id: self.id.clone(), points: self.points, effects };
        assert(r@.effects =~= self@.effects);
        r
    }
}

} // verus!
