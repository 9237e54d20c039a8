//! A selectable capability with a tier-dependent activation cost.

use vstd::prelude::*;

use crate::class::Tier;
use crate::strutil::{pad_right, spec_dec, spec_pad, u32_to_string};

verus! {

/// The activation-die ranges of an action, one list per tier. A range with a
/// zero minimum is free; equal bounds are a fixed die value; anything else is
/// an inclusive range.
#[derive(Debug, PartialEq, Eq)]
pub struct ActionCost {
    pub goon: Vec<(u32, u32)>,
    pub character: Vec<(u32, u32)>,
    pub hero: Vec<(u32, u32)>,
}

/// The mathematical model of an action cost.
pub struct ActionCostView {
    pub goon: Seq<(u32, u32)>,
    pub character: Seq<(u32, u32)>,
    pub hero: Seq<(u32, u32)>,
}

impl View for ActionCost {
    type V = ActionCostView;

    open spec fn view(&self) -> ActionCostView {
        ActionCostView { goon: self.goon@, character: self.character@, hero: self.hero@ }
    }
}

/// Copies a list of activation-die ranges.
fn clone_ranges(v: &Vec<(u32, u32)>) -> (r: Vec<(u32, u32)>)
    ensures
        r@ == v@,
{
    let mut r: Vec<(u32, u32)> = Vec::new();
    let mut i: usize = 0;
    while i < v.len()
        invariant
            0 <= i <= v.len(),
            r@ =~= v@.subrange(0, i as int),
        decreases v.len() - i,
    {
        r.push(v[i]);
        i = i + 1;
    }
    assert(r@ =~= v@);
    r
}

impl Clone for ActionCost {
    fn clone(&self) -> (r: Self)
        ensures
            r@ == self@,
    {
        ActionCost {
            goon: clone_ranges(&self.goon),
            character: clone_ranges(&self.character),
            hero: clone_ranges(&self.hero),
        }
    }
}

/// A selectable capability: its name, its activation cost per tier, its rules
/// text, whether it occupies the single prepared slot, and the points it adds
/// to the profile's cost.
#[derive(Debug, PartialEq, Eq)]
pub struct Action {
    pub name: String,
    pub cost: ActionCost,
    pub text: String,
    pub slot: bool,
    pub points: u32,
}

/// The mathematical model of an action.
pub struct ActionView {
    pub name: Seq<char>,
    pub cost: ActionCostView,
    pub text: Seq<char>,
    pub slot: bool,
    pub points: u32,
}

impl View for Action {
    type V = ActionView;

    open spec fn view(&self) -> ActionView {
        ActionView {
            name: self.name@,
            cost: self.cost@,
            text: self.text@,
            slot: self.slot,
            points: self.points,
        }
    }
}

impl Clone for Action {
    fn clone(&self) -> (r: Self)
        ensures
            r@ == self@,
    {
        Action {
            name: self.name.clone(),
            cost: self.cost.clone(),
            text: self.text.clone(),
            slot: self.slot,
            points: self.points,
        }
    }
}

/// A catalog of actions.
#[derive(Debug)]
pub struct ActionsConfig {
    pub actions: Vec<Action>,
}

impl View for ActionsConfig {
    type V = Seq<ActionView>;

    open spec fn view(&self) -> Seq<ActionView> {
        self.actions@.map_values(|a: Action| a@)
    }
}

/// The display text of one activation-die range: `FREE` when the minimum is
/// zero, the single value when the bounds agree, the two bounds joined by a
/// dash otherwise.
pub open spec fn spec_range_str(lo: u32, hi: u32) -> Seq<char> {
    if lo == 0 {
        "FREE"@
    } else if lo == hi {
        spec_dec(lo as nat)
    } else {
        spec_dec(lo as nat) + "-"@ + spec_dec(hi as nat)
    }
}

/// The display texts of a list of activation-die ranges.
pub open spec fn spec_range_strs(ranges: Seq<(u32, u32)>) -> Seq<Seq<char>> {
    ranges.map_values(|r: (u32, u32)| spec_range_str(r.0, r.1))
}

impl Action {
    /// The activation-die ranges this action costs at the given tier.
    pub open spec fn spec_cost_for_tier(&self, tier: Tier) -> Seq<(u32, u32)> {
        match tier {
            Tier::Goon => self.cost.goon@,
            Tier::Char => self.cost.character@,
            Tier::Hero => self.cost.hero@,
        }
    }

    /// Selects the activation-cost list matching the tier.
    pub fn get_action_cost(&self, tier: &Tier) -> (r: Vec<(u32, u32)>)
        ensures
            r@ == self.spec_cost_for_tier(*tier),
    {
        match tier {
            Tier::Goon => clone_ranges(&self.cost.goon),
            Tier::Char => clone_ranges(&self.cost.character),
            Tier::Hero => clone_ranges(&self.cost.hero),
        }
    }

    /// The display text of one activation-die range.
    fn range_to_str(&self, range: &(u32, u32)) -> (r: String)
        ensures
            r@ == spec_range_str(range.0, range.1),
    {
        if range.0 == 0 {
            String::from_str("FREE")
        } else if range.0 == range.1 {
            u32_to_string(range.0)
        } else {
            let mut r = u32_to_string(range.0);
            r.append("-");
            let hi = u32_to_string(range.1);
            r.append(hi.as_str());
            r
        }
    }

    /// The display texts of this action's activation cost at the given tier.
    pub fn get_action_cost_str(&self, tier: &Tier) -> (r: Vec<String>)
        ensures
            r@.map_values(|s: String| s@) == spec_range_strs(self.spec_cost_for_tier(*tier)),
    {
        let ranges = self.get_action_cost(tier);
        let mut r: Vec<String> = Vec::new();
        let mut i: usize = 0;
        while i < ranges.len()
            invariant
                0 <= i <= ranges.len(),
                ranges@ == self.spec_cost_for_tier(*tier),
                r@.len() == i,
                forall|j: int| 0 <= j < i ==> #[trigger] r@[j]@ == spec_range_str(
                    ranges@[j].0,
                    ranges@[j].1,
                ),
            decreases ranges.len() - i,
        {
            let text = self.range_to_str(&ranges[i]);
            r.push(text);
            i = i + 1;
        }
        assert(r@.map_values(|s: String| s@) =~= spec_range_strs(self.spec_cost_for_tier(*tier)));
        r
    }

    /// Appends one activation box to the three lines of an action's card
    /// area: a dashed top and bottom, and the cost text between bars.
    fn add_ascii_box(lines: &mut Vec<String>, content: Option<(u32, u32)>)
        requires
            old(lines)@.len() == 3,
        ensures
            final(lines)@.len() == 3,
            final(lines)@[0]@ == old(lines)@[0]@ + "------- "@,
            final(lines)@[1]@ == old(lines)@[1]@ + "|"@ + spec_box_text(content) + "| "@,
            final(lines)@[2]@ == old(lines)@[2]@ + "------- "@,
    {
        let text_content: String = match content {
            Some(range) => {
                if range.0 == 0 {
                    String::from_str("FREE ")
                } else if range.0 == range.1 {
                    let mut t = String::from_str("  ");
                    let lo = u32_to_string(range.0);
                    t.append(lo.as_str());
                    t.append("  ");
                    t
                } else {
                    let mut t = String::from_str(" ");
                    let lo = u32_to_string(range.0);
                    t.append(lo.as_str());
                    t.append("-");
                    let hi = u32_to_string(range.1);
                    t.append(hi.as_str());
                    t.append(" ");
                    t
                }
            },
            None => String::from_str("     "),
        };
        assert(text_content@ == spec_box_text(content));
        let mut l0 = lines[0].clone();
        l0.append("------- ");
        lines[0] = l0;
        let mut l1 = lines[1].clone();
        l1.append("|");
        l1.append(text_content.as_str());
        l1.append("| ");
        lines[1] = l1;
        let mut l2 = lines[2].clone();
        l2.append("------- ");
        lines[2] = l2;
    }

    /// Renders the card area of this action at the given tier: one box per
    /// activation cost, the name over the rules text, and a trailing empty
    /// box when the action occupies the prepared slot.
    pub fn display_ascii(&self, profile_tier: &Tier) -> (r: String)
        ensures
            r@ == spec_action_ascii(self@, *profile_tier),
    {
        let ghost ranges_v = self@.cost_for_tier(*profile_tier);
        let mut lines: Vec<String> = Vec::new();
        lines.push(String::new());
        lines.push(String::new());
        lines.push(String::new());
        assert(lines@[0]@ =~= Seq::<char>::empty());
        assert(lines@[1]@ =~= Seq::<char>::empty());
        assert(lines@[2]@ =~= Seq::<char>::empty());

        let ranges = self.get_action_cost(profile_tier);
        let mut i: usize = 0;
        while i < ranges.len()
            invariant
                0 <= i <= ranges.len(),
                ranges@ == ranges_v,
                lines@.len() == 3,
                lines@[0]@ =~= spec_box_tops(i as nat),
                lines@[1]@ =~= spec_box_mids(ranges_v.subrange(0, i as int)),
                lines@[2]@ =~= spec_box_tops(i as nat),
            decreases ranges.len() - i,
        {
            proof {
                assert(ranges_v.subrange(0, i as int + 1).drop_last() =~= ranges_v.subrange(
                    0,
                    i as int,
                ));
                assert(ranges_v.subrange(0, i as int + 1).last() == ranges_v[i as int]);
            }
            Self::add_ascii_box(&mut lines, Some(ranges[i]));
            i = i + 1;
        }
        proof {
            assert(ranges_v.subrange(0, ranges_v.len() as int) =~= ranges_v);
        }

        let mut l0 = lines[0].clone();
        l0.append(" ");
        let name_padded = pad_right(self.name.as_str(), 32);
        l0.append(name_padded.as_str());
        lines[0] = l0;
        let mut l1 = lines[1].clone();
        l1.append(" ");
        let text_padded = pad_right(self.text.as_str(), 32);
        l1.append(text_padded.as_str());
        lines[1] = l1;
        let mut l2 = lines[2].clone();
        l2.append(" ");
        let blank_padded = pad_right(" ", 32);
        l2.append(blank_padded.as_str());
        lines[2] = l2;

        if self.slot {
            Self::add_ascii_box(&mut lines, None);
        }

        let mut out = lines[0].clone();
        out.append("
");
        let mid = lines[1].clone();
        out.append(mid.as_str());
        out.append("
");
        let bot = lines[2].clone();
        out.append(bot.as_str());
        assert(out@ =~= spec_action_ascii(self@, *profile_tier));
        out
    }
}

impl ActionView {
    /// The activation-die ranges an action costs at the given tier.
    pub open spec fn cost_for_tier(self, tier: Tier) -> Seq<(u32, u32)> {
        match tier {
            Tier::Goon => self.cost.goon,
            Tier::Char => self.cost.character,
            Tier::Hero => self.cost.hero,
        }
    }
}

/// The text inside one activation box: `FREE `, a centered fixed value, a
/// dashed range, or blank space for the empty prepared-slot box.
pub open spec fn spec_box_text(content: Option<(u32, u32)>) -> Seq<char> {
    match content {
        Some(range) => {
            if range.0 == 0 {
                "FREE "@
            } else if range.0 == range.1 {
                "  "@ + spec_dec(range.0 as nat) + "  "@
            } else {
                " "@ + spec_dec(range.0 as nat) + "-"@ + spec_dec(range.1 as nat) + " "@
            }
        },
        None => "     "@,
    }
}

/// The dashed edge of a row of boxes.
pub open spec fn spec_box_tops(n: nat) -> Seq<char>
    decreases n,
{
    if n == 0 {
        Seq::empty()
    } else {
        spec_box_tops((n - 1) as nat) + "------- "@
    }
}

/// The middle of a row of boxes: each cost text between bars.
pub open spec fn spec_box_mids(ranges: Seq<(u32, u32)>) -> Seq<char>
    decreases ranges.len(),
{
    if ranges.len() == 0 {
        Seq::empty()
    } else {
        spec_box_mids(ranges.drop_last()) + "|"@ + spec_box_text(Some(ranges.last())) + "| "@
    }
}

/// The card text of one action at the given tier: the three lines of its
/// boxes, name and rules text, joined by newlines.
pub open spec fn spec_action_ascii(a: ActionView, tier: Tier) -> Seq<char> {
    let ranges = a.cost_for_tier(tier);
    let slot_top: Seq<char> = if a.slot {
        "------- "@
    } else {
        Seq::empty()
    };
    let slot_mid: Seq<char> = if a.slot {
        "|"@ + spec_box_text(None) + "| "@
    } else {
        Seq::empty()
    };
    let l0 = spec_box_tops(ranges.len()) + " "@ + spec_pad(a.name, 32) + slot_top;
    let l1 = spec_box_mids(ranges) + " "@ + spec_pad(a.text, 32) + slot_mid;
    let l2 = spec_box_tops(ranges.len()) + " "@ + spec_pad(" "@, 32) + slot_top;
    l0 + "
"@ + l1 + "
"@ + l2
}

} // verus!
