//! The damage chart of a unit: colored intervals over the six die results.

use vstd::prelude::*;

verus! {

/// The color a damage interval is shown in.
#[derive(Clone, Copy, Debug, PartialEq, Eq, Structural)]
pub enum Color {
    Red,
    Yellow,
    Green,
}

/// A damage chart: intervals over the six die results, each with a width, a
/// display color and a label.
#[derive(Debug, PartialEq, Eq)]
pub struct DamageChart {
    pub intervals: Vec<(u32, Color, String)>,
}

impl View for DamageChart {
    type V = Seq<(u32, Color, Seq<char>)>;

    open spec fn view(&self) -> Seq<(u32, Color, Seq<char>)> {
        self.intervals@.map_values(|iv: (u32, Color, String)| (iv.0, iv.1, iv.2@))
    }
}

impl Clone for DamageChart {
    fn clone(&self) -> (r: Self)
        ensures
            r@ == self@,
    {
        let mut intervals: Vec<(u32, Color, String)> = Vec::new();
        let mut i: usize = 0;
        while i < self.intervals.len()
            invariant
                0 <= i <= self.intervals.len(),
                intervals@ =~= self.intervals@.subrange(0, i as int),
            decreases self.intervals.len() - i,
        {
            let iv = &self.intervals[i];
            intervals.push((iv.0, iv.1, iv.2.clone()));
            i = i + 1;
        }
        assert(intervals@ =~= self.intervals@);
        let r = DamageChart { intervals };
        assert(r@ =~= self@);
        r
    }
}

impl DamageChart {
    /// The chart every unit starts from: dead on a one, two results of
    /// movement damage, two of armor damage, pinned on a six.
    pub fn new_default() -> (r: DamageChart)
        ensures
            r@ == seq![
                (1u32, Color::Red, "DEAD"@),
                (2u32, Color::Yellow, "MOV "@),
                (2u32, Color::Yellow, "ARM "@),
                (1u32, Color::Green, "PIN "@),
            ],
    {
        let intervals: Vec<(u32, Color, String)> = vec![
            (1, Color::Red, String::from_str("DEAD")),
            (2, Color::Yellow, String::from_str("MOV ")),
            (2, Color::Yellow, String::from_str("ARM ")),
            (1, Color::Green, String::from_str("PIN ")),
        ];
        let r = DamageChart { intervals };
        assert(r@ =~= seq![
            (1u32, Color::Red, "DEAD"@),
            (2u32, Color::Yellow, "MOV "@),
            (2u32, Color::Yellow, "ARM "@),
            (1u32, Color::Green, "PIN "@),
        ]);
        r
    }

    /// The filler that stretches an interval's cell over the die results it
    /// covers beyond the first: nine columns for each.
    pub open spec fn spec_cell_pad(n: nat) -> Seq<char>
        decreases n,
    {
        if n <= 1 {
            Seq::empty()
        } else {
            Self::spec_cell_pad((n - 1) as nat) + "         "@
        }
    }

    /// The row of interval cells: each opens with a bar and two spaces, shows
    /// its label, stretches over its width, and closes with a space and a
    /// bar.
    pub open spec fn spec_intervals_row(ivs: Seq<(u32, Color, Seq<char>)>) -> Seq<char>
        decreases ivs.len(),
    {
        if ivs.len() == 0 {
            Seq::empty()
        } else {
            Self::spec_intervals_row(ivs.drop_last()) + "|  "@ + ivs.last().2
                + Self::spec_cell_pad(ivs.last().0 as nat) + " |"@
        }
    }

    /// The card text of a chart: a frame, the row of the six die results,
    /// and the row of interval cells.
    pub open spec fn spec_chart_ascii(ivs: Seq<(u32, Color, Seq<char>)>) -> Seq<char> {
        "----------------------------------------------------------\n| "@
            + "    1        2        3        4        5        6    "@ + " |\n| "@
            + Self::spec_intervals_row(ivs) + " |\n"@
            + "----------------------------------------------------------"@
    }

    /// The card text of this chart.
    pub open spec fn spec_display_ascii(&self) -> Seq<char> {
        Self::spec_chart_ascii(self@)
    }

    /// Renders the chart as card text.
    pub fn display_ascii(&self) -> (r: String)
        ensures
            r@ == self.spec_display_ascii(),
    {
        let ghost ivs = self@;
        let mut out_string = String::from_str(
            "----------------------------------------------------------\n| ",
        );
        out_string.append("    1        2        3        4        5        6    ");
        out_string.append(" |\n| ");
        let ghost header = out_string@;
        let mut i: usize = 0;
        while i < self.intervals.len()
            invariant
                0 <= i <= self.intervals.len(),
                ivs == self@,
                ivs.len() == self.intervals@.len(),
                out_string@ == header + Self::spec_intervals_row(ivs.subrange(0, i as int)),
            decreases self.intervals.len() - i,
        {
            proof {
                assert(ivs.subrange(0, i as int + 1).drop_last() =~= ivs.subrange(0, i as int));
                assert(ivs[i as int] == (
                    self.intervals@[i as int].0,
                    self.intervals@[i as int].1,
                    self.intervals@[i as int].2@,
                ));
            }
            let element = &self.intervals[i];
            out_string.append("|  ");
            let label = element.2.clone();
            out_string.append(label.as_str());
            let ghost cell_base = out_string@;
            let width = element.0;
            let mut j: u32 = 1;
            while j < width
                invariant
                    1 <= j,
                    j <= width || j == 1,
                    out_string@ == cell_base + Self::spec_cell_pad(j as nat),
                decreases width - j,
            {
                out_string.append("         ");
                j = j + 1;
            }
            proof {
                if width == 0 {
                    assert(Self::spec_cell_pad(1) =~= Self::spec_cell_pad(0));
                }
                assert(out_string@ == cell_base + Self::spec_cell_pad(width as nat));
            }
            out_string.append(" |");
            assert(out_string@ =~= header + Self::spec_intervals_row(
                ivs.subrange(0, i as int + 1),
            ));
            i = i + 1;
        }
        proof {
            assert(ivs.subrange(0, ivs.len() as int) =~= ivs);
        }
        out_string.append(" |\n");
        out_string.append("----------------------------------------------------------");
        assert(out_string@ =~= self.spec_display_ascii());
        out_string
    }
}

} // verus!
