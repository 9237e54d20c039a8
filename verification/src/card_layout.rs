//! Laying profile cards out two per row for the printable sheet: the text
//! manipulation behind the PDF export. Writing the PDF file itself is the
//! surrounding application's concern.

use vstd::prelude::*;

use crate::profile::{spec_profile_ascii, Profile, ProfileView};
use crate::strutil::{pad_right, spaces, spec_lines, spec_pad, spec_spaces, split_lines};

verus! {

/// The width of the left column on a printed row of two cards.
pub const CARD_PAD: usize = 64;

/// One output row: the left card's line padded to the column width (or all
/// spaces past the left card's last line), then the right card's line (or
/// nothing past its last line).
pub open spec fn spec_row(
    lines1: Seq<Seq<char>>,
    lines2: Seq<Seq<char>>,
    pad: nat,
    i: int,
) -> Seq<char> {
    (if i < lines1.len() {
        spec_pad(lines1[i], pad)
    } else {
        spec_spaces(pad)
    }) + (if i < lines2.len() {
        lines2[i]
    } else {
        Seq::empty()
    })
}

/// The first `n` output rows, joined by newlines.
pub open spec fn spec_rows_upto(
    lines1: Seq<Seq<char>>,
    lines2: Seq<Seq<char>>,
    pad: nat,
    n: nat,
) -> Seq<char>
    decreases n,
{
    if n == 0 {
        Seq::empty()
    } else if n == 1 {
        spec_row(lines1, lines2, pad, 0)
    } else {
        spec_rows_upto(lines1, lines2, pad, (n - 1) as nat) + "\n"@ + spec_row(
            lines1,
            lines2,
            pad,
            n - 1,
        )
    }
}

/// The larger of two lengths.
pub open spec fn spec_max(a: nat, b: nat) -> nat {
    if a >= b {
        a
    } else {
        b
    }
}

/// Two card texts combined side by side: the left one's lines padded to the
/// column width, the right one's appended, row by row up to the longer of the
/// two.
pub open spec fn spec_combine(p1: Seq<char>, p2: Seq<char>, pad: nat) -> Seq<char> {
    let lines1 = spec_lines(p1);
    let lines2 = spec_lines(p2);
    spec_rows_upto(lines1, lines2, pad, spec_max(lines1.len(), lines2.len()))
}

/// Combines two card texts side by side, the left column `pad_length` wide.
pub fn combine_two_profiles(profile1: &str, profile2: &str, pad_length: usize) -> (r: String)
    ensures
        r@ == spec_combine(profile1@, profile2@, pad_length as nat),
{
    let ghost lines1_v = spec_lines(profile1@);
    let ghost lines2_v = spec_lines(profile2@);

    let raw1 = split_lines(profile1);
    let mut lines1: Vec<String> = Vec::new();
    let mut i: usize = 0;
    while i < raw1.len()
        invariant
            0 <= i <= raw1.len(),
            raw1@.map_values(|l: String| l@) == lines1_v,
            raw1@.len() == lines1_v.len(),
            lines1@.len() == i,
            forall|j: int|
                0 <= j < i ==> #[trigger] lines1@[j]@ == spec_pad(lines1_v[j], pad_length as nat),
        decreases raw1.len() - i,
    {
        proof {
            assert(raw1@.map_values(|l: String| l@)[i as int] == raw1@[i as int]@);
        }
        lines1.push(pad_right(raw1[i].as_str(), pad_length));
        i = i + 1;
    }
    let lines2 = split_lines(profile2);
    proof {
        assert forall|j: int| 0 <= j < lines2@.len() implies #[trigger] lines2@[j]@
            == lines2_v[j] by {
            assert(lines2@.map_values(|l: String| l@)[j] == lines2@[j]@);
        }
    }

    let max_length = if lines1.len() >= lines2.len() {
        lines1.len()
    } else {
        lines2.len()
    };
    let mut out = String::new();
    let mut k: usize = 0;
    while k < max_length
        invariant
            0 <= k <= max_length,
            max_length == spec_max(lines1_v.len(), lines2_v.len()),
            lines1@.len() == lines1_v.len(),
            lines2@.len() == lines2_v.len(),
            forall|j: int|
                0 <= j < lines1@.len() ==> #[trigger] lines1@[j]@ == spec_pad(
                    lines1_v[j],
                    pad_length as nat,
                ),
            forall|j: int| 0 <= j < lines2@.len() ==> #[trigger] lines2@[j]@ == lines2_v[j],
            out@ == spec_rows_upto(lines1_v, lines2_v, pad_length as nat, k as nat),
        decreases max_length - k,
    {
        if k > 0 {
            out.append("\n");
        }
        if k < lines1.len() {
            let line = lines1[k].clone();
            out.append(line.as_str());
        } else {
            let fill = spaces(pad_length);
            out.append(fill.as_str());
        }
        if k < lines2.len() {
            let line = lines2[k].clone();
            out.append(line.as_str());
        }
        assert(out@ =~= spec_rows_upto(lines1_v, lines2_v, pad_length as nat, k as nat + 1));
        k = k + 1;
    }
    out
}

/// The printable sheet of a roster: the cards of the profiles, two per row
/// with the left column `CARD_PAD` wide, a blank line after each row.
pub open spec fn spec_sheet(profiles: Seq<ProfileView>) -> Seq<char>
    decreases profiles.len(),
{
    if profiles.len() == 0 {
        Seq::empty()
    } else if profiles.len() == 1 {
        spec_combine(spec_profile_ascii(profiles[0]), Seq::empty(), CARD_PAD as nat) + "\n\n"@
    } else {
        spec_combine(
            spec_profile_ascii(profiles[0]),
            spec_profile_ascii(profiles[1]),
            CARD_PAD as nat,
        ) + "\n\n"@ + spec_sheet(profiles.skip(2))
    }
}

/// Builds the text of the printable sheet: every profile's card, two per
/// row.
#[verifier::rlimit(100)]
pub fn sheet_text(profiles: &Vec<Profile>) -> (r: String)
    ensures
        r@ == spec_sheet(profiles@.map_values(|p: Profile| p@)),
{
    let ghost views = profiles@.map_values(|p: Profile| p@);
    let mut combined_profiles = String::new();
    proof {
        assert(views.skip(0) =~= views);
    }
    let mut i: usize = 0;
    while i < profiles.len()
        invariant
            0 <= i <= profiles.len(),
            views == profiles@.map_values(|p: Profile| p@),
            views.len() == profiles@.len(),
            spec_sheet(views) == combined_profiles@ + spec_sheet(views.skip(i as int)),
        decreases profiles.len() - i,
    {
        proof {
            assert(views[i as int] == profiles@[i as int]@);
            assert(views.skip(i as int)[0] == views[i as int]);
        }
        let profile1_ascii = profiles[i].display_ascii();
        let next: usize;
        if i + 1 < profiles.len() {
            proof {
                assert(views[i as int + 1] == profiles@[i as int + 1]@);
                assert(views.skip(i as int)[1] == views[i as int + 1]);
                assert(views.skip(i as int).skip(2) =~= views.skip(i as int + 2));
            }
            let profile2_ascii = profiles[i + 1].display_ascii();
            let row = combine_two_profiles(
                profile1_ascii.as_str(),
                profile2_ascii.as_str(),
                CARD_PAD,
            );
            combined_profiles.append(row.as_str());
            next = i + 2;
        } else {
            proof {
                reveal_strlit("");
                assert(""@ =~= Seq::<char>::empty());
                assert(views.skip(i as int).len() == 1);
            }
            let row = combine_two_profiles(profile1_ascii.as_str(), "", CARD_PAD);
            combined_profiles.append(row.as_str());
            next = i + 1;
        }
        combined_profiles.append("\n\n");
        assert(combined_profiles@ + spec_sheet(views.skip(next as int)) =~= spec_sheet(views));
        i = next;
    }
    proof {
        assert(views.skip(views.len() as int) =~= Seq::<ProfileView>::empty());
    }
    combined_profiles
}

} // verus!
