//! Verified string utilities shared by the dice notation and the card
//! rendering: decimal formatting of unsigned integers, digit parsing,
//! searching for characters, joining, padding.

use vstd::prelude::*;

verus! {

/// The character for one decimal digit.
pub open spec fn digit_char(d: int) -> char {
    if d == 0 {
        '0'
    } else if d == 1 {
        '1'
    } else if d == 2 {
        '2'
    } else if d == 3 {
        '3'
    } else if d == 4 {
        '4'
    } else if d == 5 {
        '5'
    } else if d == 6 {
        '6'
    } else if d == 7 {
        '7'
    } else if d == 8 {
        '8'
    } else {
        '9'
    }
}

/// The decimal rendering of a natural number, most significant digit first.
pub open spec fn spec_dec(n: nat) -> Seq<char>
    decreases n,
{
    if n < 10 {
        seq![digit_char(n as int)]
    } else {
        spec_dec(n / 10) + seq![digit_char((n % 10) as int)]
    }
}

/// A one-character string slice for a single decimal digit.
pub fn digit_str(d: u32) -> (r: &'static str)
    requires
        d < 10,
    ensures
        r@ == seq![digit_char(d as int)],
{
    let r: &'static str = if d == 0 {
        "0"
    } else if d == 1 {
        "1"
    } else if d == 2 {
        "2"
    } else if d == 3 {
        "3"
    } else if d == 4 {
        "4"
    } else if d == 5 {
        "5"
    } else if d == 6 {
        "6"
    } else if d == 7 {
        "7"
    } else if d == 8 {
        "8"
    } else {
        "9"
    };
    proof {
        reveal_strlit("0");
        reveal_strlit("1");
        reveal_strlit("2");
        reveal_strlit("3");
        reveal_strlit("4");
        reveal_strlit("5");
        reveal_strlit("6");
        reveal_strlit("7");
        reveal_strlit("8");
        reveal_strlit("9");
    }
    assert(r@ =~= seq![digit_char(d as int)]);
    r
}

/// Renders an unsigned integer in decimal.
pub fn u32_to_string(n: u32) -> (r: String)
    ensures
        r@ == spec_dec(n as nat),
    decreases n,
{
    if n < 10 {
        String::from_str(digit_str(n))
    } else {
        let mut s = u32_to_string(n / 10);
        s.append(digit_str(n % 10));
        assert(s@ =~= spec_dec(n as nat));
        s
    }
}

/// Whether a character is a decimal digit.
pub open spec fn is_digit(c: char) -> bool {
    c == '0' || c == '1' || c == '2' || c == '3' || c == '4' || c == '5' || c == '6' || c == '7'
        || c == '8' || c == '9'
}

/// The value of a decimal digit character; zero on anything else.
pub open spec fn char_digit(c: char) -> int {
    if c == '1' {
        1
    } else if c == '2' {
        2
    } else if c == '3' {
        3
    } else if c == '4' {
        4
    } else if c == '5' {
        5
    } else if c == '6' {
        6
    } else if c == '7' {
        7
    } else if c == '8' {
        8
    } else if c == '9' {
        9
    } else {
        0
    }
}

/// Whether every character of `s` is a decimal digit.
pub open spec fn all_digits(s: Seq<char>) -> bool {
    forall|i: int| 0 <= i < s.len() ==> is_digit(s[i])
}

/// The number denoted by a sequence of digit characters, most significant
/// digit first.
pub open spec fn digits_val(s: Seq<char>) -> int
    decreases s.len(),
{
    if s.len() == 0 {
        0
    } else {
        digits_val(s.drop_last()) * 10 + char_digit(s.last())
    }
}

/// Whether `s` is the text of a number that fits in a `u32`: non-empty, all
/// digits, value at most `u32::MAX`.
pub open spec fn parses_to_u32(s: Seq<char>) -> bool {
    s.len() > 0 && all_digits(s) && 0 <= digits_val(s) <= u32::MAX
}

pub proof fn lemma_digits_val_nonneg(s: Seq<char>)
    ensures
        digits_val(s) >= 0,
    decreases s.len(),
{
    if s.len() > 0 {
        lemma_digits_val_nonneg(s.drop_last());
    }
}

/// The value of a digit string only grows as digits are appended: any prefix
/// denotes at most the whole.
pub proof fn lemma_digits_val_prefix(s: Seq<char>, j: int)
    requires
        0 <= j <= s.len(),
    ensures
        digits_val(s.subrange(0, j)) <= digits_val(s),
    decreases s.len() - j,
{
    if j == s.len() {
        assert(s.subrange(0, j) =~= s);
    } else {
        lemma_digits_val_prefix(s, j + 1);
        assert(s.subrange(0, j + 1).drop_last() =~= s.subrange(0, j));
        lemma_digits_val_nonneg(s.subrange(0, j));
    }
}

/// The decimal rendering of a number is non-empty and all digits.
pub proof fn lemma_dec_all_digits(n: nat)
    ensures
        spec_dec(n).len() >= 1,
        all_digits(spec_dec(n)),
    decreases n,
{
    if n >= 10 {
        lemma_dec_all_digits(n / 10);
        assert forall|i: int| 0 <= i < spec_dec(n).len() implies is_digit(spec_dec(n)[i]) by {
            if i < spec_dec(n / 10).len() {
                assert(spec_dec(n)[i] == spec_dec(n / 10)[i]);
            }
        }
    }
}

/// A digit character reads back as its digit.
pub proof fn lemma_char_digit_inv(d: int)
    requires
        0 <= d < 10,
    ensures
        char_digit(digit_char(d)) == d,
        is_digit(digit_char(d)),
{
}

/// Rendering a number in decimal and reading the digits back yields the
/// number.
pub proof fn lemma_dec_val(n: nat)
    ensures
        digits_val(spec_dec(n)) == n,
    decreases n,
{
    if n < 10 {
        assert(spec_dec(n).drop_last() =~= Seq::<char>::empty());
        assert(digits_val(Seq::<char>::empty()) == 0);
        lemma_char_digit_inv(n as int);
        assert(spec_dec(n).last() == digit_char(n as int));
        assert(digits_val(spec_dec(n)) == digits_val(Seq::<char>::empty()) * 10 + char_digit(
            digit_char(n as int),
        ));
    } else {
        lemma_dec_val(n / 10);
        lemma_char_digit_inv((n % 10) as int);
        assert(spec_dec(n).drop_last() =~= spec_dec(n / 10));
        assert(spec_dec(n).last() == digit_char((n % 10) as int));
        assert(digits_val(spec_dec(n)) == (n / 10) * 10 + n % 10);
        assert((n / 10) * 10 + n % 10 == n) by (nonlinear_arith);
    }
}

/// The index of the first occurrence of `c` in `s`, or -1 if it does not
/// occur.
pub open spec fn spec_find(s: Seq<char>, c: char) -> int
    decreases s.len(),
{
    if s.len() == 0 {
        -1
    } else if s[0] == c {
        0
    } else {
        let r = spec_find(s.drop_first(), c);
        if r == -1 {
            -1
        } else {
            r + 1
        }
    }
}

/// What `spec_find` returns: -1 when `c` is absent, otherwise the first index
/// holding `c`.
pub proof fn lemma_spec_find(s: Seq<char>, c: char)
    ensures
        spec_find(s, c) == -1 ==> (forall|j: int| 0 <= j < s.len() ==> s[j] != c),
        spec_find(s, c) != -1 ==> 0 <= spec_find(s, c) < s.len() && s[spec_find(s, c)] == c && (
        forall|j: int| 0 <= j < spec_find(s, c) ==> s[j] != c),
    decreases s.len(),
{
    if s.len() > 0 && s[0] != c {
        let st = s.drop_first();
        lemma_spec_find(st, c);
        if spec_find(st, c) == -1 {
            assert forall|j: int| 0 <= j < s.len() implies s[j] != c by {
                if j > 0 {
                    assert(s[j] == st[j - 1]);
                }
            }
        } else {
            let r = spec_find(st, c);
            assert(s[r + 1] == st[r]);
            assert forall|j: int| 0 <= j < r + 1 implies s[j] != c by {
                if j > 0 {
                    assert(s[j] == st[j - 1]);
                }
            }
        }
    }
}

/// A character that occurs first at index `m` is what `spec_find` returns.
pub proof fn lemma_spec_find_is_first(s: Seq<char>, c: char, m: int)
    requires
        0 <= m < s.len(),
        s[m] == c,
        forall|j: int| 0 <= j < m ==> s[j] != c,
    ensures
        spec_find(s, c) == m,
    decreases m,
{
    if m > 0 {
        let st = s.drop_first();
        assert(st[m - 1] == s[m]);
        assert forall|j: int| 0 <= j < m - 1 implies st[j] != c by {
            assert(st[j] == s[j + 1]);
        }
        lemma_spec_find_is_first(st, c, m - 1);
    }
}

/// A character that occurs nowhere makes `spec_find` return -1.
pub proof fn lemma_spec_find_none(s: Seq<char>, c: char)
    requires
        forall|j: int| 0 <= j < s.len() ==> s[j] != c,
    ensures
        spec_find(s, c) == -1,
    decreases s.len(),
{
    if s.len() > 0 {
        let st = s.drop_first();
        assert forall|j: int| 0 <= j < st.len() implies st[j] != c by {
            assert(st[j] == s[j + 1]);
        }
        lemma_spec_find_none(st, c);
    }
}

/// The value of a decimal digit character, or `None` on anything else.
pub fn char_to_digit(c: char) -> (r: Option<u32>)
    ensures
        is_digit(c) ==> r == Some(char_digit(c) as u32),
        !is_digit(c) ==> r is None,
{
    match c {
        '0' => Some(0),
        '1' => Some(1),
        '2' => Some(2),
        '3' => Some(3),
        '4' => Some(4),
        '5' => Some(5),
        '6' => Some(6),
        '7' => Some(7),
        '8' => Some(8),
        '9' => Some(9),
        _ => None,
    }
}

/// Reads an unsigned decimal number, rejecting empty text, any non-digit
/// character, and values that do not fit in a `u32`.
pub fn parse_u32(s: &str) -> (r: Option<u32>)
    ensures
        parses_to_u32(s@) ==> r == Some(digits_val(s@) as u32),
        !parses_to_u32(s@) ==> r is None,
{
    let n = s.unicode_len();
    if n == 0 {
        return None;
    }
    let mut acc: u32 = 0;
    let mut i: usize = 0;
    while i < n
        invariant
            0 < n == s@.len(),
            0 <= i <= n,
            all_digits(s@.subrange(0, i as int)),
            acc == digits_val(s@.subrange(0, i as int)),
        decreases n - i,
    {
        let c = s.get_char(i);
        let ghost prefix = s@.subrange(0, i as int);
        let ghost prefix1 = s@.subrange(0, i as int + 1);
        proof {
            assert(prefix1.drop_last() =~= prefix);
            assert(prefix1.last() == s@[i as int]);
        }
        match char_to_digit(c) {
            None => {
                assert(!all_digits(s@));
                return None;
            },
            Some(d) => {
                if acc > (u32::MAX - d) / 10 {
                    proof {
                        assert(digits_val(prefix1) > u32::MAX);
                        if all_digits(s@) {
                            lemma_digits_val_prefix(s@, i as int + 1);
                        }
                    }
                    return None;
                }
                acc = acc * 10 + d;
            },
        }
        i = i + 1;
    }
    proof {
        assert(s@.subrange(0, n as int) =~= s@);
    }
    Some(acc)
}

/// A run of spaces.
pub open spec fn spec_spaces(n: nat) -> Seq<char> {
    Seq::new(n, |i: int| ' ')
}

/// Builds a run of spaces.
pub fn spaces(n: usize) -> (r: String)
    ensures
        r@ == spec_spaces(n as nat),
{
    let mut r = String::new();
    let mut i: usize = 0;
    while i < n
        invariant
            0 <= i <= n,
            r@ =~= spec_spaces(i as nat),
        decreases n - i,
    {
        r.append(" ");
        proof {
            reveal_strlit(" ");
            assert(r@ =~= spec_spaces(i as nat + 1));
        }
        i = i + 1;
    }
    r
}

/// The text padded with spaces on the right to the width; text already that
/// wide or wider is kept whole.
pub open spec fn spec_pad(s: Seq<char>, width: nat) -> Seq<char> {
    if s.len() >= width {
        s
    } else {
        s + spec_spaces((width - s.len()) as nat)
    }
}

/// Pads the text with spaces on the right to the width.
pub fn pad_right(s: &str, width: usize) -> (r: String)
    ensures
        r@ == spec_pad(s@, width as nat),
{
    let n = s.unicode_len();
    let mut r = String::from_str(s);
    if n < width {
        let fill = spaces(width - n);
        r.append(fill.as_str());
    }
    r
}

/// The texts joined by the separator, in order.
pub open spec fn spec_join(parts: Seq<Seq<char>>, sep: Seq<char>) -> Seq<char>
    decreases parts.len(),
{
    if parts.len() == 0 {
        Seq::empty()
    } else if parts.len() == 1 {
        parts[0]
    } else {
        spec_join(parts.drop_last(), sep) + sep + parts.last()
    }
}

/// Joins the strings with the separator.
pub fn join_strings(parts: &Vec<String>, sep: &str) -> (r: String)
    ensures
        r@ == spec_join(parts@.map_values(|p: String| p@), sep@),
{
    let ghost views = parts@.map_values(|p: String| p@);
    let mut r = String::new();
    let mut i: usize = 0;
    while i < parts.len()
        invariant
            0 <= i <= parts.len(),
            views == parts@.map_values(|p: String| p@),
            views.len() == parts@.len(),
            r@ == spec_join(views.subrange(0, i as int), sep@),
        decreases parts.len() - i,
    {
        proof {
            assert(views.subrange(0, i as int + 1).drop_last() =~= views.subrange(0, i as int));
            assert(views.subrange(0, i as int + 1).last() == views[i as int]);
            assert(views[i as int] == parts@[i as int]@);
            if i == 0 {
                assert(views.subrange(0, 1)[0] == views[0]);
            }
        }
        if i > 0 {
            r.append(sep);
        }
        let part = parts[i].clone();
        r.append(part.as_str());
        i = i + 1;
    }
    proof {
        assert(views.subrange(0, views.len() as int) =~= views);
    }
    r
}

/// The lines of a text: the pieces between newline characters, with a
/// trailing newline closing the last line rather than opening an empty one.
pub open spec fn spec_lines(s: Seq<char>) -> Seq<Seq<char>>
    decreases s.len(),
{
    if s.len() == 0 {
        Seq::empty()
    } else {
        let k = spec_find(s, '\n');
        if 0 <= k < s.len() {
            seq![s.subrange(0, k)] + spec_lines(s.subrange(k + 1, s.len() as int))
        } else {
            seq![s]
        }
    }
}

/// Splits a text into its lines.
pub fn split_lines(s: &str) -> (r: Vec<String>)
    ensures
        r@.map_values(|l: String| l@) == spec_lines(s@),
    decreases s@.len(),
{
    let n = s.unicode_len();
    if n == 0 {
        let r: Vec<String> = Vec::new();
        assert(r@.map_values(|l: String| l@) =~= spec_lines(s@));
        return r;
    }
    match find_char(s, '\n') {
        None => {
            let mut r: Vec<String> = Vec::new();
            r.push(String::from_str(s));
            assert(r@.map_values(|l: String| l@) =~= spec_lines(s@));
            r
        },
        Some(k) => {
            proof {
                lemma_spec_find(s@, '\n');
            }
            let head = s.substring_char(0, k);
            let tail = s.substring_char(k + 1, n);
            let mut r: Vec<String> = Vec::new();
            r.push(String::from_str(head));
            let mut rest = split_lines(tail);
            let ghost rest_view = rest@;
            r.append(&mut rest);
            assert forall|j: int| 0 <= j < r@.len() implies r@.map_values(|l: String| l@)[j]
                == #[trigger] spec_lines(s@)[j] by {
                assert(r@.map_values(|l: String| l@)[j] == r@[j]@);
                if j > 0 {
                    assert(r@[j] == rest_view[j - 1]);
                    assert(rest_view.map_values(|l: String| l@)[j - 1] == rest_view[j - 1]@);
                }
            }
            assert(r@.map_values(|l: String| l@) =~= spec_lines(s@));
            r
        },
    }
}

/// Copies a list of strings.
pub fn clone_strings(v: &Vec<String>) -> (r: Vec<String>)
    ensures
        r@ == v@,
{
    let mut r: Vec<String> = Vec::new();
    let mut i: usize = 0;
    while i < v.len()
        invariant
            0 <= i <= v.len(),
            r@ =~= v@.subrange(0, i as int),
        decreases v.len() - i,
    {
        r.push(v[i].clone());
        i = i + 1;
    }
    assert(r@ =~= v@);
    r
}

/// The index of the first occurrence of `c` in `s`, if any.
pub fn find_char(s: &str, c: char) -> (r: Option<usize>)
    ensures
        spec_find(s@, c) == -1 ==> r is None,
        spec_find(s@, c) != -1 ==> r == Some(spec_find(s@, c) as usize),
{
    let n = s.unicode_len();
    let mut i: usize = 0;
    while i < n
        invariant
            n == s@.len(),
            0 <= i <= n,
            forall|j: int| 0 <= j < i ==> s@[j] != c,
        decreases n - i,
    {
        if s.get_char(i) == c {
            proof {
                lemma_spec_find_is_first(s@, c, i as int);
            }
            return Some(i);
        }
        i = i + 1;
    }
    proof {
        lemma_spec_find_none(s@, c);
    }
    None
}

} // verus!
