//! The game's die-notation value type: a damage die pool such as `3d8`, or an
//! armor save die such as `d10(2)`.

use vstd::prelude::*;

use crate::strutil::{
    digits_val, find_char, parse_u32, parses_to_u32, spec_dec, spec_find, u32_to_string,
};

verus! {

/// Why a `DiceValue` construction or mutation was rejected.
#[derive(Clone, Copy, Debug, PartialEq, Eq, Structural)]
pub enum DiceError {
    /// A die shape outside {6, 8, 10, 12}.
    InvalidShape,
    /// Malformed die-notation text.
    ParseFailure,
    /// A mutation would bring a count below its minimum of one.
    BelowMinimum,
    /// A category change by anything but one step.
    InvalidStep,
}

/// A die value. In damage mode (`armor == 0`) it is a pool of `number` dice of
/// the given shape; in armor mode (`armor > 0`) it is a single armor save die
/// and `number` is ignored for display.
#[derive(Clone, Copy, Debug, PartialEq, Eq, Structural)]
pub struct DiceValue {
    pub shape: u32,
    pub number: u32,
    pub armor: u32,
}

/// The four die faces the game allows.
pub open spec fn valid_shape(shape: u32) -> bool {
    shape == 6 || shape == 8 || shape == 10 || shape == 12
}

/// The four die faces the game allows, over unbounded integers.
pub open spec fn valid_shape_int(shape: int) -> bool {
    shape == 6 || shape == 8 || shape == 10 || shape == 12
}

impl DiceValue {
    /// The canonical text of a value: `-` for an empty damage pool,
    /// `{number}d{shape}` in damage mode, `d{shape}({armor})` in armor mode.
    pub open spec fn spec_display(&self) -> Seq<char> {
        if self.armor == 0 {
            if self.number == 0 {
                seq!['-']
            } else {
                spec_dec(self.number as nat) + seq!['d'] + spec_dec(self.shape as nat)
            }
        } else {
            seq!['d'] + spec_dec(self.shape as nat) + seq!['('] + spec_dec(self.armor as nat)
                + seq![')']
        }
    }

    /// What parsing a piece of die-notation text yields: either syntax below,
    /// or the error the text earns.
    ///
    /// Armor syntax is a marker character, the shape, and the armor value in
    /// parentheses (`D10(2)`); the parsed `number` is one, since an armor die
    /// is always rolled once. Damage syntax is a bare shape (`8`, one die
    /// implied) or a count, a `d` and a shape (`3d8`). Malformed text is a
    /// `ParseFailure`; well-formed text with a shape outside the allowed set
    /// is an `InvalidShape`.
    pub open spec fn spec_parse(s: Seq<char>) -> Result<DiceValue, DiceError> {
        if spec_find(s, '(') >= 0 {
            Self::spec_parse_armor(s)
        } else if spec_find(s, 'd') >= 0 {
            Self::spec_parse_pool(s)
        } else {
            Self::spec_parse_bare(s)
        }
    }

    /// Armor syntax: the text between the marker character and the opening
    /// parenthesis is the shape, the text between the parentheses the armor.
    pub open spec fn spec_parse_armor(s: Seq<char>) -> Result<DiceValue, DiceError> {
        let p = spec_find(s, '(');
        let q = spec_find(s, ')');
        if q < 0 || p < 1 || q < p + 1 {
            Err(DiceError::ParseFailure)
        } else {
            Self::spec_from_armor_parts(s.subrange(1, p), s.subrange(p + 1, q))
        }
    }

    /// The armor value built from its two digit groups.
    pub open spec fn spec_from_armor_parts(shape_s: Seq<char>, armor_s: Seq<char>) -> Result<
        DiceValue,
        DiceError,
    > {
        if !parses_to_u32(shape_s) || !parses_to_u32(armor_s) {
            Err(DiceError::ParseFailure)
        } else if !valid_shape_int(digits_val(shape_s)) {
            Err(DiceError::InvalidShape)
        } else {
            Ok(
                DiceValue {
                    shape: digits_val(shape_s) as u32,
                    number: 1,
                    armor: digits_val(armor_s) as u32,
                },
            )
        }
    }

    /// Pool syntax: a count, one `d`, and a shape.
    pub open spec fn spec_parse_pool(s: Seq<char>) -> Result<DiceValue, DiceError> {
        let k = spec_find(s, 'd');
        let num_s = s.subrange(0, k);
        let shape_s = s.subrange(k + 1, s.len() as int);
        if spec_find(shape_s, 'd') >= 0 {
            Err(DiceError::ParseFailure)
        } else {
            Self::spec_from_pool_parts(num_s, shape_s)
        }
    }

    /// The damage value built from its two digit groups.
    pub open spec fn spec_from_pool_parts(num_s: Seq<char>, shape_s: Seq<char>) -> Result<
        DiceValue,
        DiceError,
    > {
        if !parses_to_u32(num_s) || !parses_to_u32(shape_s) {
            Err(DiceError::ParseFailure)
        } else if !valid_shape_int(digits_val(shape_s)) {
            Err(DiceError::InvalidShape)
        } else {
            Ok(
                DiceValue {
                    shape: digits_val(shape_s) as u32,
                    number: digits_val(num_s) as u32,
                    armor: 0,
                },
            )
        }
    }

    /// Bare syntax: the whole text is the shape, and one die is implied.
    pub open spec fn spec_parse_bare(s: Seq<char>) -> Result<DiceValue, DiceError> {
        if !parses_to_u32(s) {
            Err(DiceError::ParseFailure)
        } else if !valid_shape_int(digits_val(s)) {
            Err(DiceError::InvalidShape)
        } else {
            Ok(DiceValue { shape: digits_val(s) as u32, number: 1, armor: 0 })
        }
    }

    fn from_armor_parts(shape_str: &str, armor_str: &str) -> (r: Result<DiceValue, DiceError>)
        ensures
            r == Self::spec_from_armor_parts(shape_str@, armor_str@),
    {
        match parse_u32(shape_str) {
            None => Err(DiceError::ParseFailure),
            Some(shape) => match parse_u32(armor_str) {
                None => Err(DiceError::ParseFailure),
                Some(armor) => {
                    if !(shape == 6 || shape == 8 || shape == 10 || shape == 12) {
                        Err(DiceError::InvalidShape)
                    } else {
                        Ok(DiceValue { shape, number: 1, armor })
                    }
                },
            },
        }
    }

    fn from_pool_parts(num_str: &str, shape_str: &str) -> (r: Result<DiceValue, DiceError>)
        ensures
            r == Self::spec_from_pool_parts(num_str@, shape_str@),
    {
        match parse_u32(num_str) {
            None => Err(DiceError::ParseFailure),
            Some(number) => match parse_u32(shape_str) {
                None => Err(DiceError::ParseFailure),
                Some(shape) => {
                    if !(shape == 6 || shape == 8 || shape == 10 || shape == 12) {
                        Err(DiceError::InvalidShape)
                    } else {
                        Ok(DiceValue { shape, number, armor: 0 })
                    }
                },
            },
        }
    }

    fn parse_bare(s: &str) -> (r: Result<DiceValue, DiceError>)
        ensures
            r == Self::spec_parse_bare(s@),
    {
        match parse_u32(s) {
            None => Err(DiceError::ParseFailure),
            Some(shape) => {
                if !(shape == 6 || shape == 8 || shape == 10 || shape == 12) {
                    Err(DiceError::InvalidShape)
                } else {
                    Ok(DiceValue { shape, number: 1, armor: 0 })
                }
            },
        }
    }

    /// Constructs a damage-mode value.
    pub fn new(i_shape: u32, i_number: u32) -> (r: Result<DiceValue, DiceError>)
        ensures
            valid_shape(i_shape) ==> r == Ok::<DiceValue, DiceError>(
                DiceValue { shape: i_shape, number: i_number, armor: 0 },
            ),
            !valid_shape(i_shape) ==> r == Err::<DiceValue, DiceError>(DiceError::InvalidShape),
    {
        if !(i_shape == 6 || i_shape == 8 || i_shape == 10 || i_shape == 12) {
            return Err(DiceError::InvalidShape);
        }
        Ok(DiceValue { shape: i_shape, number: i_number, armor: 0 })
    }

    /// Constructs an armor-mode value.
    pub fn new_armor(i_shape: u32, i_armor: u32) -> (r: Result<DiceValue, DiceError>)
        ensures
            valid_shape(i_shape) ==> r == Ok::<DiceValue, DiceError>(
                DiceValue { shape: i_shape, number: 0, armor: i_armor },
            ),
            !valid_shape(i_shape) ==> r == Err::<DiceValue, DiceError>(DiceError::InvalidShape),
    {
        if !(i_shape == 6 || i_shape == 8 || i_shape == 10 || i_shape == 12) {
            return Err(DiceError::InvalidShape);
        }
        Ok(DiceValue { shape: i_shape, number: 0, armor: i_armor })
    }

    /// Parses the canonical text of a value.
    pub fn new_from_string(i_string: String) -> (r: Result<DiceValue, DiceError>)
        ensures
            r == Self::spec_parse(i_string@),
    {
        let s: &str = i_string.as_str();
        let n = s.unicode_len();
        match find_char(s, '(') {
            Some(p) => {
                proof {
                    crate::strutil::lemma_spec_find(s@, '(');
                    crate::strutil::lemma_spec_find(s@, ')');
                }
                match find_char(s, ')') {
                    None => Err(DiceError::ParseFailure),
                    Some(q) => {
                        if p < 1 || q < p + 1 {
                            return Err(DiceError::ParseFailure);
                        }
                        let shape_str = s.substring_char(1, p);
                        let armor_str = s.substring_char(p + 1, q);
                        Self::from_armor_parts(shape_str, armor_str)
                    },
                }
            },
            None => {
                match find_char(s, 'd') {
                    None => Self::parse_bare(s),
                    Some(k) => {
                        proof {
                            crate::strutil::lemma_spec_find(s@, 'd');
                        }
                        let num_str = s.substring_char(0, k);
                        let shape_str = s.substring_char(k + 1, n);
                        match find_char(shape_str, 'd') {
                            Some(_) => {
                                proof {
                                    crate::strutil::lemma_spec_find(shape_str@, 'd');
                                }
                                Err(DiceError::ParseFailure)
                            },
                            None => Self::from_pool_parts(num_str, shape_str),
                        }
                    },
                }
            },
        }
    }

    /// Adds `delta` to the number of dice; a pool may never drop below one
    /// die.
    pub fn change_number(self, delta: i32) -> (r: Result<DiceValue, DiceError>)
        requires
            self.number + delta <= u32::MAX,
        ensures
            self.number + delta < 1 ==> r == Err::<DiceValue, DiceError>(DiceError::BelowMinimum),
            self.number + delta >= 1 ==> r == Ok::<DiceValue, DiceError>(
                DiceValue {
                    shape: self.shape,
                    number: (self.number + delta) as u32,
                    armor: self.armor,
                },
            ),
    {
        let temp: i64 = self.number as i64 + delta as i64;
        if temp < 1 {
            return Err(DiceError::BelowMinimum);
        }
        Ok(DiceValue { shape: self.shape, number: temp as u32, armor: self.armor })
    }

    /// Moves the shape one category along 6, 8, 10, 12; any other step is
    /// rejected, and so is a step off either end of the ladder.
    pub fn change_category(self, delta: i32) -> (r: Result<DiceValue, DiceError>)
        ensures
            !(delta == 1 || delta == -1) ==> r == Err::<DiceValue, DiceError>(
                DiceError::InvalidStep,
            ),
            (delta == 1 || delta == -1) && !valid_shape_int(self.shape + 2 * delta) ==> r
                == Err::<DiceValue, DiceError>(DiceError::InvalidShape),
            (delta == 1 || delta == -1) && valid_shape_int(self.shape + 2 * delta) ==> r
                == Ok::<DiceValue, DiceError>(
                DiceValue {
                    shape: (self.shape + 2 * delta) as u32,
                    number: self.number,
                    armor: self.armor,
                },
            ),
    {
        if !(delta == 1 || delta == -1) {
            return Err(DiceError::InvalidStep);
        }
        let temp: i64 = self.shape as i64 + 2 * delta as i64;
        if !(temp == 6 || temp == 8 || temp == 10 || temp == 12) {
            return Err(DiceError::InvalidShape);
        }
        Ok(DiceValue { shape: temp as u32, number: self.number, armor: self.armor })
    }

    /// Adds `delta` to the armor value of an armor-mode value; armor may never
    /// drop below one.
    pub fn change_armor(self, delta: i32) -> (r: Result<DiceValue, DiceError>)
        requires
            self.armor > 0,
            self.armor + delta <= u32::MAX,
        ensures
            self.armor + delta < 1 ==> r == Err::<DiceValue, DiceError>(DiceError::BelowMinimum),
            self.armor + delta >= 1 ==> r == Ok::<DiceValue, DiceError>(
                DiceValue {
                    shape: self.shape,
                    number: self.number,
                    armor: (self.armor + delta) as u32,
                },
            ),
    {
        let temp: i64 = self.armor as i64 + delta as i64;
        if temp < 1 {
            return Err(DiceError::BelowMinimum);
        }
        Ok(DiceValue { shape: self.shape, number: self.number, armor: temp as u32 })
    }

    /// Renders the value in its canonical text.
    pub fn display(&self) -> (r: String)
        ensures
            r@ == self.spec_display(),
    {
        proof {
            reveal_strlit("-");
            reveal_strlit("d");
            reveal_strlit("(");
            reveal_strlit(")");
        }
        if self.armor == 0 {
            if self.number == 0 {
                let r = String::from_str("-");
                assert(r@ =~= self.spec_display());
                r
            } else {
                let mut r = u32_to_string(self.number);
                r.append("d");
                let shape_text = u32_to_string(self.shape);
                r.append(shape_text.as_str());
                assert(r@ =~= self.spec_display());
                r
            }
        } else {
            let mut r = String::from_str("d");
            let shape_text = u32_to_string(self.shape);
            r.append(shape_text.as_str());
            r.append("(");
            let armor_text = u32_to_string(self.armor);
            r.append(armor_text.as_str());
            r.append(")");
            assert(r@ =~= self.spec_display());
            r
        }
    }
}

/// A decimal digit is never one of the notation's marker characters.
pub proof fn lemma_digit_not_marker(c: char)
    requires
        crate::strutil::is_digit(c),
    ensures
        c != 'd' && c != '(' && c != ')',
{
}

/// For every valid shape and a pool of at least one die, a newly built
/// damage value displays as the count, a `d`, and the shape.
pub proof fn lemma_dice_display_round_trip(shape: u32, number: u32)
    requires
        valid_shape(shape),
        number >= 1,
    ensures
        (DiceValue { shape, number, armor: 0 }).spec_display() == spec_dec(number as nat)
            + seq!['d'] + spec_dec(shape as nat),
{
}

/// Parsing is left inverse to display, up to the armor die's ignored count:
/// any canonical text but the empty-pool dash `-` parses back to a value with
/// the same shape, the same armor, and the same count (one, in armor mode),
/// and that value displays as the very same text.
pub proof fn lemma_parse_display_round_trip(v: DiceValue)
    requires
        valid_shape(v.shape),
        v.armor > 0 || v.number >= 1,
    ensures
        DiceValue::spec_parse(v.spec_display()) is Ok,
        DiceValue::spec_parse(v.spec_display())->Ok_0 == (DiceValue {
            shape: v.shape,
            number: if v.armor > 0 { 1u32 } else { v.number },
            armor: v.armor,
        }),
        DiceValue::spec_parse(v.spec_display())->Ok_0.spec_display() == v.spec_display(),
{
    let s = v.spec_display();
    let ds = spec_dec(v.shape as nat);
    crate::strutil::lemma_dec_all_digits(v.shape as nat);
    crate::strutil::lemma_dec_val(v.shape as nat);
    let a = ds.len() as int;
    if v.armor > 0 {
        let da = spec_dec(v.armor as nat);
        crate::strutil::lemma_dec_all_digits(v.armor as nat);
        crate::strutil::lemma_dec_val(v.armor as nat);
        let b = da.len() as int;
        assert(s.len() == 3 + a + b);
        assert(s[0] == 'd');
        assert(s[1 + a] == '(');
        assert(s[2 + a + b] == ')');
        assert forall|j: int| 0 <= j < 1 + a implies s[j] != '(' by {
            if j >= 1 {
                assert(s[j] == ds[j - 1]);
                lemma_digit_not_marker(ds[j - 1]);
            }
        }
        crate::strutil::lemma_spec_find_is_first(s, '(', 1 + a);
        assert forall|j: int| 0 <= j < 2 + a + b implies s[j] != ')' by {
            if 1 <= j < 1 + a {
                assert(s[j] == ds[j - 1]);
                lemma_digit_not_marker(ds[j - 1]);
            }
            if 2 + a <= j {
                assert(s[j] == da[j - 2 - a]);
                lemma_digit_not_marker(da[j - 2 - a]);
            }
        }
        crate::strutil::lemma_spec_find_is_first(s, ')', 2 + a + b);
        assert(s.subrange(1, 1 + a) =~= ds);
        assert(s.subrange(2 + a, 2 + a + b) =~= da);
        assert(parses_to_u32(ds));
        assert(parses_to_u32(da));
        let w = DiceValue { shape: v.shape, number: 1, armor: v.armor };
        assert(DiceValue::spec_parse(s) == Ok::<DiceValue, DiceError>(w));
        assert(w.spec_display() == s);
    } else {
        let dn = spec_dec(v.number as nat);
        crate::strutil::lemma_dec_all_digits(v.number as nat);
        crate::strutil::lemma_dec_val(v.number as nat);
        let m = dn.len() as int;
        assert(s.len() == m + 1 + a);
        assert(s[m] == 'd');
        assert forall|j: int| 0 <= j < s.len() implies s[j] != '(' && s[j] != ')' by {
            if j < m {
                assert(s[j] == dn[j]);
                lemma_digit_not_marker(dn[j]);
            }
            if j > m {
                assert(s[j] == ds[j - m - 1]);
                lemma_digit_not_marker(ds[j - m - 1]);
            }
        }
        crate::strutil::lemma_spec_find_none(s, '(');
        assert forall|j: int| 0 <= j < m implies s[j] != 'd' by {
            assert(s[j] == dn[j]);
            lemma_digit_not_marker(dn[j]);
        }
        crate::strutil::lemma_spec_find_is_first(s, 'd', m);
        let num_s = s.subrange(0, m);
        let shape_s = s.subrange(m + 1, s.len() as int);
        assert(num_s =~= dn);
        assert(shape_s =~= ds);
        assert forall|j: int| 0 <= j < shape_s.len() implies shape_s[j] != 'd' by {
            lemma_digit_not_marker(ds[j]);
        }
        crate::strutil::lemma_spec_find_none(shape_s, 'd');
        assert(parses_to_u32(dn));
        assert(parses_to_u32(ds));
        let w = DiceValue { shape: v.shape, number: v.number, armor: 0 };
        assert(DiceValue::spec_parse(s) == Ok::<DiceValue, DiceError>(w));
        assert(w.spec_display() == s);
    }
}

} // verus!
