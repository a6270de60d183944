//! Parser for tenors.
//!
//! A tenor is a normalized duration descriptor such as `"10-Y"`, `"10y"` or
//! `"2months"`: one or more decimal digits, an optional `-` separator, and a
//! word whose first letter (compared without regard to ASCII case) selects the
//! unit.  The empty string parses to the empty sentinel tenor, which means "no
//! tenor filter".

use vstd::prelude::*;

use crate::decimal::all_dec_digits;
use crate::decimal::dec_digits;
use crate::decimal::digit_val;
use crate::decimal::digits_val;
use crate::decimal::digits_value_capped;
use crate::decimal::is_dec_digit;
use crate::decimal::lemma_dec_digits_are_digits;
use crate::decimal::lemma_dec_digits_val;
use crate::decimal::lemma_digits_val_nonneg;
use crate::treasury::error::AuctionResult;
use crate::treasury::error::AuctionResultError;

verus! {

/// The time unit of a tenor.  `Unspecified` belongs to the empty sentinel
/// tenor alone.
#[derive(Debug, PartialEq, Eq, Structural, Default, Clone, Copy)]
pub enum TenorUnit {
    Year,
    Month,
    Week,
    Day,
    #[default]
    Unspecified,
}

/// A normalized duration descriptor: how many of which unit.
#[derive(Debug, PartialEq, Eq, Structural, Default, Clone, Copy)]
pub struct Tenor {
    /// The magnitude: how many units.  Zero together with an unspecified unit
    /// is the empty sentinel.
    pub security: u32,
    /// The resolved unit.
    pub unit: TenorUnit,
}

/// The display label of a unit.
pub open spec fn unit_label(u: TenorUnit) -> Seq<char> {
    match u {
        TenorUnit::Year => "Year"@,
        TenorUnit::Month => "Month"@,
        TenorUnit::Week => "Week"@,
        TenorUnit::Day => "Day"@,
        TenorUnit::Unspecified => Seq::<char>::empty(),
    }
}

/// The single-letter code of a unit.
pub open spec fn unit_code(u: TenorUnit) -> Seq<char> {
    match u {
        TenorUnit::Year => "y"@,
        TenorUnit::Month => "m"@,
        TenorUnit::Week => "w"@,
        TenorUnit::Day => "d"@,
        TenorUnit::Unspecified => Seq::<char>::empty(),
    }
}

/// The rendering of a tenor: `"{magnitude}-{label}"`.
pub open spec fn spec_render(t: Tenor) -> Seq<char> {
    dec_digits(t.security as int) + "-"@ + unit_label(t.unit)
}

/// Length of the run of decimal digits that opens `s`.
pub open spec fn digit_prefix_len(s: Seq<char>) -> int
    decreases s.len(),
{
    if s.len() == 0 {
        0
    } else if !is_dec_digit(s[0]) {
        0
    } else {
        1 + digit_prefix_len(s.skip(1))
    }
}

/// The digit prefix is a maximal run of digits starting at the front.
pub proof fn lemma_digit_prefix(s: Seq<char>)
    ensures
        0 <= digit_prefix_len(s) <= s.len(),
        forall|j: int| 0 <= j < digit_prefix_len(s) ==> is_dec_digit(#[trigger] s[j]),
        digit_prefix_len(s) < s.len() ==> !is_dec_digit(s[digit_prefix_len(s)]),
    decreases s.len(),
{
    if s.len() == 0 || !is_dec_digit(s[0]) {
    } else {
        lemma_digit_prefix(s.skip(1));
        let d = digit_prefix_len(s);
        assert forall|j: int| 0 <= j < d implies is_dec_digit(#[trigger] s[j]) by {
            if j >= 1 {
                assert(s.skip(1)[j - 1] == s[j]);
                assert(is_dec_digit(s.skip(1)[j - 1]));
            }
        }
        if d < s.len() {
            assert(s.skip(1)[d - 1] == s[d]);
        }
    }
}

/// Whether `c` counts as a word character: an ASCII letter, digit or
/// underscore.
pub open spec fn is_word_char(c: char) -> bool {
    is_dec_digit(c) || (('a' as u32) <= (c as u32) && (c as u32) <= ('z' as u32)) || (('A' as u32)
        <= (c as u32) && (c as u32) <= ('Z' as u32)) || c == '_'
}

/// Whether every character of `s` is a word character.
pub open spec fn all_word_chars(s: Seq<char>) -> bool {
    forall|i: int| 0 <= i < s.len() ==> is_word_char(#[trigger] s[i])
}

/// The numeric value of `c` with ASCII upper-case letters folded to lower
/// case.
pub open spec fn lower_val(c: char) -> int {
    if ('A' as u32) <= (c as u32) && (c as u32) <= ('Z' as u32) {
        (c as u32) + 32
    } else {
        (c as u32) as int
    }
}

/// The unit selected by the first letter of a term word, compared without
/// regard to ASCII case; nothing for any other letter.
pub open spec fn unit_of_first(c: char) -> Option<TenorUnit> {
    if lower_val(c) == ('y' as u32) {
        Some(TenorUnit::Year)
    } else if lower_val(c) == ('w' as u32) {
        Some(TenorUnit::Week)
    } else if lower_val(c) == ('m' as u32) {
        Some(TenorUnit::Month)
    } else if lower_val(c) == ('d' as u32) {
        Some(TenorUnit::Day)
    } else {
        None
    }
}

/// What parsing a tenor string yields: the empty sentinel for the empty
/// string; otherwise the magnitude from the digit run and the unit from the
/// first letter of the trailing word, provided the string has exactly the
/// shape digits, optional `-`, word characters, the unit letter is known, and
/// the magnitude fits in 32 bits.
pub open spec fn parse_spec(s: Seq<char>) -> Option<Tenor> {
    if s.len() == 0 {
        Some(Tenor { security: 0, unit: TenorUnit::Unspecified })
    } else {
        let d = digit_prefix_len(s);
        if d == 0 || d == s.len() {
            None
        } else {
            let term = if s[d] == '-' {
                s.skip(d + 1)
            } else {
                s.skip(d)
            };
            if term.len() == 0 || !all_word_chars(term) {
                None
            } else {
                match unit_of_first(term[0]) {
                    Some(u) => {
                        let v = digits_val(s.take(d));
                        if v <= u32::MAX {
                            Some(Tenor { security: v as u32, unit: u })
                        } else {
                            None
                        }
                    },
                    None => None,
                }
            }
        }
    }
}

impl Tenor {
    /// Constructs a [`Tenor`] by parsing; any string that does not fit the
    /// tenor shape is rejected.
    #[verifier::loop_isolation(false)]
    pub fn parse(s: &str) -> (r: AuctionResult<Tenor>)
        ensures
            ({
                match parse_spec(s@) {
                    Some(t) => r == Ok::<Tenor, AuctionResultError>(t),
                    None => r == Err::<Tenor, AuctionResultError>(AuctionResultError::ParseTenor),
                }
            }),
    {
        proof {
            lemma_digit_prefix(s@);
        }
        let n = s.unicode_len();
        if n == 0 {
            return Ok(Tenor { security: 0, unit: TenorUnit::Unspecified });
        }

        // The run of digits that opens the string.
        let mut d: usize = 0;
        while d < n
            invariant
                0 <= d <= n,
                forall|j: int| 0 <= j < d ==> is_dec_digit(#[trigger] s@[j]),
            decreases n - d,
        {
            let c = s.get_char(d) as u32;
            if c < 48 || c > 57 {
                break ;
            }
            d = d + 1;
        }
        proof {
            assert(d == digit_prefix_len(s@));
        }
        if d == 0 || d == n {
            return Err(AuctionResultError::ParseTenor);
        }

        // The term word, after an optional separator.
        let sep = s.get_char(d);
        let tstart: usize = if sep == '-' {
            d + 1
        } else {
            d
        };
        let ghost term = if s@[d as int] == '-' {
            s@.skip(d as int + 1)
        } else {
            s@.skip(d as int)
        };
        if tstart == n {
            return Err(AuctionResultError::ParseTenor);
        }
        let mut k: usize = tstart;
        while k < n
            invariant
                tstart <= k <= n,
                forall|j: int| tstart <= j < k ==> is_word_char(#[trigger] s@[j]),
            decreases n - k,
        {
            let c = s.get_char(k) as u32;
            let word = (48 <= c && c <= 57) || (97 <= c && c <= 122) || (65 <= c && c <= 90) || c
                == 95;
            if !word {
                proof {
                    assert(term[k - tstart] == s@[k as int]);
                    assert(!all_word_chars(term));
                }
                return Err(AuctionResultError::ParseTenor);
            }
            k = k + 1;
        }
        proof {
            assert(all_word_chars(term)) by {
                assert(forall|j: int|
                    0 <= j < term.len() ==> term[j] == s@[j + tstart] && is_word_char(
                        #[trigger] term[j],
                    ));
            }
        }

        // The unit, from the first letter of the term.
        let first = s.get_char(tstart) as u32;
        let low: u32 = if 65 <= first && first <= 90 {
            first + 32
        } else {
            first
        };
        proof {
            assert(term[0] == s@[tstart as int]);
        }
        let unit = if low == 121 {
            TenorUnit::Year
        } else if low == 119 {
            TenorUnit::Week
        } else if low == 109 {
            TenorUnit::Month
        } else if low == 100 {
            TenorUnit::Day
        } else {
            return Err(AuctionResultError::ParseTenor);
        };

        // The magnitude.
        proof {
            assert(s@.subrange(0, d as int) =~= s@.take(d as int));
            lemma_digits_val_nonneg(s@.take(d as int));
        }
        match digits_value_capped(s, 0, d, u32::MAX as u64) {
            Some(v) => Ok(Tenor { security: v as u32, unit }),
            None => Err(AuctionResultError::ParseTenor),
        }
    }

    /// Whether this is the empty sentinel: no magnitude and no unit.
    pub fn is_empty(&self) -> (r: bool)
        ensures
            r == (self.security == 0 && self.unit is Unspecified),
    {
        self.security == 0 && matches!(self.unit, TenorUnit::Unspecified)
    }

    /// The magnitude.
    pub fn security(&self) -> (r: u32)
        ensures
            r == self.security,
    {
        self.security
    }

    /// The single-letter unit code: `"y"`, `"m"`, `"w"` or `"d"`, empty for
    /// the empty sentinel.
    pub fn shortcut(&self) -> (r: String)
        ensures
            r@ == unit_code(self.unit),
    {
        proof {
            reveal_strlit("");
        }
        match self.unit {
            TenorUnit::Year => "y".to_owned(),
            TenorUnit::Month => "m".to_owned(),
            TenorUnit::Week => "w".to_owned(),
            TenorUnit::Day => "d".to_owned(),
            TenorUnit::Unspecified => "".to_owned(),
        }
    }

    /// The unit label: `"Year"`, `"Month"`, `"Week"` or `"Day"`, empty for
    /// the empty sentinel.
    pub fn term(&self) -> (r: String)
        ensures
            r@ == unit_label(self.unit),
    {
        proof {
            reveal_strlit("");
        }
        match self.unit {
            TenorUnit::Year => "Year".to_owned(),
            TenorUnit::Month => "Month".to_owned(),
            TenorUnit::Week => "Week".to_owned(),
            TenorUnit::Day => "Day".to_owned(),
            TenorUnit::Unspecified => "".to_owned(),
        }
    }

    /// The rendering `"{magnitude}-{label}"`, the exact text that security
    /// term fields are compared against.
    pub fn to_string(&self) -> (r: String)
        ensures
            r@ == spec_render(*self),
    {
        let mut out = String::new();
        crate::decimal::push_decimal(&mut out, self.security as u64);
        out.append("-");
        let label = self.term();
        out.append(label.as_str());
        out
    }
}

/// Law: rendering a tenor with a real unit and parsing the rendering back
/// yields the tenor itself.
pub proof fn lemma_tenor_round_trip(t: Tenor)
    requires
        t.unit != TenorUnit::Unspecified,
    ensures
        parse_spec(spec_render(t)) == Some(t),
{
    let m = t.security as int;
    let digits = dec_digits(m);
    let label = unit_label(t.unit);
    let s = spec_render(t);
    lemma_dec_digits_are_digits(m);
    lemma_dec_digits_val(m);
    lemma_digit_prefix(s);
    reveal_strlit("-");
    reveal_strlit("Year");
    reveal_strlit("Month");
    reveal_strlit("Week");
    reveal_strlit("Day");
    let dl = digits.len() as int;
    assert(s.len() == dl + 1 + label.len());
    assert forall|j: int| 0 <= j < dl implies is_dec_digit(#[trigger] s[j]) by {
        assert(s[j] == digits[j]);
    }
    assert(s[dl] == '-');
    assert(!is_dec_digit('-'));
    // The digit prefix is exactly the rendered digits.
    let d = digit_prefix_len(s);
    assert(d <= dl);
    assert(d >= dl);
    // The term is exactly the label.
    let term = s.skip(dl + 1);
    assert(term =~= label);
    assert(label.len() >= 3);
    match t.unit {
        TenorUnit::Year => {
            assert(label[0] == 'Y');
            assert(all_word_chars(label));
            assert(unit_of_first('Y') == Some(TenorUnit::Year));
        },
        TenorUnit::Month => {
            assert(label[0] == 'M');
            assert(all_word_chars(label));
            assert(unit_of_first('M') == Some(TenorUnit::Month));
        },
        TenorUnit::Week => {
            assert(label[0] == 'W');
            assert(all_word_chars(label));
            assert(unit_of_first('W') == Some(TenorUnit::Week));
        },
        TenorUnit::Day => {
            assert(label[0] == 'D');
            assert(all_word_chars(label));
            assert(unit_of_first('D') == Some(TenorUnit::Day));
        },
        TenorUnit::Unspecified => {},
    }
    assert(s.take(dl) =~= digits);
    assert(digits_val(s.take(dl)) == m);
}

} // verus!
