//! The security type of an auctioned treasury.

use vstd::prelude::*;

verus! {

/// Error for a label that names no security type.
#[derive(Debug, PartialEq, Eq, Structural)]
pub struct ConvertError;

/// The kinds of security the service auctions.  `Null` stands for
/// "unspecified" and doubles as the "no type filter" value of a query; it is a
/// proper variant rather than an option wrapper because it takes part in
/// formatting and equality checks like every other variant.
#[derive(Debug, PartialEq, Eq, Structural, Default, Clone, Copy)]
pub enum SecurityType {
    Bill,
    Note,
    Bond,
    Frn,
    Cmb,
    #[default]
    Null,
}

/// The display label of each security type.
pub open spec fn type_label(t: SecurityType) -> Seq<char> {
    match t {
        SecurityType::Bill => "Bill"@,
        SecurityType::Note => "Note"@,
        SecurityType::Bond => "Bond"@,
        SecurityType::Frn => "FRN"@,
        SecurityType::Cmb => "CMB"@,
        SecurityType::Null => "Null"@,
    }
}

/// The numeric value of `c` with ASCII lower-case letters folded to upper
/// case.
pub open spec fn upper_val(c: char) -> int {
    if ('a' as u32) <= (c as u32) && (c as u32) <= ('z' as u32) {
        (c as u32) - 32
    } else {
        (c as u32) as int
    }
}

/// Whether `s` equals `l` up to ASCII case.
pub open spec fn eq_ignore_ascii_case(s: Seq<char>, l: Seq<char>) -> bool {
    s.len() == l.len() && (forall|i: int|
        0 <= i < s.len() ==> upper_val(s[i]) == upper_val(#[trigger] l[i]))
}

/// The security type named by `s`, compared without regard to ASCII case;
/// nothing for any other label (`Null` has no parseable label).
pub open spec fn type_of_label(s: Seq<char>) -> Option<SecurityType> {
    if eq_ignore_ascii_case(s, "Bill"@) {
        Some(SecurityType::Bill)
    } else if eq_ignore_ascii_case(s, "Note"@) {
        Some(SecurityType::Note)
    } else if eq_ignore_ascii_case(s, "Bond"@) {
        Some(SecurityType::Bond)
    } else if eq_ignore_ascii_case(s, "FRN"@) {
        Some(SecurityType::Frn)
    } else if eq_ignore_ascii_case(s, "CMB"@) {
        Some(SecurityType::Cmb)
    } else {
        None
    }
}

/// Whether `s` and `l` match up to ASCII case.
fn eq_label(s: &str, l: &str) -> (r: bool)
    ensures
        r == eq_ignore_ascii_case(s@, l@),
{
    let ns = s.unicode_len();
    let nl = l.unicode_len();
    if ns != nl {
        return false;
    }
    let mut i: usize = 0;
    while i < ns
        invariant
            0 <= i <= ns,
            ns == s@.len() == l@.len(),
            forall|j: int| 0 <= j < i ==> upper_val(s@[j]) == upper_val(#[trigger] l@[j]),
        decreases ns - i,
    {
        let a = s.get_char(i) as u32;
        let b = l.get_char(i) as u32;
        let ua = if 97 <= a && a <= 122 {
            a - 32
        } else {
            a
        };
        let ub = if 97 <= b && b <= 122 {
            b - 32
        } else {
            b
        };
        if ua != ub {
            return false;
        }
        i = i + 1;
    }
    true
}

impl SecurityType {
    /// Parses a security type label, ignoring ASCII case, rejecting anything
    /// that names no type.
    pub fn parse_label(s: &str) -> (r: Result<SecurityType, ConvertError>)
        ensures
            ({
                match type_of_label(s@) {
                    Some(t) => r == Ok::<SecurityType, ConvertError>(t),
                    None => r == Err::<SecurityType, ConvertError>(ConvertError),
                }
            }),
    {
        if eq_label(s, "Bill") {
            Ok(SecurityType::Bill)
        } else if eq_label(s, "Note") {
            Ok(SecurityType::Note)
        } else if eq_label(s, "Bond") {
            Ok(SecurityType::Bond)
        } else if eq_label(s, "FRN") {
            Ok(SecurityType::Frn)
        } else if eq_label(s, "CMB") {
            Ok(SecurityType::Cmb)
        } else {
            Err(ConvertError)
        }
    }

    /// The display label of this type.
    pub fn to_string(&self) -> (r: String)
        ensures
            r@ == type_label(*self),
    {
        match self {
            SecurityType::Bill => "Bill".to_owned(),
            SecurityType::Note => "Note".to_owned(),
            SecurityType::Bond => "Bond".to_owned(),
            SecurityType::Frn => "FRN".to_owned(),
            SecurityType::Cmb => "CMB".to_owned(),
            SecurityType::Null => "Null".to_owned(),
        }
    }
}

impl core::str::FromStr for SecurityType {
    type Err = ConvertError;

    fn from_str(s: &str) -> Result<SecurityType, ConvertError> {
        SecurityType::parse_label(s)
    }
}

} // verus!
