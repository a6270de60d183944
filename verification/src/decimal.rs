//! Fixed-point decimal support.
//!
//! Every rate, ratio, percentage and currency amount in this crate is held as
//! an unsigned integer counting millionths ("micro units"): a bid-to-cover
//! ratio of 2.5 is stored as `2_500_000`.  This module defines the scale
//! constants, the rounded divisions used by the scoring arithmetic, decimal
//! rendering of integers, and parsing of plain decimal strings (the form the
//! upstream service uses on the wire) into micro units.

use vstd::prelude::*;

verus! {

/// Micro units per whole unit: values carry six decimal places.
pub const MICRO: u64 = 1_000_000;

/// Largest rate or ratio a record may hold, in micro units (one million whole
/// units).  Real-world bid-to-cover ratios and percentage rates are tiny
/// compared to this; the bound only keeps the scoring arithmetic inside `i128`.
pub const RATIO_LIMIT: u64 = 1_000_000_000_000;

/// Largest currency amount a record may hold, in micro units (one trillion
/// whole currency units).  The bound keeps the percentage arithmetic inside
/// `u128`.
pub const AMOUNT_LIMIT: u64 = 1_000_000_000_000_000_000;

/// Micro percentage points in one hundred percent.
pub const PCT_SCALE: u64 = 100_000_000;

/// Division of non-negative `a` by positive `b`, rounded to the nearest
/// integer with halves rounded up (equivalently: away from zero).
pub open spec fn round_div(a: int, b: int) -> int
    recommends
        0 <= a,
        0 < b,
{
    (2 * a + b) / (2 * b)
}

/// Division rounded to the nearest integer with halves rounded away from zero,
/// for a numerator of either sign.
pub open spec fn round_div_signed(a: int, b: int) -> int
    recommends
        0 < b,
{
    if a >= 0 {
        round_div(a, b)
    } else {
        -round_div(-a, b)
    }
}

/// `round_div` never exceeds the exact quotient by more than one.
pub proof fn lemma_round_div_bound(a: int, b: int)
    requires
        0 <= a,
        0 < b,
    ensures
        0 <= round_div(a, b) <= a / b + 1,
{
    assert(2 * a + b >= 0);
    assert(2 * b > 0);
    assert((2 * a + b) / (2 * b) >= 0) by (nonlinear_arith)
        requires
            2 * a + b >= 0,
            2 * b > 0,
    ;
    assert((2 * a + b) / (2 * b) <= a / b + 1) by (nonlinear_arith)
        requires
            0 <= a,
            0 < b,
    ;
}

/// An upper bound for `round_div` from an upper bound on the quotient.
pub proof fn lemma_round_div_le(a: int, b: int, c: int)
    requires
        0 <= a,
        0 < b,
        0 <= c,
        a <= b * c,
    ensures
        round_div(a, b) <= c,
{
    assert((2 * a + b) / (2 * b) <= c) by (nonlinear_arith)
        requires
            0 <= a,
            0 < b,
            0 <= c,
            a <= b * c,
    ;
}

/// The share of `total` made up by `part`, as a percentage in micro units,
/// rounded to the nearest; zero when the total is zero.
pub open spec fn pct_micro(part: int, total: int) -> int {
    if total == 0 {
        0
    } else {
        round_div(part * (PCT_SCALE as int), total)
    }
}

/// A share of at most the whole stays within one hundred percent.
pub proof fn lemma_pct_micro_bound(part: int, total: int)
    requires
        0 <= part <= total,
    ensures
        0 <= pct_micro(part, total) <= PCT_SCALE,
{
    if total != 0 {
        assert(part * (PCT_SCALE as int) >= 0) by (nonlinear_arith)
            requires
                part >= 0,
        ;
        lemma_round_div_bound(part * (PCT_SCALE as int), total);
        assert(part * (PCT_SCALE as int) <= total * (PCT_SCALE as int)) by (nonlinear_arith)
            requires
                part <= total,
        ;
        lemma_round_div_le(part * (PCT_SCALE as int), total, PCT_SCALE as int);
    }
}

/// Rounded division on machine integers.
pub fn round_div_u128(a: u128, b: u128) -> (r: u128)
    requires
        b >= 1,
        2 * a + b <= u128::MAX,
        2 * b <= u128::MAX,
    ensures
        r == round_div(a as int, b as int),
{
    (2 * a + b) / (2 * b)
}

/// Whether `c` is an ASCII decimal digit.
pub open spec fn is_dec_digit(c: char) -> bool {
    ('0' as u32) <= (c as u32) && (c as u32) <= ('9' as u32)
}

/// The numeric value of an ASCII decimal digit.
pub open spec fn digit_val(c: char) -> int
    recommends
        is_dec_digit(c),
{
    (c as u32) - ('0' as u32)
}

/// Whether every character of `s` is an ASCII decimal digit.
pub open spec fn all_dec_digits(s: Seq<char>) -> bool {
    forall|i: int| 0 <= i < s.len() ==> is_dec_digit(#[trigger] s[i])
}

/// The value of a string of decimal digits, most significant first.
pub open spec fn digits_val(s: Seq<char>) -> int
    recommends
        all_dec_digits(s),
    decreases s.len(),
{
    if s.len() == 0 {
        0
    } else {
        digits_val(s.drop_last()) * 10 + digit_val(s.last())
    }
}

/// The ASCII digit character with value `n`.
pub open spec fn digit_char(n: int) -> char
    recommends
        0 <= n < 10,
{
    if n == 0 {
        '0'
    } else if n == 1 {
        '1'
    } else if n == 2 {
        '2'
    } else if n == 3 {
        '3'
    } else if n == 4 {
        '4'
    } else if n == 5 {
        '5'
    } else if n == 6 {
        '6'
    } else if n == 7 {
        '7'
    } else if n == 8 {
        '8'
    } else {
        '9'
    }
}

/// The decimal rendering of `n`, most significant digit first, no leading
/// zeros (except for `n == 0` itself).
pub open spec fn dec_digits(n: int) -> Seq<char>
    recommends
        0 <= n,
    decreases n,
{
    if n < 10 {
        seq![digit_char(n)]
    } else {
        dec_digits(n / 10).push(digit_char(n % 10))
    }
}

/// A rendered number consists of digits only.
pub proof fn lemma_dec_digits_are_digits(n: int)
    requires
        0 <= n,
    ensures
        all_dec_digits(dec_digits(n)),
        dec_digits(n).len() >= 1,
    decreases n,
{
    if n < 10 {
    } else {
        assert(0 <= n % 10 < 10 && 0 <= n / 10 < n) by (nonlinear_arith)
            requires
                10 <= n,
        ;
        lemma_dec_digits_are_digits(n / 10);
        let s = dec_digits(n / 10);
        assert forall|i: int| 0 <= i < s.push(digit_char(n % 10)).len() implies is_dec_digit(
            #[trigger] s.push(digit_char(n % 10))[i],
        ) by {
            if i < s.len() {
                assert(s.push(digit_char(n % 10))[i] == s[i]);
            }
        }
    }
}

/// Rendering and evaluation are inverse: the digits of `n` evaluate to `n`.
pub proof fn lemma_dec_digits_val(n: int)
    requires
        0 <= n,
    ensures
        digits_val(dec_digits(n)) == n,
    decreases n,
{
    if n < 10 {
        let s = dec_digits(n);
        assert(s.len() == 1);
        assert(s.last() == digit_char(n));
        assert(digit_val(digit_char(n)) == n);
        assert(s.drop_last().len() == 0);
        assert(digits_val(s.drop_last()) == 0);
        assert(digits_val(s) == digits_val(s.drop_last()) * 10 + digit_val(s.last()));
    } else {
        assert(0 <= n % 10 < 10 && 0 <= n / 10 < n) by (nonlinear_arith)
            requires
                10 <= n,
        ;
        lemma_dec_digits_val(n / 10);
        let s = dec_digits(n / 10).push(digit_char(n % 10));
        assert(s.drop_last() =~= dec_digits(n / 10));
        assert(s.last() == digit_char(n % 10));
        assert(digit_val(digit_char(n % 10)) == n % 10);
        assert((n / 10) * 10 + n % 10 == n) by (nonlinear_arith)
            requires
                10 <= n,
        ;
    }
}

/// Appending a digit multiplies the value by ten and adds the digit.
pub proof fn lemma_digits_val_push(s: Seq<char>, c: char)
    ensures
        digits_val(s.push(c)) == digits_val(s) * 10 + digit_val(c),
{
    assert(s.push(c).drop_last() =~= s);
    assert(s.push(c).last() == c);
}

/// A one-character string slice holding the digit with value `d`.
fn digit_str(d: u64) -> (r: &'static str)
    requires
        d < 10,
    ensures
        r@ =~= seq![digit_char(d as int)],
{
    proof {
        reveal_strlit("0");
        reveal_strlit("1");
        reveal_strlit("2");
        reveal_strlit("3");
        reveal_strlit("4");
        reveal_strlit("5");
        reveal_strlit("6");
        reveal_strlit("7");
        reveal_strlit("8");
        reveal_strlit("9");
    }
    if d == 0 {
        "0"
    } else if d == 1 {
        "1"
    } else if d == 2 {
        "2"
    } else if d == 3 {
        "3"
    } else if d == 4 {
        "4"
    } else if d == 5 {
        "5"
    } else if d == 6 {
        "6"
    } else if d == 7 {
        "7"
    } else if d == 8 {
        "8"
    } else {
        "9"
    }
}

/// Appends the decimal rendering of `n` to `out`.
pub fn push_decimal(out: &mut String, n: u64)
    ensures
        final(out)@ == old(out)@ + dec_digits(n as int),
    decreases n,
{
    if n >= 10 {
        push_decimal(out, n / 10);
    }
    let d = n % 10;
    out.append(digit_str(d));
    proof {
        let m = n as int;
        if n < 10 {
            assert(old(out)@ + seq![digit_char(m)] =~= final(out)@);
        } else {
            assert(dec_digits(m / 10).push(digit_char(m % 10)) =~= dec_digits(m / 10)
                + seq![digit_char(m % 10)]);
            assert(old(out)@ + (dec_digits(m / 10) + seq![digit_char(m % 10)]) =~= (old(out)@
                + dec_digits(m / 10)) + seq![digit_char(m % 10)]);
        }
    }
}

/// Digit strings have non-negative values.
pub proof fn lemma_digits_val_nonneg(s: Seq<char>)
    requires
        all_dec_digits(s),
    ensures
        digits_val(s) >= 0,
    decreases s.len(),
{
    if s.len() > 0 {
        assert(all_dec_digits(s.drop_last())) by {
            assert(forall|i: int|
                0 <= i < s.drop_last().len() ==> s.drop_last()[i] == s[i] && is_dec_digit(
                    #[trigger] s[i],
                ));
        }
        lemma_digits_val_nonneg(s.drop_last());
    }
}

/// Evaluates the run of digit characters `s[from..to]`.  Returns the value if
/// it is at most `cap`, and nothing if it is larger.
pub fn digits_value_capped(s: &str, from: usize, to: usize, cap: u64) -> (r: Option<u64>)
    requires
        from <= to <= s@.len(),
        forall|i: int| from <= i < to ==> is_dec_digit(#[trigger] s@[i]),
    ensures
        ({
            let d = digits_val(s@.subrange(from as int, to as int));
            if d <= cap {
                r == Some(d as u64)
            } else {
                r is None
            }
        }),
{
    let mut i: usize = from;
    let mut acc: u64 = 0;
    let mut over: bool = false;
    proof {
        assert(s@.subrange(from as int, from as int) =~= Seq::<char>::empty());
    }
    while i < to
        invariant
            from <= i <= to <= s@.len(),
            forall|k: int| from <= k < to ==> is_dec_digit(#[trigger] s@[k]),
            !over ==> acc == digits_val(s@.subrange(from as int, i as int)) && acc <= cap,
            over ==> digits_val(s@.subrange(from as int, i as int)) > cap,
        decreases to - i,
    {
        let c = s.get_char(i);
        let d: u64 = ((c as u32) - 48) as u64;
        proof {
            let pre = s@.subrange(from as int, i as int);
            assert(all_dec_digits(pre));
            lemma_digits_val_nonneg(pre);
            lemma_digits_val_push(pre, c);
            assert(s@.subrange(from as int, i as int + 1) =~= pre.push(c));
        }
        if over {
            proof {
                let v = digits_val(s@.subrange(from as int, i as int));
                assert(digits_val(s@.subrange(from as int, i as int + 1)) == v * 10 + digit_val(c));
                assert(v * 10 >= v) by (nonlinear_arith)
                    requires
                        v >= 0,
                ;
            }
        } else {
            let next: u128 = (acc as u128) * 10 + (d as u128);
            if next > cap as u128 {
                over = true;
                acc = 0;
            } else {
                acc = next as u64;
            }
        }
        i = i + 1;
    }
    if over {
        None
    } else {
        Some(acc)
    }
}

/// Ten to the power `k`.
pub open spec fn pow10(k: nat) -> int
    decreases k,
{
    if k == 0 {
        1
    } else {
        10 * pow10((k - 1) as nat)
    }
}

/// Index of the first `'.'` in `s`, or `s.len()` if there is none.
pub open spec fn dot_index(s: Seq<char>) -> int
    decreases s.len(),
{
    if s.len() == 0 {
        0
    } else if s[0] == '.' {
        0
    } else {
        1 + dot_index(s.skip(1))
    }
}

/// The first `'.'` really is the first: nothing before it is a dot, and the
/// index is a dot or the end.
pub proof fn lemma_dot_index(s: Seq<char>)
    ensures
        0 <= dot_index(s) <= s.len(),
        forall|j: int| 0 <= j < dot_index(s) ==> s[j] != '.',
        dot_index(s) < s.len() ==> s[dot_index(s)] == '.',
    decreases s.len(),
{
    if s.len() == 0 {
    } else if s[0] == '.' {
    } else {
        lemma_dot_index(s.skip(1));
        assert forall|j: int| 0 <= j < dot_index(s) implies s[j] != '.' by {
            if j >= 1 {
                assert(s.skip(1)[j - 1] == s[j]);
                assert(s.skip(1)[j - 1] != '.');
            }
        }
        if dot_index(s) < s.len() {
            assert(s.skip(1)[dot_index(s) - 1] == s[dot_index(s)]);
        }
    }
}

/// The micro-unit value of a plain decimal string: an optional run of digits,
/// an optional dot, and an optional run of fraction digits, at least one digit
/// in all.  Fraction digits beyond the sixth are ignored.  Strings of any
/// other shape, and values over `u64::MAX` micro units, have no value.
pub open spec fn micro_of_decimal(s: Seq<char>) -> Option<int> {
    let di = dot_index(s);
    let ip = s.take(di);
    let fp = if di < s.len() {
        s.skip(di + 1)
    } else {
        Seq::<char>::empty()
    };
    if all_dec_digits(ip) && all_dec_digits(fp) && ip.len() + fp.len() > 0 {
        let f6 = if fp.len() <= 6 {
            fp
        } else {
            fp.take(6)
        };
        let v = digits_val(ip) * (MICRO as int) + digits_val(f6) * pow10((6 - f6.len()) as nat);
        if v <= u64::MAX {
            Some(v)
        } else {
            None
        }
    } else {
        None
    }
}

/// Parses a plain decimal string into micro units (millionths), rejecting
/// malformed text and values that do not fit.
#[verifier::loop_isolation(false)]
pub fn micro_from_decimal_str(s: &str) -> (r: Option<u64>)
    ensures
        ({
            match micro_of_decimal(s@) {
                Some(v) => r == Some(v as u64),
                None => r is None,
            }
        }),
{
    proof {
        lemma_dot_index(s@);
    }
    let n = s.unicode_len();
    let ghost di_spec = dot_index(s@);

    // Find the dot, insisting on digits before it.
    let mut i: usize = 0;
    let mut dot: usize = n;
    let mut seen_dot: bool = false;
    while i < n && !seen_dot
        invariant
            0 <= i <= n == s@.len(),
            !seen_dot ==> dot == n && (forall|j: int| 0 <= j < i ==> is_dec_digit(#[trigger] s@[j])
                && s@[j] != '.'),
            seen_dot ==> dot < n && i == dot + 1 && s@[dot as int] == '.' && (forall|j: int|
                0 <= j < dot ==> is_dec_digit(#[trigger] s@[j]) && s@[j] != '.'),
        decreases n - i,
    {
        let c = s.get_char(i);
        if c == '.' {
            dot = i;
            seen_dot = true;
        } else if (c as u32) < 48 || (c as u32) > 57 {
            proof {
                assert(di_spec > i);
                assert(s@.take(di_spec)[i as int] == s@[i as int]);
                assert(!all_dec_digits(s@.take(di_spec)));
            }
            return None;
        }
        i = i + 1;
    }
    proof {
        assert(dot == di_spec);
        assert(all_dec_digits(s@.take(dot as int))) by {
            assert(forall|j: int|
                0 <= j < dot ==> s@.take(dot as int)[j] == s@[j] && is_dec_digit(
                    #[trigger] s@.take(dot as int)[j],
                ));
        }
    }

    // Check the fraction digits and locate the end of the significant six.
    let fstart: usize = if seen_dot {
        dot + 1
    } else {
        n
    };
    let mut k: usize = fstart;
    while k < n
        invariant
            fstart <= k <= n == s@.len(),
            forall|j: int| fstart <= j < k ==> is_dec_digit(#[trigger] s@[j]),
        decreases n - k,
    {
        let c = s.get_char(k);
        if (c as u32) < 48 || (c as u32) > 57 {
            proof {
                let fp = s@.skip(dot as int + 1);
                assert(fp[k - dot - 1] == s@[k as int]);
                assert(!all_dec_digits(fp));
            }
            return None;
        }
        k = k + 1;
    }
    if n == 0 || (seen_dot && n == 1) {
        // No digits at all.
        return None;
    }

    let ghost ip = s@.take(dot as int);
    let ghost fp = if (dot as int) < s@.len() {
        s@.skip(dot as int + 1)
    } else {
        Seq::<char>::empty()
    };
    proof {
        assert(all_dec_digits(fp)) by {
            assert(forall|j: int|
                0 <= j < fp.len() ==> fp[j] == s@[j + dot + 1] && is_dec_digit(#[trigger] fp[j]));
        }
        assert(ip.len() + fp.len() > 0);
    }

    let ghost f6 = if fp.len() <= 6 {
        fp
    } else {
        fp.take(6)
    };
    proof {
        assert(ip =~= s@.subrange(0, dot as int));
        assert(all_dec_digits(f6)) by {
            assert(forall|j: int|
                0 <= j < f6.len() ==> f6[j] == fp[j] && is_dec_digit(#[trigger] f6[j]));
        }
        lemma_digits_val_nonneg(f6);
        lemma_digits_val_nonneg(ip);
        lemma_pow10_pos((6 - f6.len()) as nat);
        assert(digits_val(f6) * pow10((6 - f6.len()) as nat) >= 0) by (nonlinear_arith)
            requires
                digits_val(f6) >= 0,
                pow10((6 - f6.len()) as nat) >= 1,
        ;
    }

    // Value of the integer part.
    let int_cap: u64 = u64::MAX / MICRO;
    let ip_val = match digits_value_capped(s, 0, dot, int_cap) {
        Some(v) => v,
        None => {
            proof {
                assert(int_cap == 18_446_744_073_709);
                assert(digits_val(ip) * (MICRO as int) > u64::MAX) by (nonlinear_arith)
                    requires
                        digits_val(ip) >= 18_446_744_073_710,
                        MICRO == 1_000_000,
                ;
            }
            return None;
        },
    };
    proof {
        assert(int_cap == 18_446_744_073_709);
        assert(ip_val == digits_val(ip));
        assert(ip_val <= 18_446_744_073_709);
    }

    // Value of the first six fraction digits, scaled to micro units.
    let f6end: usize = if n - fstart <= 6 {
        n
    } else {
        fstart + 6
    };
    proof {
        assert(f6 =~= s@.subrange(fstart as int, f6end as int));
    }
    let f6_val = match digits_value_capped(s, fstart, f6end, 999_999) {
        Some(v) => v,
        None => {
            // Unreachable: six digits are below the cap.
            proof {
                lemma_digits_value_bound(f6);
            }
            return None;
        },
    };
    let scale: u64 = match f6end - fstart {
        0 => 1_000_000,
        1 => 100_000,
        2 => 10_000,
        3 => 1_000,
        4 => 100,
        5 => 10,
        _ => 1,
    };
    proof {
        reveal_with_fuel(pow10, 8);
        assert(scale == pow10((6 - f6.len()) as nat));
        lemma_digits_value_bound(f6);
        assert(f6_val == digits_val(f6));
        assert((f6_val as int) * (scale as int) <= 999_999_000_000) by (nonlinear_arith)
            requires
                0 <= f6_val <= 999_999,
                0 <= scale <= 1_000_000,
        ;
        assert((f6_val as int) * (scale as int) >= 0) by (nonlinear_arith)
            requires
                0 <= f6_val,
                0 <= scale,
        ;
    }
    let total: u128 = (ip_val as u128) * (MICRO as u128) + (f6_val as u128) * (scale as u128);
    if total > u64::MAX as u128 {
        None
    } else {
        Some(total as u64)
    }
}

/// Powers of ten are positive.
pub proof fn lemma_pow10_pos(k: nat)
    ensures
        pow10(k) >= 1,
    decreases k,
{
    if k > 0 {
        lemma_pow10_pos((k - 1) as nat);
    }
}

/// Powers of ten grow with the exponent.
pub proof fn lemma_pow10_mono(j: nat, k: nat)
    requires
        j <= k,
    ensures
        pow10(j) <= pow10(k),
    decreases k,
{
    if j < k {
        lemma_pow10_mono(j, (k - 1) as nat);
        lemma_pow10_pos((k - 1) as nat);
    }
}

/// A run of at most six digits stays below one million.
pub proof fn lemma_digits_value_bound(s: Seq<char>)
    requires
        all_dec_digits(s),
        s.len() <= 6,
    ensures
        0 <= digits_val(s) < 1_000_000,
{
    lemma_digits_val_len_bound(s);
    lemma_pow10_mono(s.len(), 6);
    assert(pow10(6) == 1_000_000) by {
        reveal_with_fuel(pow10, 8);
    }
}

/// A run of `k` digits is below ten to the `k`.
pub proof fn lemma_digits_val_len_bound(s: Seq<char>)
    requires
        all_dec_digits(s),
    ensures
        0 <= digits_val(s) < pow10(s.len()),
    decreases s.len(),
{
    if s.len() == 0 {
    } else {
        assert(all_dec_digits(s.drop_last())) by {
            assert(forall|i: int|
                0 <= i < s.drop_last().len() ==> s.drop_last()[i] == s[i] && is_dec_digit(
                    #[trigger] s[i],
                ));
        }
        lemma_digits_val_len_bound(s.drop_last());
        let v = digits_val(s.drop_last());
        let p = pow10(s.drop_last().len());
        assert(pow10(s.len()) == 10 * p);
        assert(v * 10 + digit_val(s.last()) < 10 * p) by (nonlinear_arith)
            requires
                0 <= v < p,
                0 <= digit_val(s.last()) < 10,
        ;
        assert(v * 10 >= 0) by (nonlinear_arith)
            requires
                v >= 0,
        ;
    }
}

} // verus!
