//! Verified handling of decimal number text.
//!
//! Upstream payloads carry readings as decimal literals. The library holds
//! them as integers in thousandths (milli-units), which keeps the contracts
//! exact: `"5.25"` becomes `5250`. This module parses decimal and integer
//! text, renders integers back to text, and converts wind speeds from
//! kilometres per hour to metres per second.

use vstd::arithmetic::div_mod::{lemma_fundamental_div_mod, lemma_fundamental_div_mod_converse};
use vstd::prelude::*;

verus! {

pub open spec fn is_digit(c: char) -> bool {
    '0' <= c && c <= '9'
}

pub open spec fn digit_val(c: char) -> int {
    c as u32 as int - 48
}

pub open spec fn all_digits(s: Seq<char>) -> bool {
    forall|i: int| 0 <= i < s.len() ==> is_digit(#[trigger] s[i])
}

/// Numeric value of a digit string, most significant digit first.
pub open spec fn digits_val(s: Seq<char>) -> int
    decreases s.len(),
{
    if s.len() == 0 {
        0
    } else {
        digits_val(s.drop_last()) * 10 + digit_val(s.last())
    }
}

pub proof fn lemma_digits_val_nonneg(s: Seq<char>)
    requires
        all_digits(s),
    ensures
        digits_val(s) >= 0,
    decreases s.len(),
{
    if s.len() > 0 {
        assert(all_digits(s.drop_last()));
        lemma_digits_val_nonneg(s.drop_last());
    }
}

/// Appending one digit multiplies the prefix value by ten and adds the digit.
pub proof fn lemma_digits_val_push(s: Seq<char>, j: int)
    requires
        0 <= j < s.len(),
    ensures
        digits_val(s.subrange(0, j + 1)) == digits_val(s.subrange(0, j)) * 10 + digit_val(s[j]),
{
    let p = s.subrange(0, j + 1);
    assert(p.drop_last() =~= s.subrange(0, j));
    assert(p.last() == s[j]);
}

/// A digit-string prefix never exceeds the whole string's value.
pub proof fn lemma_digits_val_prefix_le(s: Seq<char>, j: int)
    requires
        all_digits(s),
        0 <= j <= s.len(),
    ensures
        digits_val(s.subrange(0, j)) <= digits_val(s),
    decreases s.len() - j,
{
    if j < s.len() {
        lemma_digits_val_push(s, j);
        assert(all_digits(s.subrange(0, j)));
        lemma_digits_val_nonneg(s.subrange(0, j));
        lemma_digits_val_prefix_le(s, j + 1);
    } else {
        assert(s.subrange(0, j) =~= s);
    }
}

/// Integer text: an optional leading minus sign, then one or more digits.
pub open spec fn spec_int_text(s: Seq<char>) -> Option<int> {
    if s.len() > 0 && s[0] == '-' {
        let ds = s.subrange(1, s.len() as int);
        if ds.len() > 0 && all_digits(ds) {
            Some(-digits_val(ds))
        } else {
            None
        }
    } else if s.len() > 0 && all_digits(s) {
        Some(digits_val(s))
    } else {
        None
    }
}

/// The fraction digit at place `i`, with zero padding past the end.
pub open spec fn frac_digit(f: Seq<char>, i: int) -> int {
    if i < f.len() {
        digit_val(f[i])
    } else {
        0
    }
}

/// Value of a fraction-digit string in thousandths, truncated after the
/// third place.
pub open spec fn frac_milli(f: Seq<char>) -> int {
    100 * frac_digit(f, 0) + 10 * frac_digit(f, 1) + frac_digit(f, 2)
}

/// A position `k` splits `s` into a nonempty digit string, a dot, and a
/// nonempty digit string.
pub open spec fn valid_split(s: Seq<char>, k: int) -> bool {
    &&& 1 <= k <= s.len() - 2
    &&& s[k] == '.'
    &&& all_digits(s.subrange(0, k))
    &&& all_digits(s.subrange(k + 1, s.len() as int))
}

pub proof fn lemma_valid_split_unique(s: Seq<char>, k1: int, k2: int)
    requires
        valid_split(s, k1),
        valid_split(s, k2),
    ensures
        k1 == k2,
{
    if k1 < k2 {
        assert(is_digit(s.subrange(k1 + 1, s.len() as int)[k2 - k1 - 1]));
    }
    if k2 < k1 {
        assert(is_digit(s.subrange(k2 + 1, s.len() as int)[k1 - k2 - 1]));
    }
}

/// Milli-value of unsigned decimal text: either all digits, or digits on
/// both sides of a single dot. Fraction digits past the third are read but
/// do not contribute.
pub open spec fn spec_unsigned_dec_milli(s: Seq<char>) -> Option<int> {
    if s.len() > 0 && all_digits(s) {
        Some(1000 * digits_val(s))
    } else if exists|k: int| valid_split(s, k) {
        let k = choose|k: int| valid_split(s, k);
        Some(1000 * digits_val(s.subrange(0, k)) + frac_milli(s.subrange(k + 1, s.len() as int)))
    } else {
        None
    }
}

/// Milli-value of decimal text with an optional leading minus sign.
pub open spec fn spec_dec_milli(s: Seq<char>) -> Option<int> {
    if s.len() > 0 && s[0] == '-' {
        match spec_unsigned_dec_milli(s.subrange(1, s.len() as int)) {
            Some(v) => Some(-v),
            None => None,
        }
    } else {
        spec_unsigned_dec_milli(s)
    }
}

/// Scan `s[from..to]` as a digit run and return its value, or `None` when
/// the run is empty, holds a non-digit, or its value exceeds `cap`.
fn scan_digits(s: &str, from: usize, to: usize, cap: u64) -> (r: Option<u64>)
    requires
        from <= to && to <= s@.len(),
    ensures
        ({
            let sub = s@.subrange(from as int, to as int);
            &&& (r matches Some(v) ==> sub.len() > 0 && all_digits(sub) && v as int == digits_val(
                sub,
            ) && v <= cap)
            &&& (r is None ==> sub.len() == 0 || !all_digits(sub) || digits_val(sub) > cap)
        }),
{
    let ghost sub = s@.subrange(from as int, to as int);
    if from == to {
        return None;
    }
    let mut acc: u64 = 0;
    let mut i: usize = from;
    while i < to
        invariant
            from <= i <= to,
            to <= s@.len(),
            sub == s@.subrange(from as int, to as int),
            acc <= cap,
            all_digits(sub.subrange(0, i - from)),
            acc as int == digits_val(sub.subrange(0, i - from)),
        decreases to - i,
    {
        let c = s.get_char(i);
        let cu = c as u32;
        proof {
            assert(sub[i - from] == c);
        }
        if cu < 48 || cu > 57 {
            proof {
                assert(!is_digit(sub[i - from]));
            }
            return None;
        }
        let d: u64 = (cu - 48) as u64;
        let wide: u128 = acc as u128 * 10 + d as u128;
        proof {
            lemma_digits_val_push(sub, i - from);
            assert(sub.subrange(0, i - from + 1).drop_last() =~= sub.subrange(0, i - from));
        }
        if wide > cap as u128 {
            proof {
                assert(digits_val(sub.subrange(0, i - from + 1)) > cap);
                if all_digits(sub) {
                    lemma_digits_val_prefix_le(sub, i - from + 1);
                }
            }
            return None;
        }
        acc = wide as u64;
        i = i + 1;
    }
    proof {
        assert(sub.subrange(0, to - from) =~= sub);
    }
    Some(acc)
}

/// Scan `s[from..to]` as the fraction digits of a decimal literal and
/// return their milli-value, or `None` when the run is empty or holds a
/// non-digit.
fn scan_frac(s: &str, from: usize, to: usize) -> (r: Option<u64>)
    requires
        from <= to && to <= s@.len(),
    ensures
        ({
            let sub = s@.subrange(from as int, to as int);
            &&& (r matches Some(v) ==> sub.len() > 0 && all_digits(sub) && v as int == frac_milli(
                sub,
            ))
            &&& (r is None ==> sub.len() == 0 || !all_digits(sub))
        }),
{
    let ghost sub = s@.subrange(from as int, to as int);
    if from == to {
        return None;
    }
    let mut value: u64 = 0;
    let mut i: usize = from;
    while i < to
        invariant
            from <= i <= to,
            to <= s@.len(),
            from < to,
            sub == s@.subrange(from as int, to as int),
            all_digits(sub.subrange(0, i - from)),
            value as int == 100 * (if i - from >= 1 {
                frac_digit(sub, 0)
            } else {
                0
            }) + 10 * (if i - from >= 2 {
                frac_digit(sub, 1)
            } else {
                0
            }) + (if i - from >= 3 {
                frac_digit(sub, 2)
            } else {
                0
            }),
        decreases to - i,
    {
        let c = s.get_char(i);
        let cu = c as u32;
        proof {
            assert(sub[i - from] == c);
        }
        if cu < 48 || cu > 57 {
            proof {
                assert(!is_digit(sub[i - from]));
            }
            return None;
        }
        let d: u64 = (cu - 48) as u64;
        if i - from == 0 {
            value = value + 100 * d;
        } else if i - from == 1 {
            value = value + 10 * d;
        } else if i - from == 2 {
            value = value + d;
        }
        proof {
            assert(sub.subrange(0, i - from + 1).drop_last() =~= sub.subrange(0, i - from));
            assert(sub.subrange(0, i - from + 1).last() == sub[i - from]);
        }
        i = i + 1;
    }
    proof {
        assert(sub.subrange(0, to - from) =~= sub);
        if sub.len() < 2 {
            assert(frac_digit(sub, 1) == 0);
        }
        if sub.len() < 3 {
            assert(frac_digit(sub, 2) == 0);
        }
    }
    Some(value)
}

/// Index of the first dot at or after `from`, or the length when there is
/// none.
fn find_dot(s: &str, from: usize, n: usize) -> (k: usize)
    requires
        from <= n,
        n == s@.len(),
    ensures
        from <= k <= n,
        forall|j: int| from <= j < k ==> s@[j] != '.',
        k < n ==> s@[k as int] == '.',
{
    let mut k: usize = from;
    while k < n && s.get_char(k) != '.'
        invariant
            from <= k <= n,
            n == s@.len(),
            forall|j: int| from <= j < k ==> s@[j] != '.',
        decreases n - k,
    {
        k = k + 1;
    }
    k
}

/// Parse integer text into an `i64`.
///
/// Returns the value exactly when the text is well-formed integer text and
/// the value has magnitude at most `i64::MAX`; returns `None` otherwise.
pub fn parse_int_i64(s: &str) -> (r: Option<i64>)
    ensures
        match spec_int_text(s@) {
            Some(v) => if -(i64::MAX as int) <= v <= i64::MAX as int {
                r == Some(v as i64)
            } else {
                r is None
            },
            None => r is None,
        },
{
    let n = s.unicode_len();
    if n == 0 {
        return None;
    }
    let neg = s.get_char(0) == '-';
    let start: usize = if neg {
        1
    } else {
        0
    };
    let ghost t = s@.subrange(start as int, n as int);
    proof {
        if !neg {
            assert(t =~= s@);
        }
    }
    let scanned = scan_digits(s, start, n, i64::MAX as u64);
    match scanned {
        None => {
            proof {
                if t.len() > 0 && all_digits(t) {
                    // the run was well-formed, so its value must be too big
                    assert(digits_val(t) > i64::MAX);
                }
            }
            None
        },
        Some(v) => {
            if neg {
                Some(-(v as i64))
            } else {
                Some(v as i64)
            }
        },
    }
}

/// Largest integer part that keeps a milli-value within `i64`.
const DEC_INT_CAP: u64 = 9223372036854775;

/// Parse decimal text into thousandths.
///
/// Returns the milli-value exactly when the text is well-formed decimal
/// text and the milli-value has magnitude at most `i64::MAX`; returns
/// `None` otherwise. Fraction digits past the third are read but do not
/// contribute.
pub fn parse_dec_milli(s: &str) -> (r: Option<i64>)
    ensures
        match spec_dec_milli(s@) {
            Some(v) => if -(i64::MAX as int) <= v <= i64::MAX as int {
                r == Some(v as i64)
            } else {
                r is None
            },
            None => r is None,
        },
{
    let n = s.unicode_len();
    if n == 0 {
        return None;
    }
    let neg = s.get_char(0) == '-';
    let start: usize = if neg {
        1
    } else {
        0
    };
    let ghost t = s@.subrange(start as int, n as int);
    proof {
        if !neg {
            assert(t =~= s@);
        }
    }
    if start == n {
        return None;
    }
    let dot = find_dot(s, start, n);
    let ghost kt = dot - start;
    let ghost ipart = s@.subrange(start as int, dot as int);
    let ghost fpart = s@.subrange(dot as int + 1, n as int);
    proof {
        assert(ipart =~= t.subrange(0, kt as int));
        if dot < n {
            assert(fpart =~= t.subrange(kt as int + 1, t.len() as int));
            assert(t[kt as int] == '.');
            assert(!is_digit(t[kt as int]));
        }
    }
    let scanned = scan_digits(s, start, dot, DEC_INT_CAP);
    let iv: u64 = match scanned {
        None => {
            proof {
                lemma_unsigned_dec_none_or_big(t, kt as int, ipart, fpart);
            }
            return None;
        },
        Some(v) => v,
    };
    if dot == n {
        // plain integer text: milli-value is a thousandfold
        let mag: u64 = iv * 1000;
        proof {
            assert(t.len() > 0 && all_digits(t));
        }
        if neg {
            Some(-(mag as i64))
        } else {
            Some(mag as i64)
        }
    } else {
        let fscan = scan_frac(s, dot + 1, n);
        let fv: u64 = match fscan {
            None => {
                proof {
                    lemma_no_valid_split_bad_frac(t, kt as int, fpart);
                    assert(!all_digits(t));
                }
                return None;
            },
            Some(v) => v,
        };
        let mag: u64 = iv * 1000 + fv;
        proof {
            assert(valid_split(t, kt as int));
            assert(!all_digits(t));
            let k0 = choose|k: int| valid_split(t, k);
            lemma_valid_split_unique(t, k0, kt as int);
            assert(spec_unsigned_dec_milli(t) == Some(1000 * digits_val(ipart) + frac_milli(fpart)));
        }
        if mag > i64::MAX as u64 {
            None
        } else {
            if neg {
                Some(-(mag as i64))
            } else {
                Some(mag as i64)
            }
        }
    }
}

/// When the integer part of a dotted or undotted run is empty, malformed or
/// too large, the unsigned decimal value is absent or exceeds `i64`.
proof fn lemma_unsigned_dec_none_or_big(t: Seq<char>, kt: int, ipart: Seq<char>, fpart: Seq<char>)
    requires
        0 <= kt <= t.len(),
        ipart == t.subrange(0, kt),
        kt < t.len() ==> t[kt] == '.' && fpart == t.subrange(kt + 1, t.len() as int),
        forall|j: int| 0 <= j < kt ==> t[j] != '.',
        ipart.len() == 0 || !all_digits(ipart) || digits_val(ipart) > DEC_INT_CAP,
    ensures
        spec_unsigned_dec_milli(t) is None || spec_unsigned_dec_milli(t).unwrap() > i64::MAX,
{
    if ipart.len() > 0 && all_digits(ipart) {
        // the integer part alone is already too large
        if kt == t.len() {
            assert(t =~= ipart);
            assert(spec_unsigned_dec_milli(t) == Some(1000 * digits_val(t)));
        } else {
            assert(!is_digit(t[kt]));
            if exists|k: int| valid_split(t, k) {
                let k0 = choose|k: int| valid_split(t, k);
                assert(valid_split(t, kt)) by {
                    if k0 < kt {
                        assert(t[k0] == '.');
                    }
                    if k0 > kt {
                        assert(is_digit(t.subrange(0, k0)[kt]));
                    }
                }
                lemma_valid_split_unique(t, k0, kt);
                assert(all_digits(fpart));
                assert(frac_milli(fpart) >= 0) by {
                    if fpart.len() >= 1 {
                        assert(is_digit(fpart[0]));
                    }
                    if fpart.len() >= 2 {
                        assert(is_digit(fpart[1]));
                    }
                    if fpart.len() >= 3 {
                        assert(is_digit(fpart[2]));
                    }
                }
            }
        }
    } else {
        // empty or malformed integer part: no reading of t is well-formed
        if kt == t.len() {
            assert(t =~= ipart);
            assert(!(t.len() > 0 && all_digits(t)));
            assert(forall|k: int| !valid_split(t, k)) by {
                assert forall|k: int| !valid_split(t, k) by {
                    if valid_split(t, k) {
                        assert(t[k] == '.');
                    }
                }
            }
        } else {
            assert(!is_digit(t[kt]));
            assert(!all_digits(t));
            assert forall|k: int| !valid_split(t, k) by {
                if valid_split(t, k) {
                    if k < kt {
                        assert(t[k] == '.');
                    } else if k == kt {
                        if ipart.len() == 0 {
                            // a split needs a nonempty integer part
                        } else {
                            assert(all_digits(ipart));
                        }
                    } else {
                        assert(is_digit(t.subrange(0, k)[kt]));
                    }
                }
            }
        }
    }
}

/// When the fraction side of the dot is empty or malformed, no split of the
/// run is valid.
proof fn lemma_no_valid_split_bad_frac(t: Seq<char>, kt: int, fpart: Seq<char>)
    requires
        0 <= kt < t.len(),
        t[kt] == '.',
        fpart == t.subrange(kt + 1, t.len() as int),
        forall|j: int| 0 <= j < kt ==> t[j] != '.',
        fpart.len() == 0 || !all_digits(fpart),
    ensures
        forall|k: int| !valid_split(t, k),
{
    assert forall|k: int| !valid_split(t, k) by {
        if valid_split(t, k) {
            if k < kt {
                assert(t[k] == '.');
            } else if k == kt {
                assert(all_digits(fpart));
                assert(fpart.len() == t.len() - kt - 1 >= 1);
            } else {
                assert(is_digit(t.subrange(0, k)[kt]));
            }
        }
    }
}

/// Wind speed in milli-metres-per-second from milli-kilometres-per-hour:
/// the exact quotient by 3.6, with the magnitude rounded toward zero.
pub open spec fn spec_kph_to_mps_milli(k: int) -> int {
    if k >= 0 {
        (k * 5) / 18
    } else {
        -((-k * 5) / 18)
    }
}

/// Convert a wind speed from milli-km/h to milli-m/s (division by 3.6).
pub fn kph_milli_to_mps_milli(k: i64) -> (r: i64)
    ensures
        r as int == spec_kph_to_mps_milli(k as int),
{
    if k >= 0 {
        let wide: u128 = (k as u128) * 5 / 18;
        wide as i64
    } else {
        let mag_in: u128 = ((-(k + 1)) as u128) + 1;
        let mag: u128 = mag_in * 5 / 18;
        -(mag as i64)
    }
}

/// Dividing milli-km/h by 3.6 reproduces milli-m/s exactly: whenever the
/// quotient leaves no remainder, multiplying the result back by 3.6 (that
/// is, by 18/5) yields the original reading.
pub proof fn lemma_wind_conversion_exact(k: int)
    requires
        (k * 5) % 18 == 0,
    ensures
        18 * spec_kph_to_mps_milli(k) == 5 * k,
{
    if k >= 0 {
        lemma_fundamental_div_mod(k * 5, 18);
    } else {
        assert((-k * 5) == -(k * 5));
        assert((-(k * 5)) % 18 == 0) by {
            lemma_fundamental_div_mod(k * 5, 18);
            lemma_fundamental_div_mod_converse(-(k * 5), 18, -((k * 5) / 18), 0);
        }
        lemma_fundamental_div_mod(-k * 5, 18);
    }
}

/// The decimal digit character for a value in 0–9.
pub open spec fn digit_char(d: int) -> char {
    if d == 0 {
        '0'
    } else if d == 1 {
        '1'
    } else if d == 2 {
        '2'
    } else if d == 3 {
        '3'
    } else if d == 4 {
        '4'
    } else if d == 5 {
        '5'
    } else if d == 6 {
        '6'
    } else if d == 7 {
        '7'
    } else if d == 8 {
        '8'
    } else {
        '9'
    }
}

/// Decimal rendering of a nonnegative integer, most significant digit
/// first.
pub open spec fn spec_u64_dec(n: int) -> Seq<char>
    decreases n,
{
    if n < 10 {
        seq![digit_char(n)]
    } else {
        spec_u64_dec(n / 10) + seq![digit_char(n % 10)]
    }
}

/// Decimal rendering of an integer, with a leading minus sign when
/// negative.
pub open spec fn spec_i64_dec(n: int) -> Seq<char> {
    if n < 0 {
        seq!['-'] + spec_u64_dec(-n)
    } else {
        spec_u64_dec(n)
    }
}

fn digit_str(d: u64) -> (r: &'static str)
    requires
        d < 10,
    ensures
        r@ == seq![digit_char(d as int)],
{
    let r: &'static str = if d == 0 {
        "0"
    } else if d == 1 {
        "1"
    } else if d == 2 {
        "2"
    } else if d == 3 {
        "3"
    } else if d == 4 {
        "4"
    } else if d == 5 {
        "5"
    } else if d == 6 {
        "6"
    } else if d == 7 {
        "7"
    } else if d == 8 {
        "8"
    } else {
        "9"
    };
    proof {
        reveal_strlit("0");
        reveal_strlit("1");
        reveal_strlit("2");
        reveal_strlit("3");
        reveal_strlit("4");
        reveal_strlit("5");
        reveal_strlit("6");
        reveal_strlit("7");
        reveal_strlit("8");
        reveal_strlit("9");
        assert(r@ =~= seq![digit_char(d as int)]);
    }
    r
}

fn push_u64_dec(out: &mut String, n: u64)
    ensures
        final(out)@ == old(out)@ + spec_u64_dec(n as int),
    decreases n,
{
    if n < 10 {
        out.append(digit_str(n));
    } else {
        push_u64_dec(out, n / 10);
        out.append(digit_str(n % 10));
        proof {
            assert(old(out)@ + spec_u64_dec(n as int / 10) + seq![digit_char(n as int % 10)] =~= old(
                out,
            )@ + spec_u64_dec(n as int));
        }
    }
}

/// Render a nonnegative integer as decimal text.
pub fn u64_to_dec_string(n: u64) -> (r: String)
    ensures
        r@ == spec_u64_dec(n as int),
{
    let mut out = String::new();
    push_u64_dec(&mut out, n);
    proof {
        assert(Seq::<char>::empty() + spec_u64_dec(n as int) =~= spec_u64_dec(n as int));
    }
    out
}

/// Render an integer as decimal text.
pub fn i64_to_dec_string(n: i64) -> (r: String)
    ensures
        r@ == spec_i64_dec(n as int),
{
    if n >= 0 {
        u64_to_dec_string(n as u64)
    } else {
        let mag: u64 = if n == i64::MIN {
            9223372036854775808u64
        } else {
            (-n) as u64
        };
        let mut out = String::from_str("-");
        push_u64_dec(&mut out, mag);
        proof {
            reveal_strlit("-");
            assert("-"@ =~= seq!['-']);
            assert(seq!['-'] + spec_u64_dec(mag as int) =~= spec_i64_dec(n as int));
        }
        out
    }
}

} // verus!
