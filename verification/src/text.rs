//! Small text utilities: ASCII-case-insensitive comparison, exact string
//! comparison, and truncation of upstream response bodies for error messages.

use vstd::prelude::*;

verus! {

/// An upstream body quoted in an error message is cut to this many characters.
pub const BODY_EXCERPT_MAX: usize = 200;

/// ASCII case folding of a single code point: uppercase letters map to
/// lowercase, everything else is untouched.
pub open spec fn fold_cp(c: int) -> int {
    if 65 <= c <= 90 {
        c + 32
    } else {
        c
    }
}

/// Two character sequences are equal up to ASCII case.
pub open spec fn fold_eq(a: Seq<char>, b: Seq<char>) -> bool {
    &&& a.len() == b.len()
    &&& forall|i: int|
        0 <= i < a.len() ==> fold_cp(#[trigger] a[i] as u32 as int) == fold_cp(b[i] as u32 as int)
}

/// Compare two strings ignoring ASCII case.
pub fn eq_ignore_ascii_case(a: &str, b: &str) -> (r: bool)
    ensures
        r == fold_eq(a@, b@),
{
    let an = a.unicode_len();
    let bn = b.unicode_len();
    if an != bn {
        return false;
    }
    let mut i: usize = 0;
    while i < an
        invariant
            i <= an,
            an == a@.len(),
            an == b@.len(),
            forall|j: int|
                0 <= j < i ==> fold_cp(#[trigger] a@[j] as u32 as int) == fold_cp(
                    b@[j] as u32 as int,
                ),
        decreases an - i,
    {
        let ac = a.get_char(i) as u32;
        let bc = b.get_char(i) as u32;
        let af: u32 = if 65 <= ac && ac <= 90 {
            ac + 32
        } else {
            ac
        };
        let bf: u32 = if 65 <= bc && bc <= 90 {
            bc + 32
        } else {
            bc
        };
        if af != bf {
            return false;
        }
        i = i + 1;
    }
    true
}

/// Compare two strings for exact equality, character by character.
pub fn str_eq(a: &str, b: &str) -> (r: bool)
    ensures
        r == (a@ == b@),
{
    let an = a.unicode_len();
    let bn = b.unicode_len();
    if an != bn {
        proof {
            assert(a@.len() != b@.len());
        }
        return false;
    }
    let mut i: usize = 0;
    while i < an
        invariant
            i <= an,
            an == a@.len(),
            an == b@.len(),
            forall|j: int| 0 <= j < i ==> a@[j] == b@[j],
        decreases an - i,
    {
        if a.get_char(i) != b.get_char(i) {
            return false;
        }
        i = i + 1;
    }
    proof {
        assert(a@ =~= b@);
    }
    true
}

/// What a body excerpt looks like: the body itself when short enough, else
/// its first `BODY_EXCERPT_MAX` characters followed by an ellipsis.
pub open spec fn spec_truncate_body(s: Seq<char>) -> Seq<char> {
    if s.len() <= BODY_EXCERPT_MAX {
        s
    } else {
        s.subrange(0, BODY_EXCERPT_MAX as int) + "..."@
    }
}

/// Truncate an upstream response body for inclusion in an error message,
/// so that oversized or sensitive payloads never reach a log verbatim.
pub fn truncate_body(body: &str) -> (r: String)
    ensures
        r@ == spec_truncate_body(body@),
{
    let n = body.unicode_len();
    if n <= BODY_EXCERPT_MAX {
        body.to_owned()
    } else {
        let head = body.substring_char(0, BODY_EXCERPT_MAX);
        let owned: String = head.to_owned();
        owned.concat("...")
    }
}

} // verus!
