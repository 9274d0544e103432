//! Driver-facing decisions that need no driver: pure judgments the
//! connection layer makes about a backend.

use vstd::prelude::*;
use crate::text::is_digit;

verus! {

/// Where the digit run starting at `i` ends.
pub open spec fn digit_run_end(s: Seq<char>, i: int) -> int
    decreases s.len() - i,
{
    if i < 0 || i >= s.len() || !is_digit(s[i]) {
        i
    } else {
        digit_run_end(s, i + 1)
    }
}

/// The number a run of digit characters denotes.
pub open spec fn digits_val(d: Seq<char>) -> int
    decreases d.len(),
{
    if d.len() == 0 {
        0
    } else {
        digits_val(d.drop_last()) * 10 + (d.last() as int - 48)
    }
}

/// `digits_val`, with the accumulator frozen once it passes 1000 — the form
/// the scanning loop computes so it cannot overflow.
pub open spec fn capped_val(d: Seq<char>) -> int
    decreases d.len(),
{
    if d.len() == 0 {
        0
    } else {
        let prev = capped_val(d.drop_last());
        if prev > 1000 {
            prev
        } else {
            prev * 10 + (d.last() as int - 48)
        }
    }
}

/// The capped value agrees with the true value, or both are beyond every
/// version number that matters.
pub proof fn lemma_capped_val(d: Seq<char>)
    requires
        forall|j: int| 0 <= j < d.len() ==> is_digit(#[trigger] d[j]),
    ensures
        0 <= capped_val(d),
        capped_val(d) == digits_val(d) || (capped_val(d) > 1000 && digits_val(d) > 1000),
    decreases d.len(),
{
    if d.len() > 0 {
        assert(forall|j: int|
            0 <= j < d.drop_last().len() ==> is_digit(#[trigger] d.drop_last()[j]));
        lemma_capped_val(d.drop_last());
        assert(is_digit(d.last()));
    }
}

/// The version's major number: its leading digits.
pub open spec fn major_digits(s: Seq<char>) -> Seq<char> {
    s.take(digit_run_end(s, 0))
}

/// The version's minor number: the digits after the major number and one
/// separator character.
pub open spec fn minor_digits(s: Seq<char>) -> Seq<char> {
    let start = digit_run_end(s, 0) + 1;
    if start <= s.len() {
        s.subrange(start, digit_run_end(s, start))
    } else {
        seq![]
    }
}

/// Whether a backend version string names a release that supports the SQL
/// `RETURNING` clause: major at least 3 and minor at least 35.  A missing
/// number reads as zero.
pub open spec fn version_supports_returning(s: Seq<char>) -> bool {
    digits_val(major_digits(s)) >= 3 && digits_val(minor_digits(s)) >= 35
}

/// A digit run's end lies between its start and the text's end.
pub proof fn lemma_digit_run_end_bounds(s: Seq<char>, i: int)
    requires
        0 <= i <= s.len(),
    ensures
        i <= digit_run_end(s, i) <= s.len(),
        forall|j: int| i <= j < digit_run_end(s, i) ==> is_digit(#[trigger] s[j]),
    decreases s.len() - i,
{
    if i < s.len() && is_digit(s[i]) {
        lemma_digit_run_end_bounds(s, i + 1);
    }
}

/// Scan the digit run starting at `from`; yields the run's end and the run's
/// (capped) value.
#[verifier::loop_isolation(false)]
fn scan_digits(s: &str, from: usize) -> (r: (usize, u64))
    requires
        from <= s@.len(),
    ensures
        r.0 as int == digit_run_end(s@, from as int),
        r.1 as int == capped_val(s@.subrange(from as int, digit_run_end(s@, from as int))),
        from <= r.0 <= s@.len(),
{
    proof {
        lemma_digit_run_end_bounds(s@, from as int);
    }
    let n = s.unicode_len();
    let mut i = from;
    let mut val: u64 = 0;
    while i < n && digit_at_is(s, i)
        invariant
            from <= i <= n,
            digit_run_end(s@, from as int) == digit_run_end(s@, i as int),
            val as int == capped_val(s@.subrange(from as int, i as int)),
            val <= 20000,
        decreases n - i,
    {
        let c = s.get_char(i);
        let d: u64 = ((c as u32) as u64) - 48;
        if val <= 1000 {
            val = val * 10 + d;
        }
        i = i + 1;
        proof {
            assert(s@.subrange(from as int, i as int).drop_last() =~= s@.subrange(
                from as int,
                i - 1,
            ));
        }
    }
    proof {
        assert(digit_run_end(s@, i as int) == i);
    }
    (i, val)
}

/// Whether the character at `i` is a decimal digit.
fn digit_at_is(s: &str, i: usize) -> (r: bool)
    requires
        i < s@.len(),
    ensures
        r == is_digit(s@[i as int]),
{
    let c = s.get_char(i);
    48 <= (c as u32) && (c as u32) <= 57
}

/// Whether the backend behind this version string supports the SQL
/// `RETURNING` clause: version 3.35 or later.  The major number is read from
/// the string's leading digits and the minor number from the digits after
/// the following separator; a missing number reads as zero, so a malformed
/// version string reads as an old version rather than aborting.
#[verifier::loop_isolation(false)]
pub fn supports_returning(version: &str) -> (r: bool)
    ensures
        r == version_supports_returning(version@),
{
    let n = version.unicode_len();
    let (major_end, major_val) = scan_digits(version, 0);
    proof {
        lemma_digit_run_end_bounds(version@, 0);
        assert(version@.subrange(0, digit_run_end(version@, 0)) =~= major_digits(version@));
        lemma_capped_val(major_digits(version@));
    }
    let minor_val: u64 = if major_end < n {
        let (_, mv) = scan_digits(version, major_end + 1);
        proof {
            lemma_digit_run_end_bounds(version@, major_end + 1);
            assert(version@.subrange(
                major_end + 1,
                digit_run_end(version@, major_end + 1),
            ) =~= minor_digits(version@));
            lemma_capped_val(minor_digits(version@));
        }
        mv
    } else {
        proof {
            assert(minor_digits(version@) =~= Seq::<char>::empty());
        }
        0
    };
    major_val >= 3 && minor_val >= 35
}

} // verus!
