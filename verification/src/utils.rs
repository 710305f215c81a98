//! Parsing of human-readable sizes such as "20k", "10M" or "6g": a
//! decimal number with an optional trailing unit letter.

use vstd::prelude::*;
use vstd::string::StrSliceExecFns;

verus! {

/// Whether a character is an ASCII letter.
pub open spec fn spec_is_alpha(c: char) -> bool {
    (97 <= c as u32 <= 122) || (65 <= c as u32 <= 90)
}

/// Whether a character is a decimal digit.
pub open spec fn spec_is_digit(c: char) -> bool {
    48 <= c as u32 <= 57
}

/// The string with every trailing letter removed.
pub open spec fn spec_trim_alpha(s: Seq<char>) -> Seq<char>
    decreases s.len(),
{
    if s.len() > 0 && spec_is_alpha(s.last()) {
        spec_trim_alpha(s.drop_last())
    } else {
        s
    }
}

/// Whether every character is a decimal digit.
pub open spec fn spec_all_digits(s: Seq<char>) -> bool {
    forall|i: int| 0 <= i < s.len() ==> spec_is_digit(#[trigger] s[i])
}

/// The value of a digit string, read in decimal.
pub open spec fn spec_digits_val(s: Seq<char>) -> int
    decreases s.len(),
{
    if s.len() == 0 {
        0
    } else {
        spec_digits_val(s.drop_last()) * 10 + (s.last() as u32 - 48)
    }
}

/// The multiplier the string's last character asks for: 'k', 'm' or 'g'
/// (either case) scale by powers of 1024; anything else leaves the
/// number as it is.
pub open spec fn spec_multiplier(s: Seq<char>) -> u64 {
    if s.len() == 0 {
        1
    } else if s.last() == 'k' || s.last() == 'K' {
        1024
    } else if s.last() == 'm' || s.last() == 'M' {
        1048576
    } else if s.last() == 'g' || s.last() == 'G' {
        1073741824
    } else {
        1
    }
}

/// What a human-readable size string denotes, if anything: the digits
/// before the trailing letters, scaled by the unit the last character
/// names. There must be at least one digit and nothing but digits before
/// the letters, and the scaled value must fit in 64 bits.
pub open spec fn spec_humansize(s: Seq<char>) -> Option<u64> {
    let prefix = spec_trim_alpha(s);
    if prefix.len() == 0 || !spec_all_digits(prefix) {
        None
    } else if spec_digits_val(prefix) * spec_multiplier(s) <= u64::MAX {
        Some((spec_digits_val(prefix) * spec_multiplier(s)) as u64)
    } else {
        None
    }
}

/// A digit string's value never shrinks as digits are appended.
proof fn lemma_digits_val_bounds(s: Seq<char>, i: int)
    requires
        spec_all_digits(s),
        0 <= i <= s.len(),
    ensures
        0 <= spec_digits_val(s.take(i)) <= spec_digits_val(s),
    decreases s.len() - i,
{
    lemma_digits_val_nonneg(s.take(i));
    if i == s.len() {
        assert(s.take(i) =~= s);
    } else {
        lemma_digits_val_bounds(s, i + 1);
        assert(s.take(i + 1).drop_last() =~= s.take(i));
        lemma_digits_val_nonneg(s.take(i + 1));
        assert(spec_digits_val(s.take(i)) <= spec_digits_val(s.take(i)) * 10 + (s[i] as u32 - 48))
            by (nonlinear_arith)
            requires
                spec_digits_val(s.take(i)) >= 0,
                48 <= s[i] as u32,
        ;
    }
}

proof fn lemma_digits_val_nonneg(s: Seq<char>)
    requires
        spec_all_digits(s),
    ensures
        spec_digits_val(s) >= 0,
    decreases s.len(),
{
    if s.len() > 0 {
        assert(spec_all_digits(s.drop_last()));
        lemma_digits_val_nonneg(s.drop_last());
        assert(spec_digits_val(s.drop_last()) * 10 >= 0) by (nonlinear_arith)
            requires
                spec_digits_val(s.drop_last()) >= 0,
        ;
    }
}

/// If everything from position `k` on is a letter and position `k - 1`
/// is not, trimming trailing letters keeps exactly the first `k`
/// characters.
proof fn lemma_trim_alpha_take(s: Seq<char>, k: int)
    requires
        0 <= k <= s.len(),
        forall|i: int| k <= i < s.len() ==> spec_is_alpha(#[trigger] s[i]),
        k == 0 || !spec_is_alpha(s[k - 1]),
    ensures
        spec_trim_alpha(s) == s.take(k),
    decreases s.len(),
{
    if k == s.len() {
        if s.len() > 0 {
            assert(!spec_is_alpha(s.last()));
        }
        assert(s.take(k) =~= s);
    } else {
        assert(spec_is_alpha(s.last()));
        lemma_trim_alpha_take(s.drop_last(), k);
        assert(s.drop_last().take(k) =~= s.take(k));
    }
}

fn is_alpha(c: char) -> (r: bool)
    ensures
        r == spec_is_alpha(c),
{
    let u = c as u32;
    (97 <= u && u <= 122) || (65 <= u && u <= 90)
}

/// Parses a human-readable size such as "20k", "10M" or "100000" into a
/// byte count; see `spec_humansize` for exactly which strings are
/// accepted and what they denote.
#[verifier::loop_isolation(false)]
pub fn humansize_to_integer(size_str: &String) -> (r: Result<u64, String>)
    ensures
        spec_humansize(size_str@) matches Some(v) ==> r == Ok::<u64, String>(v),
        spec_humansize(size_str@) is None ==> r is Err,
{
    let st = size_str.as_str();
    let n = st.unicode_len();

    let mut k: usize = n;
    while k > 0 && is_alpha(st.get_char(k - 1))
        invariant
            k <= n,
            n == st@.len(),
            forall|i: int| k <= i < n ==> spec_is_alpha(#[trigger] st@[i]),
        decreases k,
    {
        k = k - 1;
    }
    proof {
        lemma_trim_alpha_take(st@, k as int);
    }
    if k == 0 {
        return Err(String::from_str("no digits in size string"));
    }

    let mut value: u64 = 0;
    let mut i: usize = 0;
    while i < k
        invariant
            0 < k <= n,
            i <= k,
            n == st@.len(),
            spec_trim_alpha(st@) == st@.take(k as int),
            forall|j: int| 0 <= j < i ==> spec_is_digit(#[trigger] st@[j]),
            value == spec_digits_val(st@.take(k as int).take(i as int)),
        decreases k - i,
    {
        let c = st.get_char(i);
        let u = c as u32;
        if !(48 <= u && u <= 57) {
            proof {
                assert(!spec_is_digit(st@[i as int]));
                assert(st@.take(k as int)[i as int] == st@[i as int]);
            }
            return Err(String::from_str("size string is not a number"));
        }
        let digit = (u - 48) as u64;
        let scaled = match value.checked_mul(10) {
            Some(s) => s,
            None => {
                proof {
                    lemma_overflow_means_none(st@, k as int, i as int, value as int, 10 * value);
                }
                return Err(String::from_str("size number is too large"));
            },
        };
        let next = match scaled.checked_add(digit) {
            Some(s) => s,
            None => {
                proof {
                    lemma_overflow_means_none(
                        st@,
                        k as int,
                        i as int,
                        value as int,
                        10 * value + digit,
                    );
                }
                return Err(String::from_str("size number is too large"));
            },
        };
        proof {
            assert(st@.take(k as int).take(i + 1 as int).drop_last() =~= st@.take(k as int).take(
                i as int,
            ));
            assert(st@.take(k as int).take(i + 1 as int).last() == st@[i as int]);
        }
        value = next;
        i = i + 1;
    }
    proof {
        assert(st@.take(k as int).take(k as int) =~= st@.take(k as int));
    }

    let multiplier: u64 = if n == 0 {
        1
    } else {
        let c = st.get_char(n - 1);
        if c == 'k' || c == 'K' {
            1024
        } else if c == 'm' || c == 'M' {
            1048576
        } else if c == 'g' || c == 'G' {
            1073741824
        } else {
            1
        }
    };

    match value.checked_mul(multiplier) {
        Some(total) => Ok(total),
        None => Err(String::from_str("size number is too large")),
    }
}

/// If the value of the digits seen so far already exceeds 64 bits, the
/// whole prefix does too, so no size is denoted.
proof fn lemma_overflow_means_none(s: Seq<char>, k: int, i: int, value: int, partial: int)
    requires
        0 < k <= s.len(),
        0 <= i < k,
        spec_trim_alpha(s) == s.take(k),
        forall|j: int| 0 <= j < i ==> spec_is_digit(#[trigger] s[j]),
        spec_is_digit(s[i]),
        value == spec_digits_val(s.take(k).take(i)),
        value * 10 <= partial <= value * 10 + (s[i] as u32 - 48),
        partial > u64::MAX,
    ensures
        spec_humansize(s) is None,
{
    let prefix = s.take(k);
    if spec_all_digits(prefix) {
        assert(prefix.take(i + 1).drop_last() =~= prefix.take(i));
        assert(prefix.take(i + 1).last() == s[i]);
        assert(spec_digits_val(prefix.take(i + 1)) == value * 10 + (s[i] as u32 - 48));
        lemma_digits_val_bounds(prefix, i + 1);
        assert(spec_digits_val(prefix) >= value * 10 + (s[i] as u32 - 48) >= partial);
        assert(spec_multiplier(s) >= 1);
        assert(spec_digits_val(prefix) * spec_multiplier(s) >= spec_digits_val(prefix) * 1) by (
        nonlinear_arith)
            requires
                spec_multiplier(s) >= 1,
                spec_digits_val(prefix) >= 0,
        ;
        lemma_digits_val_nonneg(prefix);
    }
}

} // verus!
