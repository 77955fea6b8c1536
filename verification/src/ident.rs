use vstd::prelude::*;
use vstd::string::StrSliceExecFns;

use crate::errors::Error;

verus! {

/// A decimal digit.
pub open spec fn is_digit(c: char) -> bool {
    '0' as u32 <= c as u32 && c as u32 <= '9' as u32
}

/// The numeric value of a decimal digit.
pub open spec fn digit_value(c: char) -> int {
    c as u32 - '0' as u32
}

/// Every character is a decimal digit.
pub open spec fn all_digits(s: Seq<char>) -> bool {
    forall|i: int| 0 <= i < s.len() ==> is_digit(#[trigger] s[i])
}

/// The number a digit string denotes, most significant digit first.
pub open spec fn digits_value(s: Seq<char>) -> int
    decreases s.len(),
{
    if s.len() == 0 {
        0
    } else {
        10 * digits_value(s.drop_last()) + digit_value(s.last())
    }
}

/// A well-formed identifier string: non-empty, all decimal digits, and
/// denoting a number an `i64` can hold.
pub open spec fn valid_id(s: Seq<char>) -> bool {
    s.len() > 0 && all_digits(s) && digits_value(s) <= i64::MAX
}

/// A digit string denotes a non-negative number.
pub proof fn lemma_digits_value_nonneg(s: Seq<char>)
    requires
        all_digits(s),
    ensures
        digits_value(s) >= 0,
    decreases s.len(),
{
    if s.len() > 0 {
        assert forall|i: int| 0 <= i < s.drop_last().len() implies is_digit(
            #[trigger] s.drop_last()[i],
        ) by {
            assert(s.drop_last()[i] == s[i]);
        }
        lemma_digits_value_nonneg(s.drop_last());
        assert(is_digit(s[s.len() - 1]));
    }
}

/// Extending a digit string never shrinks the number it denotes.
pub proof fn lemma_digits_value_prefix_le(s: Seq<char>, n: int)
    requires
        all_digits(s),
        0 <= n <= s.len(),
    ensures
        digits_value(s.take(n)) <= digits_value(s),
    decreases s.len() - n,
{
    if n == s.len() {
        assert(s.take(n) =~= s);
    } else {
        lemma_digits_value_prefix_le(s, n + 1);
        assert(s.take(n + 1).drop_last() =~= s.take(n));
        assert forall|i: int| 0 <= i < s.take(n).len() implies is_digit(
            #[trigger] s.take(n)[i],
        ) by {
            assert(s.take(n)[i] == s[i]);
        }
        lemma_digits_value_nonneg(s.take(n));
        assert(is_digit(s[n]));
        assert(digits_value(s.take(n + 1)) == 10 * digits_value(s.take(n)) + digit_value(s[n]));
    }
}

/// Parses a path identifier: one or more decimal digits denoting a number an
/// `i64` can hold. Anything else — empty, signed, non-numeric, or too large —
/// is malformed input.
pub fn parse_id(s: &str) -> (r: Result<i64, Error>)
    ensures
        valid_id(s@) ==> r == Ok::<i64, Error>(digits_value(s@) as i64),
        !valid_id(s@) ==> r == Err::<i64, Error>(Error::BadRequest),
{
    let n = s.unicode_len();
    if n == 0 {
        return Err(Error::BadRequest);
    }
    let mut acc: i64 = 0;
    let mut k: usize = 0;
    while k < n
        invariant
            n == s@.len(),
            k <= n,
            0 <= acc,
            forall|i: int| 0 <= i < k ==> is_digit(#[trigger] s@[i]),
            acc as int == digits_value(s@.take(k as int)),
        decreases n - k,
    {
        let c = s.get_char(k);
        let cu = c as u32;
        if cu < '0' as u32 || cu > '9' as u32 {
            proof {
                assert(!is_digit(s@[k as int]));
            }
            return Err(Error::BadRequest);
        }
        let d: i64 = (cu - '0' as u32) as i64;
        proof {
            assert(s@.take(k as int + 1).drop_last() =~= s@.take(k as int));
            assert(s@.take(k as int + 1).last() == s@[k as int]);
        }
        if acc > 922337203685477580 || (acc == 922337203685477580 && d > 7) {
            proof {
                let v = digits_value(s@.take(k as int + 1));
                assert(v == 10 * (acc as int) + d);
                assert(v > i64::MAX);
                if all_digits(s@) {
                    lemma_digits_value_prefix_le(s@, k as int + 1);
                }
            }
            return Err(Error::BadRequest);
        }
        acc = acc * 10 + d;
        k = k + 1;
    }
    proof {
        assert(s@.take(n as int) =~= s@);
    }
    Ok(acc)
}

} // verus!
