//! Syntactic and range validation of the 64-bit account identity: a decimal
//! string of exactly 17 digits, prefixed "7656119", whose numeric value lies
//! in a fixed closed range.

use vstd::prelude::*;
use vstd::string::StrSliceExecFns;
use crate::errors::IdentityFault;

verus! {

/// Least numeric value an identity may have.
pub const STEAM_ID_MIN: u64 = 76561197960265728;

/// Greatest numeric value an identity may have.
pub const STEAM_ID_MAX: u64 = 76561999999999999;

/// A decimal digit.
pub open spec fn is_digit_char(c: char) -> bool {
    ('0' as u32) <= (c as u32) && (c as u32) <= ('9' as u32)
}

/// Every character of the string is a decimal digit.
pub open spec fn all_digits(s: Seq<char>) -> bool {
    forall|i: int| 0 <= i < s.len() ==> is_digit_char(#[trigger] s[i])
}

/// The numeric value of one digit.
pub open spec fn digit_val(c: char) -> nat {
    ((c as u32) - ('0' as u32)) as nat
}

/// The numeric value of a digit string, most significant digit first.
pub open spec fn digits_value(s: Seq<char>) -> nat
    decreases s.len(),
{
    if s.len() == 0 {
        0
    } else {
        digits_value(s.drop_last()) * 10 + digit_val(s.last())
    }
}

/// Powers of ten.
pub open spec fn pow10(n: nat) -> nat
    decreases n,
{
    if n == 0 {
        1
    } else {
        10 * pow10((n - 1) as nat)
    }
}

/// A digit string's value is below ten to its length.
proof fn lemma_digits_value_bound(s: Seq<char>)
    requires
        all_digits(s),
    ensures
        digits_value(s) < pow10(s.len()),
    decreases s.len(),
{
    if s.len() > 0 {
        assert(all_digits(s.drop_last())) by {
            assert(forall|i: int| 0 <= i < s.len() - 1 ==> s.drop_last()[i] == s[i]);
        }
        lemma_digits_value_bound(s.drop_last());
        assert(is_digit_char(s[s.len() - 1]));
        assert(digit_val(s.last()) <= 9);
    }
}

/// The string is textually prefixed "7656119".
pub open spec fn has_steam_prefix(s: Seq<char>) -> bool {
    &&& s.len() >= 7
    &&& s[0] == '7'
    &&& s[1] == '6'
    &&& s[2] == '5'
    &&& s[3] == '6'
    &&& s[4] == '1'
    &&& s[5] == '1'
    &&& s[6] == '9'
}

/// A valid identity: exactly 17 decimal digits, the fixed prefix, and a
/// numeric value within the closed range.
pub open spec fn valid_steam_id(s: Seq<char>) -> bool {
    &&& s.len() == 17
    &&& all_digits(s)
    &&& has_steam_prefix(s)
    &&& STEAM_ID_MIN <= digits_value(s)
    &&& digits_value(s) <= STEAM_ID_MAX
}

/// The validator's outcome on a string: the first failed check's fault, in
/// check order, or success.
pub open spec fn spec_validate(s: Seq<char>) -> Result<(), IdentityFault> {
    if s.len() == 0 {
        Err(IdentityFault::Empty)
    } else if s.len() != 17 {
        Err(IdentityFault::WrongLength)
    } else if !all_digits(s) {
        Err(IdentityFault::NonNumeric)
    } else if !has_steam_prefix(s) {
        Err(IdentityFault::BadPrefix)
    } else if digits_value(s) < STEAM_ID_MIN {
        Err(IdentityFault::TooSmall)
    } else if digits_value(s) > STEAM_ID_MAX {
        Err(IdentityFault::TooLarge)
    } else {
        Ok(())
    }
}

/// Check an identity string, short-circuiting on the first failed check:
/// non-empty, length 17, all decimal digits, the "7656119" prefix, then the
/// lower and upper numeric bounds. Each failure names its reason.
pub fn validate_steam_id(id: &str) -> (r: Result<(), IdentityFault>)
    ensures
        r == spec_validate(id@),
        r is Ok <==> valid_steam_id(id@),
        r == Err::<(), IdentityFault>(IdentityFault::Empty) <==> id@.len() == 0,
        r == Err::<(), IdentityFault>(IdentityFault::WrongLength) <==> (id@.len() != 0 && id@.len() != 17),
        r == Err::<(), IdentityFault>(IdentityFault::NonNumeric) <==> (id@.len() == 17 && !all_digits(id@)),
        r == Err::<(), IdentityFault>(IdentityFault::BadPrefix) <==> {
            &&& id@.len() == 17
            &&& all_digits(id@)
            &&& !has_steam_prefix(id@)
        },
        r == Err::<(), IdentityFault>(IdentityFault::TooSmall) <==> {
            &&& id@.len() == 17
            &&& all_digits(id@)
            &&& has_steam_prefix(id@)
            &&& digits_value(id@) < STEAM_ID_MIN
        },
        r == Err::<(), IdentityFault>(IdentityFault::TooLarge) <==> {
            &&& id@.len() == 17
            &&& all_digits(id@)
            &&& has_steam_prefix(id@)
            &&& digits_value(id@) > STEAM_ID_MAX
        },
{
    let n = id.unicode_len();
    if n == 0 {
        return Err(IdentityFault::Empty);
    }
    if n != 17 {
        return Err(IdentityFault::WrongLength);
    }
    let mut i: usize = 0;
    while i < 17
        invariant
            id@.len() == 17,
            i <= 17,
            forall|j: int| 0 <= j < i ==> is_digit_char(#[trigger] id@[j]),
        decreases 17 - i,
    {
        let c = id.get_char(i);
        if (c as u32) < ('0' as u32) || (c as u32) > ('9' as u32) {
            return Err(IdentityFault::NonNumeric);
        }
        i = i + 1;
    }
    assert(all_digits(id@));
    let mut value: u64 = 0;
    let mut k: usize = 0;
    while k < 17
        invariant
            id@.len() == 17,
            all_digits(id@),
            k <= 17,
            value == digits_value(id@.take(k as int)),
            value < pow10(k as nat),
        decreases 17 - k,
    {
        let c = id.get_char(k);
        proof {
            lemma_digits_value_bound(id@.take(k as int));
            assert(pow10(k as nat) <= pow10(16)) by {
                lemma_pow10_increases(k as nat, 16);
            }
            assert(pow10(16) == 10_000_000_000_000_000) by {
                reveal_with_fuel(pow10, 17);
            }
            assert(id@.take(k as int + 1).drop_last() =~= id@.take(k as int));
            assert(id@.take(k as int + 1).last() == id@[k as int]);
        }
        value = value * 10 + ((c as u32) as u64 - ('0' as u32) as u64);
        k = k + 1;
    }
    proof {
        assert(id@.take(17) =~= id@);
    }
    if !(id.get_char(0) == '7' && id.get_char(1) == '6' && id.get_char(2) == '5'
        && id.get_char(3) == '6' && id.get_char(4) == '1' && id.get_char(5) == '1'
        && id.get_char(6) == '9')
    {
        return Err(IdentityFault::BadPrefix);
    }
    if value < STEAM_ID_MIN {
        return Err(IdentityFault::TooSmall);
    }
    if value > STEAM_ID_MAX {
        return Err(IdentityFault::TooLarge);
    }
    Ok(())
}

/// Powers of ten do not decrease.
proof fn lemma_pow10_increases(a: nat, b: nat)
    requires
        a <= b,
    ensures
        pow10(a) <= pow10(b),
    decreases b,
{
    if a < b {
        lemma_pow10_increases(a, (b - 1) as nat);
        assert(pow10(b) == 10 * pow10((b - 1) as nat));
    }
}

} // verus!
