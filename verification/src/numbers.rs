//! Decimal numbers written in ASCII.

use vstd::prelude::*;

verus! {

pub open spec fn is_digit(b: u8) -> bool {
    48 <= b <= 57
}

pub open spec fn all_digits(s: Seq<u8>) -> bool {
    forall|i: int| 0 <= i < s.len() ==> is_digit(#[trigger] s[i])
}

/// The value of a run of digits.
pub open spec fn decimal(s: Seq<u8>) -> nat
    decreases s.len(),
{
    if s.len() == 0 {
        0
    } else {
        (decimal(s.drop_last()) * 10 + (s.last() - 48)) as nat
    }
}

/// The number that a text stands for: at least one digit, after an optional plus sign.
pub open spec fn unsigned(s: Seq<u8>) -> Option<nat> {
    let digits = if s.len() > 0 && s[0] == 43 {
        s.skip(1)
    } else {
        s
    };
    if digits.len() > 0 && all_digits(digits) {
        Some(decimal(digits))
    } else {
        None
    }
}

/// The number that a text stands for: as `unsigned`, or the negative of a run of digits after a
/// minus sign.
pub open spec fn signed(s: Seq<u8>) -> Option<int> {
    if s.len() > 0 && s[0] == 45 {
        let digits = s.skip(1);
        if digits.len() > 0 && all_digits(digits) {
            Some(-(decimal(digits) as int))
        } else {
            None
        }
    } else {
        match unsigned(s) {
            Some(n) => Some(n as int),
            None => None,
        }
    }
}

/// `Some` of a number that is no larger than `limit`, nothing otherwise.
pub open spec fn at_most(n: Option<nat>, limit: nat) -> Option<nat> {
    match n {
        Some(n) if n <= limit => Some(n),
        _ => None,
    }
}

proof fn lemma_decimal_grows(s: Seq<u8>, n: int)
    requires
        all_digits(s),
        0 <= n <= s.len(),
    ensures
        decimal(s.take(n)) <= decimal(s),
    decreases s.len(),
{
    if n == s.len() {
        assert(s.take(n) =~= s);
    } else {
        assert(is_digit(s[s.len() - 1]));
        assert forall|i: int| 0 <= i < s.drop_last().len() implies is_digit(
            #[trigger] s.drop_last()[i],
        ) by {
            assert(is_digit(s[i]));
        }
        lemma_decimal_grows(s.drop_last(), n);
        assert(s.drop_last().take(n) =~= s.take(n));
    }
}

/// The value of the digits of `s` from `from` on, when there is at least one, all are digits, and
/// the value fits.
fn parse_digits(s: &[u8], from: usize) -> (r: Option<u64>)
    requires
        from <= s@.len(),
    ensures
        r matches Some(n) ==> from < s@.len() && all_digits(s@.skip(from as int)) && n == decimal(
            s@.skip(from as int),
        ),
        r is None ==> from == s@.len() || !all_digits(s@.skip(from as int)) || decimal(
            s@.skip(from as int),
        ) > u64::MAX,
{
    if from == s.len() {
        return None;
    }
    let ghost digits = s@.skip(from as int);
    let mut n: u64 = 0;
    let mut i: usize = from;
    while i < s.len()
        invariant
            from <= i <= s@.len(),
            digits == s@.skip(from as int),
            all_digits(digits.take(i - from)),
            n == decimal(digits.take(i - from)),
        decreases s@.len() - i,
    {
        let b: u8 = s[i];
        proof {
            assert(digits[i - from] == b);
        }
        if b < 48 || b > 57 {
            proof {
                assert(!is_digit(digits[i - from]));
            }
            return None;
        }
        let d: u64 = (b - 48) as u64;
        proof {
            let more = digits.take(i - from + 1);
            assert(more.drop_last() =~= digits.take(i - from));
            assert(more.last() == b);
            assert forall|j: int| 0 <= j < more.len() implies is_digit(#[trigger] more[j]) by {
                if j < i - from {
                    assert(more[j] == digits.take(i - from)[j]);
                }
            }
            assert(decimal(more) == n * 10 + d);
            if all_digits(digits) {
                lemma_decimal_grows(digits, i - from + 1);
            }
        }
        if n > (u64::MAX - d) / 10 {
            return None;
        }
        n = n * 10 + d;
        i = i + 1;
    }
    proof {
        assert(digits.take(i - from) =~= digits);
    }
    Some(n)
}

/// Reads an unsigned number of at most 64 bits.
pub fn parse_u64(s: &[u8]) -> (r: Option<u64>)
    ensures
        r is Some <==> at_most(unsigned(s@), u64::MAX as nat) is Some,
        r matches Some(n) ==> unsigned(s@) == Some(n as nat),
{
    if s.len() > 0 && s[0] == 43 {
        parse_digits(s, 1)
    } else {
        proof {
            assert(s@.skip(0) =~= s@);
        }
        parse_digits(s, 0)
    }
}

/// Reads a signed number of at most 32 bits.
pub fn parse_i32(s: &[u8]) -> (r: Option<i32>)
    ensures
        r is Some <==> signed(s@) is Some && i32::MIN <= signed(s@)->0 <= i32::MAX,
        r matches Some(n) ==> signed(s@) == Some(n as int),
{
    if s.len() > 0 && s[0] == 45 {
        match parse_digits(s, 1) {
            Some(n) => if n <= 2147483648 {
                Some((-(n as i64)) as i32)
            } else {
                None
            },
            None => None,
        }
    } else {
        match parse_u64(s) {
            Some(n) => if n <= 2147483647 {
                Some(n as i32)
            } else {
                None
            },
            None => None,
        }
    }
}

/// Numbers are written in decimal: each further digit makes ten times the number and adds its own
/// value, a plus sign changes nothing, and a minus sign, which only signed numbers take, changes
/// the sign.
pub proof fn numbers_are_positional(s: Seq<u8>, digit: u8)
    requires
        s.len() > 0,
        forall|i: int| 0 <= i < s.len() ==> 48 <= #[trigger] s[i] <= 57,
        48 <= digit <= 57,
    ensures
        unsigned(seq![digit]) == Some((digit - 48) as nat),
        unsigned(s) is Some,
        unsigned(s.push(digit)) == Some((unsigned(s)->0 * 10 + (digit - 48)) as nat),
        unsigned(seq![43u8] + s) == unsigned(s),
        unsigned(seq![45u8] + s) is None,
        signed(s) == Some(unsigned(s)->0 as int),
        signed(seq![43u8] + s) == Some(unsigned(s)->0 as int),
        signed(seq![45u8] + s) == Some(-(unsigned(s)->0 as int)),
        unsigned(s) == Some(decimal(s)),
{
    let one = seq![digit];
    assert(all_digits(one));
    assert(one.drop_last() =~= Seq::<u8>::empty());
    assert(decimal(one.drop_last()) == 0);
    assert(one.last() == digit);
    let more = s.push(digit);
    assert(more.drop_last() =~= s);
    assert(s[0] != 43 && s[0] != 45);
    assert(more[0] == s[0]);
    assert(all_digits(s));
    assert(all_digits(more));
    assert((seq![43u8] + s).skip(1) =~= s);
    assert((seq![45u8] + s).skip(1) =~= s);
    assert(!is_digit((seq![45u8] + s)[0]));
}

/// Nothing but digits behind a sign is a number.
pub proof fn other_texts_are_no_numbers(s: Seq<u8>, i: int)
    requires
        0 <= i < s.len(),
        s[i] < 48 || s[i] > 57,
    ensures
        i > 0 ==> unsigned(s) is None && signed(s) is None,
        i == 0 && s[0] != 43 ==> unsigned(s) is None,
        i == 0 && s[0] != 43 && s[0] != 45 ==> signed(s) is None,
        s.len() == 1 ==> unsigned(s) is None && signed(s) is None,
        unsigned(Seq::empty()) is None,
        signed(Seq::empty()) is None,
{
    assert(!is_digit(s[i]));
    if i > 0 {
        assert(s.skip(1)[i - 1] == s[i]);
        assert(!is_digit(s.skip(1)[i - 1]));
    }
}

/// A limit takes the numbers above it, and no other.
pub proof fn limit_takes_only_what_is_above(n: nat, limit: nat)
    ensures
        n <= limit ==> at_most(Some(n), limit) == Some(n),
        n > limit ==> at_most(Some(n), limit) is None,
        at_most(None, limit) is None,
{
}

} // verus!
