//! The pace of connection attempts: how often to try, and how long to wait
//! after each failure.
use vstd::arithmetic::power2::{
    lemma2_to64, lemma2_to64_rest, lemma_pow2_strictly_increases, lemma_pow2_unfold, pow2,
};
use vstd::prelude::*;
use vstd::string::*;

verus! {

/// The number of failed attempts that a client puts up with where nothing
/// else is asked for.
pub const DEFAULT_CONNECT_RETRIES: u32 = 10;

/// The count of failed attempts after one more. It stays at the largest
/// number that it can hold.
pub open spec fn next_backoff(count: u32) -> u32 {
    if count < u32::MAX {
        (count + 1) as u32
    } else {
        count
    }
}

/// The seconds to wait after the failed attempt number `count`: two to the
/// power of `count`, or the largest number of seconds that can be held where
/// the power is beyond it.
pub open spec fn backoff_delay(count: u32) -> u64 {
    if count < 64 {
        pow2(count as nat) as u64
    } else {
        u64::MAX
    }
}

/// The seconds to wait after the failed attempt number `count`.
pub fn delay_secs(count: u32) -> (secs: u64)
    ensures
        secs == backoff_delay(count),
{
    if count >= 64 {
        return u64::MAX;
    }
    let mut secs: u64 = 1;
    let mut done: u32 = 0;
    proof {
        lemma2_to64();
    }
    while done < count
        invariant
            done <= count < 64,
            secs == pow2(done as nat),
        decreases count - done,
    {
        proof {
            lemma_pow2_unfold((done + 1) as nat);
            lemma2_to64_rest();
            lemma_pow2_strictly_increases(done as nat, 63);
        }
        secs = secs * 2;
        done = done + 1;
    }
    secs
}

/// Whether `c` is a decimal digit.
pub open spec fn is_digit(c: char) -> bool {
    '0' <= c <= '9'
}

/// The value of the decimal digit `c`.
pub open spec fn digit_value(c: char) -> nat {
    (c as u32 - '0' as u32) as nat
}

/// Whether `s` consists of decimal digits.
pub open spec fn all_digits(s: Seq<char>) -> bool {
    forall|i: int| 0 <= i < s.len() ==> is_digit(#[trigger] s[i])
}

/// The number that the decimal digits `s` write.
pub open spec fn decimal_value(s: Seq<char>) -> nat
    decreases s.len(),
{
    if s.len() == 0 {
        0
    } else {
        decimal_value(s.drop_last()) * 10 + digit_value(s.last())
    }
}

/// The numeral `s` without the plus sign that may stand before it.
pub open spec fn unsigned_body(s: Seq<char>) -> Seq<char> {
    if s.len() > 0 && s[0] == '+' {
        s.drop_first()
    } else {
        s
    }
}

/// The number that `s` writes in decimal, where it is one that 32 bits hold:
/// one digit or more, with nothing around them but a plus sign before.
pub open spec fn parsed_u32(s: Seq<char>) -> Option<u32> {
    let body = unsigned_body(s);
    if body.len() > 0 && all_digits(body) && decimal_value(body) <= u32::MAX {
        Some(decimal_value(body) as u32)
    } else {
        None
    }
}

/// The limit on failed attempts that a setting asks for: the default where
/// there is no setting, none where the setting is no number.
pub open spec fn retry_limit_of(setting: Option<&str>) -> Option<u32> {
    match setting {
        Some(text) => parsed_u32(text@),
        None => Some(DEFAULT_CONNECT_RETRIES),
    }
}

proof fn lemma_decimal_value_grows(s: Seq<char>, k: int)
    requires
        0 <= k <= s.len(),
    ensures
        decimal_value(s.take(k)) <= decimal_value(s),
    decreases s.len() - k,
{
    if k < s.len() {
        lemma_decimal_value_grows(s, k + 1);
        assert(s.take(k + 1).drop_last() =~= s.take(k));
    } else {
        assert(s.take(k) =~= s);
    }
}

/// Reads a decimal numeral of 32 bits.
pub fn parse_u32(text: &str) -> (number: Option<u32>)
    ensures
        number == parsed_u32(text@),
{
    let len = text.unicode_len();
    if len == 0 {
        return None;
    }
    let start: usize = if text.get_char(0) == '+' {
        1
    } else {
        0
    };
    let ghost body = unsigned_body(text@);
    assert(body =~= text@.skip(start as int));
    if start == len {
        return None;
    }
    let mut value: u32 = 0;
    let mut i: usize = start;
    assert(body.take(0) =~= Seq::<char>::empty());
    while i < len
        invariant
            start <= i <= len,
            len == text@.len(),
            body == text@.skip(start as int),
            body == unsigned_body(text@),
            all_digits(body.take(i - start)),
            value == decimal_value(body.take(i - start)),
        decreases len - i,
    {
        let c = text.get_char(i);
        assert(body[i - start] == c);
        if c < '0' || c > '9' {
            assert(!is_digit(body[i - start]));
            return None;
        }
        let d: u32 = c as u32 - '0' as u32;
        assert(body.take(i - start + 1).drop_last() =~= body.take(i - start));
        assert(decimal_value(body.take(i - start + 1)) == value * 10 + d);
        if value > (u32::MAX - d) / 10 {
            proof {
                assert(value * 10 + d > u32::MAX);
                lemma_decimal_value_grows(body, i - start + 1);
            }
            return None;
        }
        value = value * 10 + d;
        i = i + 1;
    }
    assert(body.take(i - start) =~= body);
    Some(value)
}

/// The limit on failed connection attempts that `setting` asks for.
pub fn connect_retries(setting: Option<&str>) -> (limit: Option<u32>)
    ensures
        limit == retry_limit_of(setting),
{
    match setting {
        Some(text) => parse_u32(text),
        None => Some(DEFAULT_CONNECT_RETRIES),
    }
}

} // verus!
