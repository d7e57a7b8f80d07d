use vstd::prelude::*;

use vstd::string::StrSliceExecFns;

verus! {

/// Whether `c` is an ASCII decimal digit.
pub open spec fn is_digit(c: char) -> bool {
    '0' <= c && c <= '9'
}

/// The value of a string of decimal digits.
pub open spec fn digits_value(s: Seq<char>) -> nat
    decreases s.len(),
{
    if s.len() == 0 {
        0
    } else {
        digits_value(s.drop_last()) * 10 + ((s.last() as u32) - 48) as nat
    }
}

/// The digits of an unsigned decimal literal: what follows an optional `+`.
pub open spec fn unsigned_digits(s: Seq<char>) -> Seq<char> {
    if s.len() > 0 && s[0] == '+' {
        s.drop_first()
    } else {
        s
    }
}

/// Whether `s` is the decimal form of a `u64`: an optional `+`, then one or
/// more digits, whose value fits.
pub open spec fn parses_as_u64(s: Seq<char>) -> bool {
    let d = unsigned_digits(s);
    &&& d.len() > 0
    &&& forall|i: int| 0 <= i < d.len() ==> is_digit(#[trigger] d[i])
    &&& digits_value(d) <= u64::MAX
}

/// The `u64` that `s` spells.
pub open spec fn parsed_u64(s: Seq<char>) -> u64 {
    digits_value(unsigned_digits(s)) as u64
}

proof fn lemma_digits_prefix_le(s: Seq<char>, k: int)
    requires
        0 <= k <= s.len(),
        forall|i: int| 0 <= i < s.len() ==> is_digit(#[trigger] s[i]),
    ensures
        digits_value(s.subrange(0, k)) <= digits_value(s),
    decreases s.len() - k,
{
    if k < s.len() {
        lemma_digits_prefix_le(s, k + 1);
        let p = s.subrange(0, k + 1);
        assert(p.drop_last() =~= s.subrange(0, k));
        assert(is_digit(p.last()));
    } else {
        assert(s.subrange(0, k) =~= s);
    }
}

/// Reads the decimal digits of `s` from index `start` on, if they are all
/// digits and their value fits.
fn read_digits(s: &str, start: usize) -> (r: Option<u64>)
    requires
        start <= s@.len(),
    ensures
        ({
            let d = s@.subrange(start as int, s@.len() as int);
            r == if d.len() > 0 && (forall|i: int| 0 <= i < d.len() ==> is_digit(#[trigger] d[i]))
                && digits_value(d) <= u64::MAX {
                Some(digits_value(d) as u64)
            } else {
                None::<u64>
            }
        }),
{
    let n = s.unicode_len();
    let ghost d = s@.subrange(start as int, n as int);
    if start == n {
        return None;
    }
    let mut value: u64 = 0;
    let mut i: usize = start;
    while i < n
        invariant
            n == s@.len(),
            start <= i <= n,
            d == s@.subrange(start as int, n as int),
            forall|j: int| 0 <= j < i - start ==> is_digit(#[trigger] d[j]),
            value == digits_value(d.subrange(0, i - start)),
        decreases n - i,
    {
        let c = s.get_char(i);
        let ghost k = i - start;
        proof {
            assert(c == d[k]);
            assert(d.subrange(0, k + 1).drop_last() =~= d.subrange(0, k));
        }
        if !('0' <= c && c <= '9') {
            return None;
        }
        let digit = (c as u32 - 48) as u64;
        if value > (u64::MAX - digit) / 10 {
            proof {
                assert(value * 10 + digit > u64::MAX) by (nonlinear_arith)
                    requires
                        value > (u64::MAX - digit) / 10,
                        digit <= 9,
                ;
                assert forall|j: int| 0 <= j < k + 1 implies is_digit(#[trigger] d.subrange(0, k + 1)[j]) by {
                    assert(d.subrange(0, k + 1)[j] == d[j]);
                }
                if forall|j: int| 0 <= j < d.len() ==> is_digit(#[trigger] d[j]) {
                    lemma_digits_prefix_le(d, k + 1);
                }
            }
            return None;
        }
        proof {
            assert(value * 10 + digit <= u64::MAX) by (nonlinear_arith)
                requires
                    value <= (u64::MAX - digit) / 10,
                    digit <= 9,
            ;
        }
        value = value * 10 + digit;
        i = i + 1;
    }
    proof {
        assert(d.subrange(0, n - start) =~= d);
    }
    Some(value)
}

/// The `u64` that `s` spells in decimal (after an optional `+`), if it spells one.
pub fn parse_u64(s: &str) -> (r: Option<u64>)
    ensures
        r == if parses_as_u64(s@) {
            Some(parsed_u64(s@))
        } else {
            None::<u64>
        },
{
    let n = s.unicode_len();
    if n > 0 && s.get_char(0) == '+' {
        proof {
            assert(unsigned_digits(s@) =~= s@.subrange(1, n as int));
        }
        read_digits(s, 1)
    } else {
        proof {
            assert(unsigned_digits(s@) =~= s@.subrange(0, n as int));
        }
        read_digits(s, 0)
    }
}

/// Anything that can stand for a Discord ID.
pub trait SnowflakeLike {
    /// Whether this value names an ID.
    spec fn is_snowflake(&self) -> bool;

    /// The ID this value names.
    spec fn snowflake(&self) -> u64;

    /// The ID this value names.
    fn as_snowflake(&self) -> (r: u64)
        requires
            self.is_snowflake(),
        ensures
            r == self.snowflake(),
    ;

    /// The ID this value names, or `None` where it names none.
    fn to_snowflake(&self) -> (r: Option<u64>)
        ensures
            r == if self.is_snowflake() {
                Some(self.snowflake())
            } else {
                None::<u64>
            },
    ;
}

impl SnowflakeLike for u64 {
    open spec fn is_snowflake(&self) -> bool {
        true
    }

    open spec fn snowflake(&self) -> u64 {
        *self
    }

    fn as_snowflake(&self) -> (r: u64) {
        *self
    }

    fn to_snowflake(&self) -> (r: Option<u64>) {
        if true {
            Some(*self as u64)
        } else {
            None
        }
    }
}

impl SnowflakeLike for usize {
    open spec fn is_snowflake(&self) -> bool {
        *self <= u64::MAX
    }

    open spec fn snowflake(&self) -> u64 {
        *self as u64
    }

    fn as_snowflake(&self) -> (r: u64) {
        *self as u64
    }

    fn to_snowflake(&self) -> (r: Option<u64>) {
        if *self as u128 <= u64::MAX as u128 {
            Some(*self as u64)
        } else {
            None
        }
    }
}

impl SnowflakeLike for isize {
    open spec fn is_snowflake(&self) -> bool {
        *self >= 0
    }

    open spec fn snowflake(&self) -> u64 {
        *self as u64
    }

    fn as_snowflake(&self) -> (r: u64) {
        *self as u64
    }

    fn to_snowflake(&self) -> (r: Option<u64>) {
        if *self >= 0 {
            Some(*self as u64)
        } else {
            None
        }
    }
}

impl SnowflakeLike for u128 {
    open spec fn is_snowflake(&self) -> bool {
        *self <= u64::MAX
    }

    open spec fn snowflake(&self) -> u64 {
        *self as u64
    }

    fn as_snowflake(&self) -> (r: u64) {
        *self as u64
    }

    fn to_snowflake(&self) -> (r: Option<u64>) {
        if *self <= u64::MAX as u128 {
            Some(*self as u64)
        } else {
            None
        }
    }
}

impl SnowflakeLike for i128 {
    open spec fn is_snowflake(&self) -> bool {
        0 <= *self <= u64::MAX
    }

    open spec fn snowflake(&self) -> u64 {
        *self as u64
    }

    fn as_snowflake(&self) -> (r: u64) {
        *self as u64
    }

    fn to_snowflake(&self) -> (r: Option<u64>) {
        if 0 <= *self && *self <= u64::MAX as i128 {
            Some(*self as u64)
        } else {
            None
        }
    }
}

impl SnowflakeLike for str {
    open spec fn is_snowflake(&self) -> bool {
        parses_as_u64(self@)
    }

    open spec fn snowflake(&self) -> u64 {
        parsed_u64(self@)
    }

    fn as_snowflake(&self) -> (r: u64) {
        parse_u64(self).unwrap()
    }

    fn to_snowflake(&self) -> (r: Option<u64>) {
        parse_u64(self)
    }
}

impl SnowflakeLike for String {
    open spec fn is_snowflake(&self) -> bool {
        parses_as_u64(self@)
    }

    open spec fn snowflake(&self) -> u64 {
        parsed_u64(self@)
    }

    fn as_snowflake(&self) -> (r: u64) {
        parse_u64(self.as_str()).unwrap()
    }

    fn to_snowflake(&self) -> (r: Option<u64>) {
        parse_u64(self.as_str())
    }
}

} // verus!
