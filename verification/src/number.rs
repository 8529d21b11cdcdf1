//! Integers in decimal notation.

use vstd::prelude::*;
use vstd::string::*;
use crate::text::chars_of;

verus! {

/// The digit for a value below ten.
pub open spec fn digit(d: int) -> char {
    (48 + d) as char
}

/// The shortest decimal notation of a natural number.
pub open spec fn decimal(n: nat) -> Seq<char>
    decreases n,
{
    if n < 10 {
        seq![digit(n as int)]
    } else {
        decimal(n / 10).push(digit((n % 10) as int))
    }
}

/// The shortest decimal notation of an integer.
pub open spec fn signed_decimal(i: int) -> Seq<char> {
    if i < 0 {
        seq!['-'] + decimal((-i) as nat)
    } else {
        decimal(i as nat)
    }
}

fn digit_text(d: u64) -> (r: &'static str)
    requires
        d < 10,
    ensures
        r@ == seq![digit(d as int)],
{
    proof {
        reveal_strlit("0");
        reveal_strlit("1");
        reveal_strlit("2");
        reveal_strlit("3");
        reveal_strlit("4");
        reveal_strlit("5");
        reveal_strlit("6");
        reveal_strlit("7");
        reveal_strlit("8");
        reveal_strlit("9");
    }
    let r: &'static str = if d == 0 {
        "0"
    } else if d == 1 {
        "1"
    } else if d == 2 {
        "2"
    } else if d == 3 {
        "3"
    } else if d == 4 {
        "4"
    } else if d == 5 {
        "5"
    } else if d == 6 {
        "6"
    } else if d == 7 {
        "7"
    } else if d == 8 {
        "8"
    } else {
        "9"
    };
    assert(r@ =~= seq![digit(d as int)]);
    r
}

/// Writes a natural number in decimal.
pub fn unsigned_text(n: u64) -> (r: String)
    ensures
        r@ == decimal(n as nat),
    decreases n,
{
    if n < 10 {
        digit_text(n).to_string()
    } else {
        let mut r = unsigned_text(n / 10);
        r.append(digit_text(n % 10));
        assert(r@ =~= decimal((n / 10) as nat).push(digit((n % 10) as int)));
        r
    }
}

/// Writes an integer in decimal.
pub fn signed_text(i: i64) -> (r: String)
    ensures
        r@ == signed_decimal(i as int),
{
    if i < 0 {
        let m: u64 = (-(i as i128)) as u64;
        let mut r: String = "-".to_string();
        r.append(unsigned_text(m).as_str());
        proof {
            reveal_strlit("-");
            assert(r@ =~= seq!['-'] + decimal((-i) as nat));
        }
        r
    } else {
        unsigned_text(i as u64)
    }
}

/// Whether `c` is one of the ten decimal digits.
pub open spec fn is_digit(c: char) -> bool {
    48 <= c as u32 <= 57
}

/// Whether a text is a run of decimal digits, at least one.
pub open spec fn is_digits(s: Seq<char>) -> bool {
    &&& s.len() > 0
    &&& forall|i: int| 0 <= i < s.len() ==> is_digit(#[trigger] s[i])
}

/// The number that a run of digits denotes.
pub open spec fn digits_value(s: Seq<char>) -> nat
    decreases s.len(),
{
    if s.len() == 0 {
        0
    } else {
        digits_value(s.drop_last()) * 10 + (s.last() as u32 - 48) as nat
    }
}

/// The natural number that a text denotes: digits, with a plus sign before them or not.
pub open spec fn unsigned_value(s: Seq<char>) -> Option<nat> {
    let body = if s.len() > 0 && s[0] == '+' {
        s.skip(1)
    } else {
        s
    };
    if is_digits(body) {
        Some(digits_value(body))
    } else {
        None
    }
}

/// The integer that a text denotes: digits, with a sign before them or not.
pub open spec fn signed_value(s: Seq<char>) -> Option<int> {
    if s.len() > 0 && s[0] == '-' {
        if is_digits(s.skip(1)) {
            Some(-digits_value(s.skip(1)))
        } else {
            None
        }
    } else {
        match unsigned_value(s) {
            Some(n) => Some(n as int),
            None => None,
        }
    }
}

/// What a text denotes as a number of at most `max`.
pub open spec fn bounded_value(s: Seq<char>, max: nat) -> Option<nat> {
    match unsigned_value(s) {
        Some(n) => if n <= max {
            Some(n)
        } else {
            None
        },
        None => None,
    }
}

/// What a text denotes as a 64-bit integer.
pub open spec fn i64_value(s: Seq<char>) -> Option<int> {
    match signed_value(s) {
        Some(n) => if i64::MIN <= n <= i64::MAX {
            Some(n)
        } else {
            None
        },
        None => None,
    }
}

/// What the digits from `from` on denote.
enum Digits {
    /// Something else stands there, or nothing.
    Malformed,
    /// More than 64 bits hold.
    TooLarge,
    Value(u64),
}

fn read_digits(v: &Vec<char>, from: usize) -> (r: Digits)
    requires
        from <= v@.len(),
    ensures
        match r {
            Digits::Malformed => !is_digits(v@.skip(from as int)),
            Digits::TooLarge => is_digits(v@.skip(from as int)) && digits_value(v@.skip(from as int))
                > u64::MAX,
            Digits::Value(n) => is_digits(v@.skip(from as int)) && digits_value(v@.skip(from as int))
                == n,
        },
{
    let ghost body = v@.skip(from as int);
    if from == v.len() {
        return Digits::Malformed;
    }
    let mut value: u64 = 0;
    let mut large: bool = false;
    let mut i: usize = from;
    assert(body.take(0) =~= Seq::<char>::empty());
    while i < v.len()
        invariant
            from <= i <= v@.len(),
            body == v@.skip(from as int),
            forall|j: int| 0 <= j < i - from ==> is_digit(#[trigger] body[j]),
            large ==> digits_value(body.take(i - from)) > u64::MAX,
            !large ==> digits_value(body.take(i - from)) == value,
        decreases v@.len() - i,
    {
        let c: char = v[i];
        assert(body[i - from] == c);
        if (c as u32) < 48 || (c as u32) > 57 {
            return Digits::Malformed;
        }
        let d: u64 = (c as u32 - 48) as u64;
        proof {
            let t = body.take(i - from + 1);
            assert(t.drop_last() =~= body.take(i - from));
            assert(t.last() == c);
        }
        if !large {
            if value > (u64::MAX - d) / 10 {
                large = true;
            } else {
                value = value * 10 + d;
            }
        }
        i += 1;
    }
    assert(body.take(body.len() as int) =~= body);
    if large {
        Digits::TooLarge
    } else {
        Digits::Value(value)
    }
}

fn read_unsigned(v: &Vec<char>) -> (r: Digits)
    ensures
        match r {
            Digits::Malformed => unsigned_value(v@) is None,
            Digits::TooLarge => unsigned_value(v@) matches Some(n) && n > u64::MAX,
            Digits::Value(n) => unsigned_value(v@) == Some(n as nat),
        },
{
    assert(v@.skip(0) =~= v@);
    if v.len() > 0 && v[0] == '+' {
        read_digits(v, 1)
    } else {
        read_digits(v, 0)
    }
}

/// Reads a number of at most `max`.
pub fn parse_bounded(s: &str, max: u64) -> (r: Option<u64>)
    ensures
        match r {
            Some(n) => bounded_value(s@, max as nat) == Some(n as nat),
            None => bounded_value(s@, max as nat) is None,
        },
{
    let v = chars_of(s);
    match read_unsigned(&v) {
        Digits::Value(n) => if n <= max {
            Some(n)
        } else {
            None
        },
        _ => None,
    }
}

/// Reads a 64-bit integer.
pub fn parse_i64(s: &str) -> (r: Option<i64>)
    ensures
        match r {
            Some(n) => i64_value(s@) == Some(n as int),
            None => i64_value(s@) is None,
        },
{
    let v = chars_of(s);
    if v.len() > 0 && v[0] == '-' {
        match read_digits(&v, 1) {
            Digits::Value(n) => if n <= 0x8000_0000_0000_0000 {
                Some((-(n as i128)) as i64)
            } else {
                None
            },
            _ => None,
        }
    } else {
        match read_unsigned(&v) {
            Digits::Value(n) => if n <= 0x7fff_ffff_ffff_ffff {
                Some(n as i64)
            } else {
                None
            },
            _ => None,
        }
    }
}

/// A decimal notation is a run of digits and denotes the number that it was made from.
pub proof fn lemma_decimal_value(n: nat)
    ensures
        is_digits(decimal(n)),
        digits_value(decimal(n)) == n,
    decreases n,
{
    if n < 10 {
        let s = seq![digit(n as int)];
        assert(s.drop_last() =~= Seq::<char>::empty());
        assert(digits_value(s.drop_last()) == 0);
    } else {
        lemma_decimal_value(n / 10);
        let s = decimal(n / 10);
        let d = digit((n % 10) as int);
        assert(s.push(d).drop_last() =~= s);
        assert forall|i: int| 0 <= i < s.push(d).len() implies is_digit(#[trigger] s.push(d)[i]) by {
            if i < s.len() {
                assert(s.push(d)[i] == s[i]);
            }
        }
    }
}

/// Reading back what was written gives the number that was written.
pub proof fn lemma_decimal_round_trip(i: int)
    ensures
        signed_value(signed_decimal(i)) == Some(i),
        i >= 0 ==> unsigned_value(decimal(i as nat)) == Some(i as nat),
{
    if i < 0 {
        lemma_decimal_value((-i) as nat);
        assert(signed_decimal(i).skip(1) =~= decimal((-i) as nat));
    } else {
        lemma_decimal_value(i as nat);
        let s = decimal(i as nat);
        assert(is_digit(s[0]));
    }
}

/// Different numbers have different notations.
pub proof fn lemma_decimal_injective(i: int, j: int)
    requires
        signed_decimal(i) == signed_decimal(j),
    ensures
        i == j,
{
    lemma_decimal_round_trip(i);
    lemma_decimal_round_trip(j);
}

} // verus!
