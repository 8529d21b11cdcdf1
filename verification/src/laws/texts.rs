//! What splitting, trimming, reading and writing texts come to.

use vstd::prelude::*;
use vstd::utf8::encode_utf8;
use crate::number::bounded_value;
use crate::number::decimal;
use crate::number::digits_value;
use crate::number::i64_value;
use crate::number::is_digit;
use crate::number::is_digits;
use crate::number::lemma_decimal_round_trip;
use crate::number::signed_decimal;
use crate::number::signed_value;
use crate::number::unsigned_value;
use crate::text::behind_prefix;
use crate::text::byte_length;
use crate::text::holds_text;
use crate::text::is_char;
use crate::text::is_white_space;
use crate::text::joined;
use crate::text::lemma_first_where_is;
use crate::text::lemma_trimmed_around;
use crate::text::lemma_trimmed_ends;
use crate::text::parted;
use crate::text::pieces;
use crate::text::trim_start;
use crate::text::trimmed;
use crate::text::white_space;
use crate::text::words;

verus! {

/// Splitting and parting cut a text at the first separator: what is before it holds none, and what
/// is behind it is whatever stood there.
pub proof fn lemma_cut(a: Seq<char>, c: char, b: Seq<char>)
    requires
        forall|i: int| 0 <= i < a.len() ==> #[trigger] a[i] != c,
    ensures
        pieces(a, c) == seq![a],
        pieces(a + seq![c] + b, c) == seq![a] + pieces(b, c),
        parted(a, c) == (a, None::<Seq<char>>),
        parted(a + seq![c] + b, c) == (a, Some(b)),
{
    let s = a + seq![c] + b;
    assert forall|i: int| 0 <= i < a.len() implies !is_char(c)(#[trigger] s[i]) by {
        assert(s[i] == a[i]);
    }
    lemma_first_where_is(a, is_char(c), a.len() as int);
    lemma_first_where_is(s, is_char(c), a.len() as int);
    assert(s.take(a.len() as int) =~= a);
    assert(s.skip(a.len() + 1 as int) =~= b);
}

/// Trimming takes white space away at both ends and nothing else.
pub proof fn lemma_trim(before: Seq<char>, s: Seq<char>, behind: Seq<char>)
    requires
        forall|i: int| 0 <= i < before.len() ==> white_space(#[trigger] before[i]),
        forall|i: int| 0 <= i < behind.len() ==> white_space(#[trigger] behind[i]),
        s.len() > 0 ==> !white_space(s[0]) && !white_space(s.last()),
    ensures
        trimmed(before + s + behind) == s,
{
    if s.len() > 0 {
        lemma_trimmed_around(before, s, behind);
    } else {
        let all = before + s + behind;
        assert forall|i: int| 0 <= i < all.len() implies white_space(#[trigger] all[i]) by {
            if i < before.len() {
                assert(all[i] == before[i]);
            } else {
                assert(all[i] == behind[i - before.len()]);
            }
        }
        lemma_trimmed_ends(all);
        assert(trimmed(all) =~= s);
    }
}

/// The words of a text are the runs between white space, in order and each in full.
pub proof fn lemma_words(before: Seq<char>, word: Seq<char>, rest: Seq<char>)
    requires
        forall|i: int| 0 <= i < before.len() ==> white_space(#[trigger] before[i]),
        forall|i: int| 0 <= i < word.len() ==> !white_space(#[trigger] word[i]),
        rest.len() > 0 ==> white_space(rest[0]),
    ensures
        words(before) == Seq::<Seq<char>>::empty(),
        word.len() > 0 ==> words(before + word + rest) == seq![word] + words(rest),
{
    let p = |c: char| !white_space(c);
    let q = |c: char| white_space(c);
    lemma_first_where_is(before, p, before.len() as int);
    assert(trim_start(before).len() == 0);
    if word.len() > 0 {
        let all = before + word + rest;
        assert(all[before.len() as int] == word[0]);
        assert forall|i: int| 0 <= i < before.len() implies !p(#[trigger] all[i]) by {
            assert(all[i] == before[i]);
        }
        lemma_first_where_is(all, p, before.len() as int);
        let t = trim_start(all);
        assert(t =~= word + rest);
        assert forall|i: int| 0 <= i < word.len() implies !q(#[trigger] t[i]) by {
            assert(t[i] == word[i]);
        }
        if rest.len() > 0 {
            assert(t[word.len() as int] == rest[0]);
        }
        lemma_first_where_is(t, q, word.len() as int);
        assert(t.take(word.len() as int) =~= word);
        assert(t.skip(word.len() as int) =~= rest);
    }
}

/// A prefix is found exactly where it stands, and what follows it is given in full.
pub proof fn lemma_prefix(p: Seq<char>, s: Seq<char>)
    ensures
        behind_prefix(p + s, p) == Some(s),
        behind_prefix(s, p) matches Some(rest) ==> s == p + rest,
{
    assert((p + s).subrange(0, p.len() as int) =~= p);
    assert(p.is_prefix_of(p + s));
    assert((p + s).skip(p.len() as int) =~= s);
    if behind_prefix(s, p) is Some {
        assert(s =~= p + s.skip(p.len() as int));
    }
}

/// A text occurs in another exactly where the other has it between something before and behind it.
pub proof fn lemma_occurs(a: Seq<char>, p: Seq<char>, b: Seq<char>, s: Seq<char>)
    ensures
        holds_text(a + p + b, p),
        holds_text(s, p) ==> exists|x: Seq<char>, y: Seq<char>| s == #[trigger] (x + p + y),
{
    let all = a + p + b;
    assert(all.subrange(a.len() as int, a.len() + p.len() as int) =~= p);
    if holds_text(s, p) {
        let i = choose|i: int|
            0 <= i <= s.len() - p.len() && #[trigger] s.subrange(i, i + p.len()) == p;
        let x = s.take(i);
        let y = s.skip(i + p.len());
        assert(s =~= x + s.subrange(i, i + p.len()) + y);
        assert(s == x + p + y);
    }
}

/// Joining puts the texts one behind the other with the separator between neighbours.
pub proof fn lemma_joined(parts: Seq<Seq<char>>, last: Seq<char>, sep: Seq<char>)
    ensures
        joined(Seq::<Seq<char>>::empty(), sep) == Seq::<char>::empty(),
        joined(seq![last], sep) == last,
        parts.len() > 0 ==> joined(parts.push(last), sep) == joined(parts, sep) + sep + last,
{
    assert(parts.push(last).drop_last() =~= parts);
}

/// Lengths in bytes are those of the UTF-8 form.
pub proof fn lemma_byte_length(s: Seq<char>)
    ensures
        byte_length(s) == encode_utf8(s).len(),
{
}

/// A number below ten is written with its digit, and a further digit stands behind the others.
pub proof fn lemma_decimal(n: nat, d: nat)
    requires
        d < 10,
    ensures
        decimal(d) == seq![(48 + d) as char],
        n > 0 ==> decimal(10 * n + d) == decimal(n).push((48 + d) as char),
        n > 0 ==> signed_decimal(-n) == seq!['-'] + decimal(n),
        signed_decimal(n as int) == decimal(n),
{
    if n > 0 {
        let m = 10 * n + d;
        assert(m / 10 == n);
        assert(m % 10 == d);
    }
}

/// A digit behind a number that can be read makes ten times that number and the digit; signs are
/// read as signs, and nothing else can be read.
pub proof fn lemma_reading(s: Seq<char>, d: nat)
    requires
        d < 10,
    ensures
        unsigned_value(seq![(48 + d) as char]) == Some(d),
        unsigned_value(s) matches Some(n) ==> unsigned_value(s.push((48 + d) as char)) == Some(
            10 * n + d,
        ),
        s.len() > 0 && s[0] != '+' ==> unsigned_value(seq!['+'] + s) == unsigned_value(s),
        unsigned_value(s) is Some ==> s.len() > 0 && forall|i: int|
            0 <= i < s.len() ==> 48 <= #[trigger] s[i] as u32 <= 57 || (i == 0 && s[i] == '+'
                && s.len() > 1),
        s.len() > 0 && s[0] != '+' && s[0] != '-' ==> signed_value(seq!['-'] + s)
            == match unsigned_value(s) {
            Some(n) => Some(-(n as int)),
            None => None,
        },
        s.len() > 0 && s[0] == '-' && signed_value(s) is Some ==> s.len() > 1 && s[1] != '+' && s[1]
            != '-',
        s.len() == 0 || s[0] != '-' ==> signed_value(s) == match unsigned_value(s) {
            Some(n) => Some(n as int),
            None => None,
        },
{
    let c = (48 + d) as char;
    let one = seq![c];
    assert(one.drop_last() =~= Seq::<char>::empty());
    assert(is_digits(one));
    assert(digits_value(one.drop_last()) == 0);
    assert(digits_value(one) == d);
    if unsigned_value(s) is Some {
        let t = s.push(c);
        let body = if s[0] == '+' {
            s.skip(1)
        } else {
            s
        };
        let grown = if t[0] == '+' {
            t.skip(1)
        } else {
            t
        };
        assert(t[0] == s[0]);
        assert(grown =~= body.push(c));
        assert(grown.drop_last() =~= body);
        assert forall|i: int| 0 <= i < grown.len() implies is_digit(#[trigger] grown[i]) by {
            if i < body.len() {
                assert(grown[i] == body[i]);
            }
        }
        assert forall|i: int| 0 <= i < s.len() implies 48 <= #[trigger] s[i] as u32 <= 57 || (i == 0
            && s[i] == '+' && s.len() > 1) by {
            if s[0] == '+' {
                if i > 0 {
                    assert(s[i] == body[i - 1]);
                }
            } else {
                assert(s[i] == body[i]);
            }
        }
    }
    assert((seq!['+'] + s).skip(1) =~= s);
    assert((seq!['-'] + s).skip(1) =~= s);
    if s.len() > 1 && s[0] == '-' {
        assert(s.skip(1)[0] == s[1]);
    }
}

/// What is read as a number within bounds is what was written, if it is within them.
pub proof fn lemma_bounds(n: nat, max: nat, i: int, s: Seq<char>)
    ensures
        bounded_value(decimal(n), max) == if n <= max {
            Some(n)
        } else {
            None
        },
        i64_value(signed_decimal(i)) == if -0x8000_0000_0000_0000 <= i <= 0x7fff_ffff_ffff_ffff {
            Some(i)
        } else {
            None
        },
        bounded_value(s, max) == match unsigned_value(s) {
            Some(v) => if v <= max {
                Some(v)
            } else {
                None
            },
            None => None,
        },
        i64_value(s) == match signed_value(s) {
            Some(v) => if -0x8000_0000_0000_0000 <= v <= 0x7fff_ffff_ffff_ffff {
                Some(v)
            } else {
                None
            },
            None => None,
        },
{
    lemma_decimal_round_trip(n as int);
    lemma_decimal_round_trip(i);
}

/// White space is these characters and no others.
pub proof fn lemma_white_space(c: char, r: bool)
    requires
        call_ensures(is_white_space, (c,), r),
    ensures
        r <==> (c == '\t' || c == '\n' || c == '\u{b}' || c == '\u{c}' || c == '\r' || c == ' ' || c
            == '\u{85}' || c == '\u{a0}' || c == '\u{1680}' || ('\u{2000}' <= c && c <= '\u{200a}')
            || c == '\u{2028}' || c == '\u{2029}' || c == '\u{202f}' || c == '\u{205f}' || c
            == '\u{3000}'),
        white_space(c) <==> r,
{
}

} // verus!
