//! Operations on text, stated over the sequence of a text's characters.

use vstd::prelude::*;
use vstd::string::*;
use vstd::utf8::encode_utf8;

verus! {

/// The characters with the Unicode property `White_Space`.
pub open spec fn white_space(c: char) -> bool {
    let n = c as u32;
    ||| 0x9 <= n <= 0xD
    ||| n == 0x20
    ||| n == 0x85
    ||| n == 0xA0
    ||| n == 0x1680
    ||| 0x2000 <= n <= 0x200A
    ||| n == 0x2028
    ||| n == 0x2029
    ||| n == 0x202F
    ||| n == 0x205F
    ||| n == 0x3000
}

/// Whether `c` is white space.
pub fn is_white_space(c: char) -> (r: bool)
    ensures
        r == white_space(c),
{
    let n: u32 = c as u32;
    (0x9 <= n && n <= 0xD) || n == 0x20 || n == 0x85 || n == 0xA0 || n == 0x1680 || (0x2000 <= n
        && n <= 0x200A) || n == 0x2028 || n == 0x2029 || n == 0x202F || n == 0x205F || n == 0x3000
}

/// The characters of a text, in order.
pub fn chars_of(s: &str) -> (v: Vec<char>)
    ensures
        v@ == s@,
{
    let mut v: Vec<char> = Vec::new();
    for c in it: s.chars()
        invariant
            it.seq() == s@,
            v@ == s@.take(it.index()),
    {
        v.push(c);
        assert(s@.take(it.index() + 1) =~= s@.take(it.index()).push(c));
    }
    assert(s@.take(s@.len() as int) =~= s@);
    v
}

/// Whether two texts hold the same characters.
pub fn same(a: &str, b: &str) -> (r: bool)
    ensures
        r == (a@ == b@),
{
    let x = chars_of(a);
    let y = chars_of(b);
    if x.len() != y.len() {
        return false;
    }
    let mut i: usize = 0;
    while i < x.len()
        invariant
            x@ == a@,
            y@ == b@,
            x@.len() == y@.len(),
            i <= x@.len(),
            forall|j: int| 0 <= j < i ==> x@[j] == y@[j],
        decreases x@.len() - i,
    {
        if x[i] != y[i] {
            return false;
        }
        i += 1;
    }
    assert(a@ =~= b@);
    true
}

/// The number of bytes of the UTF-8 form of a text.
pub open spec fn byte_length(s: Seq<char>) -> nat {
    encode_utf8(s).len()
}

/// The number of bytes that a text takes.
pub fn byte_len(s: &str) -> (n: usize)
    ensures
        n == byte_length(s@),
{
    s.as_bytes().len()
}

/// The first position whose character satisfies `p`, or the length if there is none.
pub open spec fn first_where(s: Seq<char>, p: spec_fn(char) -> bool) -> nat
    decreases s.len(),
{
    if s.len() == 0 || p(s[0]) {
        0
    } else {
        1 + first_where(s.drop_first(), p)
    }
}

/// What `first_where` names: nothing before it satisfies `p`, and it does, unless it is the end.
pub proof fn lemma_first_where(s: Seq<char>, p: spec_fn(char) -> bool)
    ensures
        first_where(s, p) <= s.len(),
        forall|j: int| 0 <= j < first_where(s, p) ==> !p(#[trigger] s[j]),
        first_where(s, p) < s.len() ==> p(s[first_where(s, p) as int]),
    decreases s.len(),
{
    if s.len() != 0 && !p(s[0]) {
        let rest = s.drop_first();
        lemma_first_where(rest, p);
        assert forall|j: int| 0 <= j < first_where(s, p) implies !p(#[trigger] s[j]) by {
            if j > 0 {
                assert(rest[j - 1] == s[j]);
            }
        }
    }
}

/// Only one position has the properties of `first_where`.
pub proof fn lemma_first_where_is(s: Seq<char>, p: spec_fn(char) -> bool, i: int)
    requires
        0 <= i <= s.len(),
        forall|j: int| 0 <= j < i ==> !p(#[trigger] s[j]),
        i < s.len() ==> p(s[i]),
    ensures
        first_where(s, p) == i,
{
    lemma_first_where(s, p);
    let k = first_where(s, p) as int;
    if k < i {
        assert(!p(s[k]));
    }
    if i < k {
        assert(!p(s[i]));
    }
}

/// The test whether a character is `c`.
pub open spec fn is_char(c: char) -> spec_fn(char) -> bool {
    |x: char| x == c
}

/// The first position of `c`, or the length if `c` does not occur.
pub open spec fn first_index(s: Seq<char>, c: char) -> nat {
    first_where(s, is_char(c))
}

/// A text without the white space before its first other character.
pub open spec fn trim_start(s: Seq<char>) -> Seq<char> {
    s.skip(first_where(s, |c: char| !white_space(c)) as int)
}

/// A text without the white space behind its last other character.
pub open spec fn trim_end(s: Seq<char>) -> Seq<char>
    decreases s.len(),
{
    if s.len() > 0 && white_space(s.last()) {
        trim_end(s.drop_last())
    } else {
        s
    }
}

/// A text without the white space at both ends.
pub open spec fn trimmed(s: Seq<char>) -> Seq<char> {
    trim_end(trim_start(s))
}

proof fn lemma_trim_end_is(s: Seq<char>, b: int)
    requires
        0 <= b <= s.len(),
        forall|j: int| b <= j < s.len() ==> white_space(#[trigger] s[j]),
        b > 0 ==> !white_space(s[b - 1]),
    ensures
        trim_end(s) == s.take(b),
    decreases s.len(),
{
    if b < s.len() {
        lemma_trim_end_is(s.drop_last(), b);
        assert(s.drop_last().take(b) =~= s.take(b));
    } else {
        assert(s.take(b) =~= s);
    }
}

/// A text without the white space at both ends.
pub fn trim(s: &str) -> (r: String)
    ensures
        r@ == trimmed(s@),
{
    let v = chars_of(s);
    let n: usize = v.len();
    let mut a: usize = 0;
    while a < n && is_white_space(v[a])
        invariant
            n == v@.len(),
            a <= n,
            forall|j: int| 0 <= j < a ==> white_space(#[trigger] v@[j]),
        decreases n - a,
    {
        a += 1;
    }
    let mut b: usize = n;
    while b > a && is_white_space(v[b - 1])
        invariant
            n == v@.len(),
            a <= b <= n,
            forall|j: int| b <= j < n ==> white_space(#[trigger] v@[j]),
        decreases b,
    {
        b -= 1;
    }
    proof {
        let p = |c: char| !white_space(c);
        lemma_first_where_is(s@, p, a as int);
        let t = s@.skip(a as int);
        assert forall|j: int| b - a <= j < t.len() implies white_space(#[trigger] t[j]) by {
            assert(t[j] == v@[j + a]);
        }
        lemma_trim_end_is(t, b - a);
        assert(t.take(b - a) =~= s@.subrange(a as int, b as int));
    }
    s.substring_char(a, b).to_string()
}

/// What trimming leaves neither starts nor ends with white space.
pub proof fn lemma_trimmed_ends(s: Seq<char>)
    ensures
        trimmed(s).len() > 0 ==> !white_space(trimmed(s)[0]) && !white_space(trimmed(s).last()),
        trimmed(s).len() == 0 <==> (forall|j: int| 0 <= j < s.len() ==> white_space(#[trigger] s[j])),
{
    let p = |c: char| !white_space(c);
    let a = first_where(s, p) as int;
    lemma_first_where(s, p);
    let t = s.skip(a);
    lemma_trim_end(t);
    if t.len() > 0 {
        assert(t[0] == s[a]);
        assert(!white_space(t[0]));
    } else {
        assert forall|j: int| 0 <= j < s.len() implies white_space(#[trigger] s[j]) by {}
    }
}

proof fn lemma_trim_end(t: Seq<char>)
    ensures
        trim_end(t).len() <= t.len(),
        trim_end(t) == t.take(trim_end(t).len() as int),
        trim_end(t).len() > 0 ==> !white_space(trim_end(t).last()),
        forall|j: int| trim_end(t).len() <= j < t.len() ==> white_space(#[trigger] t[j]),
    decreases t.len(),
{
    if t.len() > 0 && white_space(t.last()) {
        lemma_trim_end(t.drop_last());
        let k = trim_end(t).len() as int;
        assert(t.drop_last().take(k) =~= t.take(k));
        assert forall|j: int| k <= j < t.len() implies white_space(#[trigger] t[j]) by {
            if j < t.len() - 1 {
                assert(t.drop_last()[j] == t[j]);
            }
        }
    } else {
        assert(t.take(t.len() as int) =~= t);
    }
}

/// Trimming a trimmed text changes nothing.
pub proof fn lemma_trim_idempotent(s: Seq<char>)
    ensures
        trimmed(trimmed(s)) == trimmed(s),
{
    let t = trimmed(s);
    lemma_trimmed_ends(s);
    let p = |c: char| !white_space(c);
    lemma_first_where_is(t, p, 0);
    assert(t.skip(0) =~= t);
}

/// What trimming leaves of a text ends with the last character that is no white space.
pub proof fn lemma_trimmed_last(s: Seq<char>, j: int)
    requires
        0 <= j < s.len(),
        !white_space(s[j]),
        forall|i: int| j < i < s.len() ==> white_space(#[trigger] s[i]),
    ensures
        trimmed(s).len() > 0,
        trimmed(s).last() == s[j],
{
    let p = |c: char| !white_space(c);
    let a = first_where(s, p) as int;
    lemma_first_where(s, p);
    if a > j {
        assert(!p(s[j]));
    }
    let t = s.skip(a);
    assert(t[j - a] == s[j]);
    assert forall|i: int| j - a + 1 <= i < t.len() implies white_space(#[trigger] t[i]) by {
        assert(t[i] == s[i + a]);
    }
    lemma_trim_end_is(t, j - a + 1);
}

/// Trimming takes away white space that stands around a text without white space at its ends.
pub proof fn lemma_trimmed_around(before: Seq<char>, s: Seq<char>, behind: Seq<char>)
    requires
        forall|i: int| 0 <= i < before.len() ==> white_space(#[trigger] before[i]),
        forall|i: int| 0 <= i < behind.len() ==> white_space(#[trigger] behind[i]),
        s.len() > 0,
        !white_space(s[0]),
        !white_space(s.last()),
    ensures
        trimmed(before + s + behind) == s,
{
    let all = before + s + behind;
    let p = |c: char| !white_space(c);
    assert(all[before.len() as int] == s[0]);
    assert forall|i: int| 0 <= i < before.len() implies !p(#[trigger] all[i]) by {
        assert(all[i] == before[i]);
    }
    lemma_first_where_is(all, p, before.len() as int);
    let t = all.skip(before.len() as int);
    assert(t =~= s + behind);
    assert(t[s.len() - 1] == s.last());
    assert forall|i: int| s.len() <= i < t.len() implies white_space(#[trigger] t[i]) by {
        assert(t[i] == behind[i - s.len()]);
    }
    lemma_trim_end_is(t, s.len() as int);
    assert(t.take(s.len() as int) =~= s);
}

/// The pieces of a text between the occurrences of `c`: one more than there are occurrences.
pub open spec fn pieces(s: Seq<char>, c: char) -> Seq<Seq<char>>
    decreases s.len(),
{
    let i = first_index(s, c) as int;
    if i < s.len() {
        seq![s.take(i)] + pieces(s.skip(i + 1), c)
    } else {
        seq![s]
    }
}

/// The pieces of `s` between the occurrences of `c`.
pub fn split(s: &str, c: char) -> (r: Vec<String>)
    ensures
        r.deep_view() == pieces(s@, c),
{
    let v = chars_of(s);
    let n: usize = v.len();
    let mut r: Vec<String> = Vec::new();
    let mut start: usize = 0;
    let mut i: usize = 0;
    assert(s@.skip(0) =~= s@);
    assert(r.deep_view() + pieces(s@, c) =~= pieces(s@, c));
    while i < n
        invariant
            v@ == s@,
            n == s@.len(),
            start <= i <= n,
            forall|j: int| start <= j < i ==> s@[j] != c,
            r.deep_view() + pieces(s@.skip(start as int), c) == pieces(s@, c),
        decreases n - i,
    {
        if v[i] == c {
            let ghost before = r.deep_view();
            r.push(s.substring_char(start, i).to_string());
            proof {
                let t = s@.skip(start as int);
                let k = i - start;
                lemma_first_where_is(t, is_char(c), k);
                assert(t.take(k) =~= s@.subrange(start as int, i as int));
                assert(t.skip(k + 1) =~= s@.skip(i + 1));
                assert(r.deep_view() =~= before.push(t.take(k)));
                assert(r.deep_view() + pieces(s@.skip(i + 1), c) =~= before + (seq![t.take(k)]
                    + pieces(t.skip(k + 1), c)));
            }
            start = i + 1;
        }
        i += 1;
    }
    let ghost before = r.deep_view();
    r.push(s.substring_char(start, n).to_string());
    proof {
        let t = s@.skip(start as int);
        lemma_first_where_is(t, is_char(c), t.len() as int);
        assert(s@.subrange(start as int, n as int) =~= t);
        assert(r.deep_view() =~= before + seq![t]);
    }
    r
}

/// The text before the first `c`, and the text behind it if there is one.
pub open spec fn parted(s: Seq<char>, c: char) -> (Seq<char>, Option<Seq<char>>) {
    let i = first_index(s, c) as int;
    if i < s.len() {
        (s.take(i), Some(s.skip(i + 1)))
    } else {
        (s, None)
    }
}

/// Parts `s` at its first `c`.
pub fn part(s: &str, c: char) -> (r: (String, Option<String>))
    ensures
        (r.0@, r.1.deep_view()) == parted(s@, c),
{
    let v = chars_of(s);
    let n: usize = v.len();
    let mut i: usize = 0;
    while i < n && v[i] != c
        invariant
            v@ == s@,
            n == s@.len(),
            i <= n,
            forall|j: int| 0 <= j < i ==> s@[j] != c,
        decreases n - i,
    {
        i += 1;
    }
    proof {
        lemma_first_where_is(s@, is_char(c), i as int);
        assert(s@.take(i as int) =~= s@.subrange(0, i as int));
        assert(s@.subrange(0, n as int) =~= s@);
    }
    if i < n {
        (s.substring_char(0, i).to_string(), Some(s.substring_char(i + 1, n).to_string()))
    } else {
        (s.to_string(), None)
    }
}

/// The longest runs of characters that are not white space, in order.
pub open spec fn words(s: Seq<char>) -> Seq<Seq<char>>
    decreases s.len(),
{
    let t = trim_start(s);
    let i = first_where(t, |c: char| white_space(c)) as int;
    if t.len() == 0 || i == 0 || t.len() > s.len() || i > t.len() {
        Seq::empty()
    } else {
        seq![t.take(i)] + words(t.skip(i))
    }
}

/// The words of `s`.
pub fn split_words(s: &str) -> (r: Vec<String>)
    ensures
        r.deep_view() == words(s@),
{
    let v = chars_of(s);
    let n: usize = v.len();
    let mut r: Vec<String> = Vec::new();
    let mut start: usize = 0;
    assert(s@.skip(0) =~= s@);
    assert(r.deep_view() + words(s@) =~= words(s@));
    loop
        invariant
            v@ == s@,
            n == s@.len(),
            start <= n,
            r.deep_view() + words(s@.skip(start as int)) == words(s@),
        decreases n - start,
    {
        let ghost rest = s@.skip(start as int);
        let mut a: usize = start;
        while a < n && is_white_space(v[a])
            invariant
                v@ == s@,
                n == s@.len(),
                start <= a <= n,
                rest == s@.skip(start as int),
                forall|j: int| start <= j < a ==> white_space(#[trigger] s@[j]),
            decreases n - a,
        {
            a += 1;
        }
        let mut b: usize = a;
        while b < n && !is_white_space(v[b])
            invariant
                v@ == s@,
                n == s@.len(),
                a <= b <= n,
                forall|j: int| a <= j < b ==> !white_space(#[trigger] s@[j]),
            decreases n - b,
        {
            b += 1;
        }
        let ghost t = s@.skip(a as int);
        proof {
            assert forall|j: int| 0 <= j < a - start implies white_space(#[trigger] rest[j]) by {
                assert(rest[j] == s@[j + start]);
            }
            lemma_first_where_is(rest, |c: char| !white_space(c), a - start);
            assert(trim_start(rest) =~= t);
            assert forall|j: int| 0 <= j < b - a implies !white_space(#[trigger] t[j]) by {
                assert(t[j] == s@[j + a]);
            }
            lemma_first_where_is(t, |c: char| white_space(c), b - a);
        }
        if a == n {
            assert(r.deep_view() + words(rest) =~= r.deep_view());
            return r;
        }
        let ghost before = r.deep_view();
        r.push(s.substring_char(a, b).to_string());
        proof {
            assert(t.take(b - a) =~= s@.subrange(a as int, b as int));
            assert(t.skip(b - a) =~= s@.skip(b as int));
            assert(r.deep_view() =~= before.push(t.take(b - a)));
            assert(r.deep_view() + words(s@.skip(b as int)) =~= before + (seq![t.take(b - a)]
                + words(t.skip(b - a))));
        }
        start = b;
    }
}

/// Whether `p` occurs in `s` as a run of adjacent characters.
pub open spec fn holds_text(s: Seq<char>, p: Seq<char>) -> bool {
    exists|i: int| 0 <= i <= s.len() - p.len() && #[trigger] s.subrange(i, i + p.len()) == p
}

/// Whether `p` occurs in `s`.
pub fn contains(s: &str, p: &str) -> (r: bool)
    ensures
        r == holds_text(s@, p@),
{
    let v = chars_of(s);
    let w = chars_of(p);
    if v.len() < w.len() {
        return false;
    }
    let last: usize = v.len() - w.len();
    let mut i: usize = 0;
    loop
        invariant
            v@ == s@,
            w@ == p@,
            last == v@.len() - w@.len(),
            i <= last,
            forall|k: int| 0 <= k < i ==> #[trigger] s@.subrange(k, k + p@.len()) != p@,
        decreases last - i,
    {
        let mut j: usize = 0;
        while j < w.len() && v[i + j] == w[j]
            invariant
                v@ == s@,
                w@ == p@,
                i + w@.len() <= v@.len() == v.len(),
                j <= w@.len(),
                forall|k: int| 0 <= k < j ==> v@[i + k] == w@[k],
            decreases w@.len() - j,
        {
            j += 1;
        }
        let ghost here = s@.subrange(i as int, i + p@.len());
        if j == w.len() {
            assert(here =~= p@);
            return true;
        }
        assert(here[j as int] == v@[i + j]);
        if i == last {
            return false;
        }
        i += 1;
    }
}

/// What follows `p` in `s`, if `s` starts with `p`.
pub open spec fn behind_prefix(s: Seq<char>, p: Seq<char>) -> Option<Seq<char>> {
    if p.is_prefix_of(s) {
        Some(s.skip(p.len() as int))
    } else {
        None
    }
}

/// What follows `p` in `s`, if `s` starts with `p`.
pub fn strip_prefix(s: &str, p: &str) -> (r: Option<String>)
    ensures
        r.deep_view() == behind_prefix(s@, p@),
{
    let v = chars_of(s);
    let w = chars_of(p);
    if v.len() < w.len() {
        return None;
    }
    let mut j: usize = 0;
    while j < w.len()
        invariant
            v@ == s@,
            w@ == p@,
            w@.len() <= v@.len(),
            j <= w@.len(),
            forall|k: int| 0 <= k < j ==> v@[k] == w@[k],
        decreases w@.len() - j,
    {
        if v[j] != w[j] {
            assert(s@.subrange(0, p@.len() as int)[j as int] == v@[j as int]);
            return None;
        }
        j += 1;
    }
    assert(s@.subrange(0, p@.len() as int) =~= p@);
    assert(s@.subrange(p@.len() as int, s@.len() as int) =~= s@.skip(p@.len() as int));
    Some(s.substring_char(w.len(), v.len()).to_string())
}

/// The texts one behind the other, with `sep` between neighbours.
pub open spec fn joined(parts: Seq<Seq<char>>, sep: Seq<char>) -> Seq<char>
    decreases parts.len(),
{
    if parts.len() == 0 {
        Seq::empty()
    } else if parts.len() == 1 {
        parts[0]
    } else {
        joined(parts.drop_last(), sep) + sep + parts.last()
    }
}

proof fn lemma_joined_from_front(first: Seq<char>, rest: Seq<Seq<char>>, sep: Seq<char>)
    requires
        rest.len() > 0,
    ensures
        joined(seq![first] + rest, sep) == first + sep + joined(rest, sep),
    decreases rest.len(),
{
    let all = seq![first] + rest;
    assert(all.last() == rest.last());
    if rest.len() == 1 {
        assert(all.drop_last() =~= seq![first]);
        assert(joined(all.drop_last(), sep) == first);
    } else {
        assert(all.drop_last() =~= seq![first] + rest.drop_last());
        lemma_joined_from_front(first, rest.drop_last(), sep);
        assert(joined(all, sep) =~= first + sep + joined(rest, sep));
    }
}

/// Joining the pieces of a text with the character that they were split at gives the text back.
pub proof fn lemma_join_of_pieces(s: Seq<char>, c: char)
    ensures
        joined(pieces(s, c), seq![c]) == s,
    decreases s.len(),
{
    let i = first_index(s, c) as int;
    lemma_first_where(s, is_char(c));
    if i < s.len() {
        let rest = s.skip(i + 1);
        lemma_join_of_pieces(rest, c);
        lemma_joined_from_front(s.take(i), pieces(rest, c), seq![c]);
        assert(s =~= s.take(i) + seq![c] + rest);
    }
}

/// `a` followed by `b`.
pub fn plus(a: &str, b: &str) -> (r: String)
    ensures
        r@ == a@ + b@,
{
    let mut r: String = a.to_string();
    r.append(b);
    r
}

} // verus!
