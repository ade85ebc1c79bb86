//! Text as sequences of characters: conversion between strings and character
//! vectors, and the searches, trimmings and replacements on which the rest of
//! the library builds.
//!
//! Every contract here speaks of `Seq<char>`, the view of `&str` and `String`.

use vstd::prelude::*;

verus! {

/// `String::push` appends one character to the end of the string.
pub assume_specification[ String::push ](s: &mut String, c: char)
    ensures
        final(s)@ == old(s)@.push(c),
;

/// The texts of the strings, in order.
pub open spec fn texts(v: Seq<String>) -> Seq<Seq<char>> {
    Seq::new(v.len(), |i: int| v[i]@)
}

/// The sequences that the vectors hold, in order.
pub open spec fn seqs_of(v: Seq<Vec<char>>) -> Seq<Seq<char>> {
    Seq::new(v.len(), |i: int| v[i]@)
}

/// The text of an optional string.
pub open spec fn text_of(s: Option<String>) -> Option<Seq<char>> {
    match s {
        Some(s) => Some(s@),
        None => None,
    }
}

/// `needle` stands in `hay` at position `at`.
pub open spec fn occurs_at(hay: Seq<char>, needle: Seq<char>, at: int) -> bool {
    &&& 0 <= at
    &&& at + needle.len() <= hay.len()
    &&& hay.subrange(at, at + needle.len()) == needle
}

/// `needle` stands somewhere in `hay`. The empty text stands in every text.
pub open spec fn contains(hay: Seq<char>, needle: Seq<char>) -> bool {
    exists|at: int| occurs_at(hay, needle, at)
}

/// `hay` begins with `prefix`.
pub open spec fn starts_with(hay: Seq<char>, prefix: Seq<char>) -> bool {
    occurs_at(hay, prefix, 0)
}

/// The characters with the Unicode property `White_Space`.
pub open spec fn is_white_space(c: char) -> bool {
    let u = c as u32;
    ||| 0x09 <= u <= 0x0D
    ||| u == 0x20
    ||| u == 0x85
    ||| u == 0xA0
    ||| u == 0x1680
    ||| 0x2000 <= u <= 0x200A
    ||| u == 0x2028
    ||| u == 0x2029
    ||| u == 0x202F
    ||| u == 0x205F
    ||| u == 0x3000
}

/// Which characters a trimming removes from the two ends of a text.
#[derive(Clone, Copy, Debug)]
pub enum Strip {
    /// Every character with the property `White_Space`.
    WhiteSpace,
    /// This one character.
    Char(char),
}

impl Strip {
    /// The trimming removes `c`.
    pub open spec fn drops(self, c: char) -> bool {
        match self {
            Strip::WhiteSpace => is_white_space(c),
            Strip::Char(q) => c == q,
        }
    }

    /// Whether the trimming removes `c`.
    pub fn removes(&self, c: char) -> (r: bool)
        ensures
            r == self.drops(c),
    {
        match self {
            Strip::WhiteSpace => {
                let u: u32 = c as u32;
                (0x09 <= u && u <= 0x0D) || u == 0x20 || u == 0x85 || u == 0xA0 || u == 0x1680
                    || (0x2000 <= u && u <= 0x200A) || u == 0x2028 || u == 0x2029 || u == 0x202F
                    || u == 0x205F || u == 0x3000
            },
            Strip::Char(q) => c == *q,
        }
    }
}

/// `s` without its longest prefix of characters that `what` removes.
pub open spec fn strip_front(s: Seq<char>, what: Strip) -> Seq<char>
    decreases s.len(),
{
    if s.len() > 0 && what.drops(s[0]) {
        strip_front(s.drop_first(), what)
    } else {
        s
    }
}

/// `s` without its longest suffix of characters that `what` removes.
pub open spec fn strip_back(s: Seq<char>, what: Strip) -> Seq<char>
    decreases s.len(),
{
    if s.len() > 0 && what.drops(s.last()) {
        strip_back(s.drop_last(), what)
    } else {
        s
    }
}

/// `s` trimmed at both ends.
pub open spec fn stripped(s: Seq<char>, what: Strip) -> Seq<char> {
    strip_back(strip_front(s, what), what)
}

/// `s` with every occurrence of `from` replaced by `to`, found from left to
/// right without overlap. An empty `from` replaces nothing.
pub open spec fn replaced(s: Seq<char>, from: Seq<char>, to: Seq<char>) -> Seq<char>
    decreases s.len(),
{
    if from.len() == 0 || s.len() < from.len() {
        s
    } else if occurs_at(s, from, 0) {
        to + replaced(s.skip(from.len() as int), from, to)
    } else {
        seq![s[0]] + replaced(s.skip(1), from, to)
    }
}

/// The parts of `text` between the occurrences of `separator`: one more
/// part than there are separators, each possibly empty.
pub open spec fn split(text: Seq<char>, separator: char) -> Seq<Seq<char>>
    decreases text.len(),
{
    if text.len() == 0 {
        seq![Seq::<char>::empty()]
    } else {
        let before = split(text.drop_last(), separator);
        if text.last() == separator {
            before.push(Seq::<char>::empty())
        } else {
            before.drop_last().push(before.last().push(text.last()))
        }
    }
}

/// The character of the decimal digit `d`.
pub open spec fn digit(d: nat) -> char
    recommends
        d < 10,
{
    ((48 + d) as u8) as char
}

/// The decimal numeral of `n`, without leading zeros.
pub open spec fn decimal(n: nat) -> Seq<char>
    decreases n,
{
    if n < 10 {
        seq![digit(n)]
    } else {
        decimal(n / 10).push(digit(n % 10))
    }
}

/// Skipping a dropped prefix leaves the front trimming unchanged.
proof fn lemma_strip_front_skip(s: Seq<char>, what: Strip, n: int)
    requires
        0 <= n <= s.len(),
        forall|i: int| 0 <= i < n ==> what.drops(#[trigger] s[i]),
    ensures
        strip_front(s, what) == strip_front(s.skip(n), what),
    decreases n,
{
    if n == 0 {
        assert(s.skip(0) =~= s);
    } else {
        let rest = s.drop_first();
        assert forall|i: int| 0 <= i < n - 1 implies what.drops(#[trigger] rest[i]) by {
            assert(rest[i] == s[i + 1]);
        }
        lemma_strip_front_skip(rest, what, n - 1);
        assert(rest.skip(n - 1) =~= s.skip(n));
    }
}

/// Taking away a dropped suffix leaves the back trimming unchanged.
proof fn lemma_strip_back_take(s: Seq<char>, what: Strip, n: int)
    requires
        0 <= n <= s.len(),
        forall|i: int| n <= i < s.len() ==> what.drops(#[trigger] s[i]),
    ensures
        strip_back(s, what) == strip_back(s.take(n), what),
    decreases s.len() - n,
{
    if n == s.len() {
        assert(s.take(n) =~= s);
    } else {
        let rest = s.drop_last();
        lemma_strip_back_take(rest, what, n);
        assert(rest.take(n) =~= s.take(n));
    }
}

/// The characters of `s`, in order.
pub fn chars_of(s: &str) -> (out: Vec<char>)
    ensures
        out@ == s@,
{
    let mut out: Vec<char> = Vec::new();
    for c in it: s.chars()
        invariant
            out@ == it.seq().take(it.index()),
            it.seq() == s@,
    {
        out.push(c);
    }
    out
}

/// The string whose characters are `v[from..to]`, in order.
pub fn string_of_range(v: &Vec<char>, from: usize, to: usize) -> (out: String)
    requires
        from <= to <= v.len(),
    ensures
        out@ == v@.subrange(from as int, to as int),
{
    let mut out = String::new();
    let mut i: usize = from;
    while i < to
        invariant
            from <= i <= to <= v.len(),
            out@ == v@.subrange(from as int, i as int),
        decreases to - i,
    {
        out.push(v[i]);
        i += 1;
    }
    out
}

/// The string whose characters are `v`, in order.
pub fn string_of(v: &Vec<char>) -> (out: String)
    ensures
        out@ == v@,
{
    let out = string_of_range(v, 0, v.len());
    assert(v@.subrange(0, v.len() as int) =~= v@);
    out
}

/// Appends the decimal numeral of `n` to `out`.
pub fn push_decimal(n: u64, out: &mut Vec<char>)
    ensures
        final(out)@ == old(out)@ + decimal(n as nat),
    decreases n,
{
    if n >= 10 {
        push_decimal(n / 10, out);
    }
    let d: u8 = (n % 10) as u8;
    out.push((48 + d) as char);
    assert(final(out)@ =~= old(out)@ + decimal(n as nat));
}

/// Appends the characters of `s` to `out`.
pub fn push_str(s: &str, out: &mut Vec<char>)
    ensures
        final(out)@ == old(out)@ + s@,
{
    let ghost before = out@;
    let more = chars_of(s);
    let mut i: usize = 0;
    while i < more.len()
        invariant
            i <= more.len(),
            more@ == s@,
            out@ == before + more@.take(i as int),
        decreases more.len() - i,
    {
        out.push(more[i]);
        i += 1;
    }
    assert(more@.take(more@.len() as int) =~= more@);
}

/// Whether `needle` stands in `hay` at position `at`.
pub fn matches_at(hay: &Vec<char>, needle: &Vec<char>, at: usize) -> (r: bool)
    ensures
        r == occurs_at(hay@, needle@, at as int),
{
    if needle.len() > hay.len() || at > hay.len() - needle.len() {
        return false;
    }
    let mut j: usize = 0;
    while j < needle.len()
        invariant
            j <= needle.len(),
            at + needle.len() <= hay.len(),
            forall|k: int| 0 <= k < j ==> hay@[at + k] == needle@[k],
        decreases needle.len() - j,
    {
        if hay[at + j] != needle[j] {
            proof {
                let part = hay@.subrange(at as int, at + needle.len());
                assert(part[j as int] == hay@[at + j]);
            }
            return false;
        }
        j += 1;
    }
    assert(hay@.subrange(at as int, at + needle.len()) =~= needle@);
    true
}

/// The first position at which `needle` stands in `hay`, if there is one.
pub fn find(hay: &Vec<char>, needle: &Vec<char>) -> (r: Option<usize>)
    ensures
        match r {
            Some(at) => occurs_at(hay@, needle@, at as int) && forall|k: int|
                0 <= k < at ==> !occurs_at(hay@, needle@, k),
            None => !contains(hay@, needle@),
        },
{
    if needle.len() > hay.len() {
        return None;
    }
    let last: usize = hay.len() - needle.len();
    let mut at: usize = 0;
    while at < last
        invariant
            at <= last,
            last == hay.len() - needle.len(),
            forall|k: int| 0 <= k < at ==> !occurs_at(hay@, needle@, k),
        decreases last - at,
    {
        if matches_at(hay, needle, at) {
            return Some(at);
        }
        at += 1;
    }
    if matches_at(hay, needle, last) {
        Some(last)
    } else {
        None
    }
}

/// The parts of `text` between the occurrences of `separator`.
pub fn split_chars(text: &Vec<char>, separator: char) -> (parts: Vec<Vec<char>>)
    ensures
        seqs_of(parts@) == split(text@, separator),
{
    let mut parts: Vec<Vec<char>> = Vec::new();
    let mut current: Vec<char> = Vec::new();
    let mut i: usize = 0;
    assert(text@.take(0) =~= Seq::<char>::empty());
    assert(seqs_of(parts@).push(current@) =~= seq![Seq::<char>::empty()]);
    while i < text.len()
        invariant
            i <= text.len(),
            seqs_of(parts@).push(current@) == split(text@.take(i as int), separator),
        decreases text.len() - i,
    {
        let ghost done = seqs_of(parts@);
        let ghost open = current@;
        let ghost next = text@.take(i + 1);
        assert(next.drop_last() =~= text@.take(i as int));
        assert(next.last() == text@[i as int]);
        assert(done.push(open).drop_last() =~= done);
        if text[i] == separator {
            parts.push(current);
            current = Vec::new();
            assert(seqs_of(parts@) =~= done.push(open));
        } else {
            current.push(text[i]);
        }
        i += 1;
    }
    assert(text@.take(text@.len() as int) =~= text@);
    let ghost done = seqs_of(parts@);
    let ghost open = current@;
    parts.push(current);
    assert(seqs_of(parts@) =~= done.push(open));
    parts
}

/// Whether the character `c` stands somewhere in `text`.
pub fn holds_char(text: &Vec<char>, c: char) -> (r: bool)
    ensures
        r == text@.contains(c),
{
    let mut i: usize = 0;
    while i < text.len()
        invariant
            i <= text.len(),
            forall|k: int| 0 <= k < i ==> text@[k] != c,
        decreases text.len() - i,
    {
        if text[i] == c {
            return true;
        }
        i += 1;
    }
    false
}

/// Whether the two texts hold the same characters.
pub fn str_eq(a: &str, b: &str) -> (r: bool)
    ensures
        r == (a@ == b@),
{
    let x = chars_of(a);
    let y = chars_of(b);
    same_chars(&x, &y)
}

/// Whether the two vectors hold the same characters.
pub fn same_chars(a: &Vec<char>, b: &Vec<char>) -> (r: bool)
    ensures
        r == (a@ == b@),
{
    if a.len() != b.len() {
        return false;
    }
    let r = matches_at(a, b, 0);
    assert(a@.subrange(0, b@.len() as int) =~= a@);
    r
}

/// The first position in `keys` of a string with the characters of
/// `wanted`, if there is one.
pub fn position_of(keys: &Vec<String>, wanted: &str) -> (at: Option<usize>)
    ensures
        match at {
            Some(p) => p < keys.len() && keys@[p as int]@ == wanted@ && forall|k: int|
                0 <= k < p ==> keys@[k]@ != wanted@,
            None => !texts(keys@).contains(wanted@),
        },
{
    let target = chars_of(wanted);
    let mut p: usize = 0;
    while p < keys.len()
        invariant
            p <= keys.len(),
            target@ == wanted@,
            forall|k: int| 0 <= k < p ==> keys@[k]@ != wanted@,
        decreases keys.len() - p,
    {
        let candidate = chars_of(keys[p].as_str());
        if same_chars(&candidate, &target) {
            return Some(p);
        }
        p += 1;
    }
    assert forall|k: int| 0 <= k < texts(keys@).len() implies texts(keys@)[k] != wanted@ by {
        assert(texts(keys@)[k] == keys@[k]@);
    }
    None
}

/// `s` without the characters that `what` removes at its two ends.
pub fn strip(s: &str, what: Strip) -> (out: String)
    ensures
        out@ == stripped(s@, what),
{
    let v = chars_of(s);
    let mut from: usize = 0;
    while from < v.len() && what.removes(v[from])
        invariant
            from <= v.len(),
            forall|i: int| 0 <= i < from ==> what.drops(#[trigger] v@[i]),
        decreases v.len() - from,
    {
        from += 1;
    }
    let mut to: usize = v.len();
    while to > from && what.removes(v[to - 1])
        invariant
            from <= to <= v.len(),
            forall|i: int| to <= i < v.len() ==> what.drops(#[trigger] v@[i]),
        decreases to,
    {
        to -= 1;
    }
    proof {
        let front = v@.skip(from as int);
        lemma_strip_front_skip(v@, what, from as int);
        assert(strip_front(v@, what) == front);
        let keep = to - from;
        assert forall|i: int| keep <= i < front.len() implies what.drops(#[trigger] front[i]) by {
            assert(front[i] == v@[from + i]);
        }
        lemma_strip_back_take(front, what, keep);
        assert(front.take(keep) =~= v@.subrange(from as int, to as int));
        if keep > 0 {
            assert(front.take(keep).last() == v@[to - 1]);
        }
        assert(strip_back(front.take(keep), what) == front.take(keep));
    }
    string_of_range(&v, from, to)
}

/// `s` with every occurrence of `from` replaced by `to`.
pub fn replace(s: &str, from: &str, to: &str) -> (out: String)
    ensures
        out@ == replaced(s@, from@, to@),
{
    let text = chars_of(s);
    let pattern = chars_of(from);
    let with = chars_of(to);
    let mut out: Vec<char> = Vec::new();
    let mut i: usize = 0;
    if pattern.len() == 0 {
        return string_of(&text);
    }
    assert(text@.skip(0) =~= text@);
    assert(out@ + replaced(text@, pattern@, with@) =~= replaced(text@, pattern@, with@));
    while i < text.len()
        invariant
            i <= text.len(),
            pattern.len() > 0,
            text@ == s@,
            pattern@ == from@,
            with@ == to@,
            replaced(text@, pattern@, with@) == out@ + replaced(
                text@.skip(i as int),
                pattern@,
                with@,
            ),
        decreases text.len() - i,
    {
        let ghost rest = text@.skip(i as int);
        if matches_at(&text, &pattern, i) {
            proof {
                assert(rest.subrange(0, pattern@.len() as int) =~= text@.subrange(
                    i as int,
                    i + pattern@.len(),
                ));
                assert(occurs_at(rest, pattern@, 0));
                assert(rest.skip(pattern@.len() as int) =~= text@.skip(i + pattern@.len()));
            }
            let ghost before = out@;
            let mut k: usize = 0;
            while k < with.len()
                invariant
                    k <= with.len(),
                    out@ == before + with@.take(k as int),
                decreases with.len() - k,
            {
                out.push(with[k]);
                k += 1;
            }
            assert(with@.take(with@.len() as int) =~= with@);
            assert(out@ + replaced(rest.skip(pattern@.len() as int), pattern@, with@) =~= before
                + (with@ + replaced(rest.skip(pattern@.len() as int), pattern@, with@)));
            i += pattern.len();
        } else {
            proof {
                if rest.len() >= pattern@.len() {
                    assert(rest.subrange(0, pattern@.len() as int) =~= text@.subrange(
                        i as int,
                        i + pattern@.len(),
                    ));
                    assert(!occurs_at(rest, pattern@, 0));
                    assert(rest.skip(1) =~= text@.skip(i + 1));
                }
            }
            if text.len() - i < pattern.len() {
                let ghost before = out@;
                let mut k: usize = i;
                while k < text.len()
                    invariant
                        i <= k <= text.len(),
                        out@ == before + text@.subrange(i as int, k as int),
                    decreases text.len() - k,
                {
                    out.push(text[k]);
                    k += 1;
                }
                proof {
                    assert(text@.subrange(i as int, text@.len() as int) =~= rest);
                    assert(text@.skip(text@.len() as int) =~= Seq::<char>::empty());
                    assert(out@ + replaced(text@.skip(text@.len() as int), pattern@, with@)
                        =~= before + rest);
                }
                i = text.len();
            } else {
                let ghost before = out@;
                out.push(text[i]);
                assert(out@ + replaced(rest.skip(1), pattern@, with@) =~= before + (seq![rest[0]]
                    + replaced(rest.skip(1), pattern@, with@)));
                i += 1;
            }
        }
    }
    assert(text@.skip(text@.len() as int) =~= Seq::<char>::empty());
    assert(out@ + Seq::<char>::empty() =~= out@);
    string_of(&out)
}

} // verus!
