//! Characters and lines: whitespace, trimming, and reading a generation
//! from its text.
use vstd::prelude::*;

use crate::rules::State;
use crate::symbol::{symbol_of, Symbol};

verus! {

/// Whether `c` has the Unicode `White_Space` property.
pub open spec fn is_white(c: char) -> bool {
    ('\u{9}' <= c && c <= '\u{d}') || c == ' ' || c == '\u{85}' || c == '\u{a0}' || c
        == '\u{1680}' || ('\u{2000}' <= c && c <= '\u{200a}') || c == '\u{2028}' || c
        == '\u{2029}' || c == '\u{202f}' || c == '\u{205f}' || c == '\u{3000}'
}

/// Whether `c` is whitespace.
pub fn is_whitespace(c: char) -> (r: bool)
    ensures
        r == is_white(c),
{
    ('\u{9}' <= c && c <= '\u{d}') || c == ' ' || c == '\u{85}' || c == '\u{a0}' || c
        == '\u{1680}' || ('\u{2000}' <= c && c <= '\u{200a}') || c == '\u{2028}' || c
        == '\u{2029}' || c == '\u{202f}' || c == '\u{205f}' || c == '\u{3000}'
}

/// `s` without its leading whitespace.
pub open spec fn trim_start(s: Seq<char>) -> Seq<char>
    decreases s.len(),
{
    if s.len() > 0 && is_white(s[0]) {
        trim_start(s.drop_first())
    } else {
        s
    }
}

/// `s` without its trailing whitespace.
pub open spec fn trim_end(s: Seq<char>) -> Seq<char>
    decreases s.len(),
{
    if s.len() > 0 && is_white(s.last()) {
        trim_end(s.drop_last())
    } else {
        s
    }
}

/// `s` without leading and trailing whitespace.
pub open spec fn trim(s: Seq<char>) -> Seq<char> {
    trim_end(trim_start(s))
}

/// The symbols written in `text`, whitespace skipped.
pub open spec fn symbols_in(text: Seq<char>) -> Seq<Symbol> {
    text.filter(|c: char| !is_white(c)).map_values(|c: char| symbol_of(c))
}

/// The characters of `s`.
pub fn chars_of(s: &str) -> (r: Vec<char>)
    ensures
        r@ == s@,
{
    let mut r: Vec<char> = Vec::new();
    let n = s.unicode_len();
    let mut i: usize = 0;
    while i < n
        invariant
            n == s@.len(),
            i <= n,
            r@ == s@.take(i as int),
        decreases n - i,
    {
        r.push(s.get_char(i));
        i = i + 1;
        assert(r@ =~= s@.take(i as int));
    }
    assert(s@.take(n as int) =~= s@);
    r
}

/// Relies on `String::push`: appends one character.
#[verifier::external_body]
pub(crate) fn push_char(s: &mut String, c: char)
    ensures
        final(s)@ == old(s)@.push(c),
{
    s.push(c)
}

/// The characters `cs[from..to]` as a string.
pub fn string_of(cs: &Vec<char>, from: usize, to: usize) -> (r: String)
    requires
        from <= to <= cs.len(),
    ensures
        r@ == cs@.subrange(from as int, to as int),
{
    let mut r = String::new();
    let mut i: usize = from;
    while i < to
        invariant
            from <= i <= to <= cs.len(),
            r@ == cs@.subrange(from as int, i as int),
        decreases to - i,
    {
        push_char(&mut r, cs[i]);
        i = i + 1;
        assert(r@ =~= cs@.subrange(from as int, i as int));
    }
    r
}

/// The bounds of `cs[from..to]` once leading and trailing whitespace is cut.
pub fn trim_bounds(cs: &Vec<char>, from: usize, to: usize) -> (r: (usize, usize))
    requires
        from <= to <= cs.len(),
    ensures
        from <= r.0 <= r.1 <= to,
        cs@.subrange(r.0 as int, r.1 as int) == trim(cs@.subrange(from as int, to as int)),
{
    let mut lo: usize = from;
    while lo < to && is_whitespace(cs[lo])
        invariant
            from <= lo <= to <= cs.len(),
            trim_start(cs@.subrange(from as int, to as int)) == trim_start(
                cs@.subrange(lo as int, to as int),
            ),
        decreases to - lo,
    {
        assert(cs@.subrange(lo as int, to as int).drop_first() =~= cs@.subrange(
            lo + 1,
            to as int,
        ));
        lo = lo + 1;
    }
    let mut hi: usize = to;
    while hi > lo && is_whitespace(cs[hi - 1])
        invariant
            from <= lo <= hi <= to <= cs.len(),
            trim_end(cs@.subrange(lo as int, to as int)) == trim_end(
                cs@.subrange(lo as int, hi as int),
            ),
        decreases hi - lo,
    {
        assert(cs@.subrange(lo as int, hi as int).drop_last() =~= cs@.subrange(
            lo as int,
            hi - 1,
        ));
        hi = hi - 1;
    }
    (lo, hi)
}

/// The symbols written in `text`, whitespace skipped.
pub fn state_of(text: &str) -> (r: State)
    ensures
        r@ == symbols_in(text@),
{
    let cs = chars_of(text);
    let mut r: State = Vec::new();
    let mut i: usize = 0;
    while i < cs.len()
        invariant
            i <= cs.len(),
            cs@ == text@,
            r@ == symbols_in(cs@.take(i as int)),
        decreases cs.len() - i,
    {
        let c = cs[i];
        proof {
            reveal(Seq::filter);
            assert(cs@.take(i + 1).drop_last() =~= cs@.take(i as int));
        }
        if !is_whitespace(c) {
            r.push(Symbol::from(c));
            assert(r@ =~= symbols_in(cs@.take(i + 1)));
        }
        i = i + 1;
    }
    assert(cs@.take(cs.len() as int) =~= cs@);
    r
}

} // verus!
