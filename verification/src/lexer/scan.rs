//! Runs of characters: the pieces that a line is taken apart into.

use vstd::prelude::*;
use vstd::slice::slice_subrange;

verus! {

/// The sets of characters that the lexer tells apart.
#[derive(Debug, Clone, Copy, PartialEq, Eq, Structural)]
pub enum Charset {
    /// Space, tab and carriage return.
    Blank,
    /// Everything but a blank: what a word is made of.
    Word,
    /// Letters, digits and the underscore: what an identifier is made of.
    Ident,
    /// Everything but a newline: what a line is made of.
    Line,
}

/// Whether `c` is a space, a tab or a carriage return.
pub open spec fn is_blank(c: char) -> bool {
    c == ' ' || c == '\t' || c == '\r'
}

/// Whether `c` is an ASCII letter, a digit or the underscore.
pub open spec fn is_ident_char(c: char) -> bool {
    ('a' <= c && c <= 'z') || ('A' <= c && c <= 'Z') || ('0' <= c && c <= '9') || c == '_'
}

impl Charset {
    /// Whether `c` is in the set.
    pub open spec fn holds(self, c: char) -> bool {
        match self {
            Charset::Blank => is_blank(c),
            Charset::Word => !is_blank(c),
            Charset::Ident => is_ident_char(c),
            Charset::Line => c != '\n',
        }
    }

    /// Whether `c` is in the set.
    pub fn contains(&self, c: char) -> (r: bool)
        ensures
            r == self.holds(c),
    {
        match self {
            Charset::Blank => c == ' ' || c == '\t' || c == '\r',
            Charset::Word => !(c == ' ' || c == '\t' || c == '\r'),
            Charset::Ident => ('a' <= c && c <= 'z') || ('A' <= c && c <= 'Z') || ('0' <= c && c
                <= '9') || c == '_',
            Charset::Line => c != '\n',
        }
    }
}

/// Number of characters at the start of `s` that are all in `set`.
pub open spec fn run(s: Seq<char>, set: Charset) -> nat
    decreases s.len(),
{
    if s.len() > 0 && set.holds(s[0]) {
        1 + run(s.drop_first(), set)
    } else {
        0
    }
}

/// Number of characters at the end of `s` that are all in `set`.
pub open spec fn run_back(s: Seq<char>, set: Charset) -> nat
    decreases s.len(),
{
    if s.len() > 0 && set.holds(s.last()) {
        1 + run_back(s.drop_last(), set)
    } else {
        0
    }
}

/// `s` without the blanks at its start.
pub open spec fn trim_start(s: Seq<char>) -> Seq<char> {
    s.skip(run(s, Charset::Blank) as int)
}

/// `s` without the blanks at its end.
pub open spec fn trim_end(s: Seq<char>) -> Seq<char> {
    s.take(s.len() - run_back(s, Charset::Blank))
}

/// `s` without the blanks at its start and at its end.
pub open spec fn trim(s: Seq<char>) -> Seq<char> {
    trim_end(trim_start(s))
}

/// The word at the start of `s`: everything up to the first blank.
pub open spec fn word(s: Seq<char>) -> Seq<char> {
    s.take(run(s, Charset::Word) as int)
}

/// What follows the word at the start of `s` and the blanks behind it.
pub open spec fn after_word(s: Seq<char>) -> Seq<char> {
    trim_start(s.skip(run(s, Charset::Word) as int))
}

/// The identifier at the start of `s`; empty where `s` begins with none.
pub open spec fn ident(s: Seq<char>) -> Seq<char> {
    s.take(run(s, Charset::Ident) as int)
}

/// What follows the identifier at the start of `s`.
pub open spec fn after_ident(s: Seq<char>) -> Seq<char> {
    s.skip(run(s, Charset::Ident) as int)
}

/// Whether `s` begins with `p`.
pub open spec fn starts_with(s: Seq<char>, p: Seq<char>) -> bool {
    s.len() >= p.len() && s.take(p.len() as int) == p
}

/// Whether `s` begins with the keyword `kw`: with its letters, and no
/// character of an identifier behind them.
pub open spec fn keyword(s: Seq<char>, kw: Seq<char>) -> bool {
    starts_with(s, kw) && (s.len() == kw.len() || !is_ident_char(s[kw.len() as int]))
}

/// What follows a keyword of the length of `kw` and the blanks behind it.
pub open spec fn after_keyword(s: Seq<char>, kw: Seq<char>) -> Seq<char> {
    trim_start(s.skip(kw.len() as int))
}

/// `s` as an optional text: none where it is empty.
pub open spec fn optional_text(s: Seq<char>) -> Option<Seq<char>> {
    if s.len() == 0 {
        None
    } else {
        Some(s)
    }
}

/// A run is a prefix: it is no longer than the text, all of its characters
/// are in the set, and the character behind it is not.
pub proof fn run_is_longest(s: Seq<char>, set: Charset)
    ensures
        run(s, set) <= s.len(),
        forall|i: int| 0 <= i < run(s, set) ==> set.holds(s[i]),
        run(s, set) < s.len() ==> !set.holds(s[run(s, set) as int]),
    decreases s.len(),
{
    if s.len() > 0 && set.holds(s[0]) {
        run_is_longest(s.drop_first(), set);
        assert forall|i: int| 0 <= i < run(s, set) implies set.holds(s[i]) by {
            if i > 0 {
                assert(s[i] == s.drop_first()[i - 1]);
            }
        }
    }
}

/// A run at the end is a suffix: it is no longer than the text, all of its
/// characters are in the set, and the character before it is not.
pub proof fn run_back_is_longest(s: Seq<char>, set: Charset)
    ensures
        run_back(s, set) <= s.len(),
        forall|i: int| s.len() - run_back(s, set) <= i < s.len() ==> set.holds(s[i]),
        run_back(s, set) < s.len() ==> !set.holds(s[s.len() - run_back(s, set) - 1]),
    decreases s.len(),
{
    if s.len() > 0 && set.holds(s.last()) {
        let t = s.drop_last();
        run_back_is_longest(t, set);
        assert forall|i: int| s.len() - run_back(s, set) <= i < s.len() implies set.holds(s[i]) by {
            if i < s.len() - 1 {
                assert(s[i] == t[i]);
            }
        }
    }
}

/// Length of the run of `set` at the start of `s`.
pub fn run_len(s: &[char], set: Charset) -> (n: usize)
    ensures
        n == run(s@, set),
        n <= s.len(),
{
    let mut i: usize = 0;
    assert(s@.skip(0) =~= s@);
    while i < s.len() && set.contains(s[i])
        invariant
            i <= s.len(),
            run(s@, set) == i + run(s@.skip(i as int), set),
        decreases s.len() - i,
    {
        assert(s@.skip(i as int).drop_first() =~= s@.skip(i + 1));
        i += 1;
    }
    i
}

/// Length of the run of `set` at the end of `s`.
pub fn run_back_len(s: &[char], set: Charset) -> (n: usize)
    ensures
        n == run_back(s@, set),
        n <= s.len(),
{
    let mut i: usize = s.len();
    assert(s@.take(i as int) =~= s@);
    while i > 0 && set.contains(s[i - 1])
        invariant
            i <= s.len(),
            run_back(s@, set) == (s.len() - i) + run_back(s@.take(i as int), set),
        decreases i,
    {
        assert(s@.take(i as int).drop_last() =~= s@.take(i - 1));
        i -= 1;
    }
    s.len() - i
}

/// `s` from index `from` on.
pub fn skip(s: &[char], from: usize) -> (r: &[char])
    requires
        from <= s.len(),
    ensures
        r@ == s@.skip(from as int),
{
    slice_subrange(s, from, s.len())
}

/// The first `n` characters of `s`.
pub fn take(s: &[char], n: usize) -> (r: &[char])
    requires
        n <= s.len(),
    ensures
        r@ == s@.take(n as int),
{
    slice_subrange(s, 0, n)
}

/// `s` without the blanks at its start.
pub fn skip_blanks(s: &[char]) -> (r: &[char])
    ensures
        r@ == trim_start(s@),
{
    let n = run_len(s, Charset::Blank);
    skip(s, n)
}

/// `s` without the blanks at its start and at its end.
pub fn strip(s: &[char]) -> (r: &[char])
    ensures
        r@ == trim(s@),
{
    let t = skip_blanks(s);
    let n = run_back_len(t, Charset::Blank);
    take(t, t.len() - n)
}

/// The word at the start of `s`, and what follows it and the blanks behind it.
pub fn split_word(s: &[char]) -> (r: (&[char], &[char]))
    ensures
        r.0@ == word(s@),
        r.1@ == after_word(s@),
{
    let n = run_len(s, Charset::Word);
    (take(s, n), skip_blanks(skip(s, n)))
}

/// The identifier at the start of `s`, and what follows it.
pub fn split_ident(s: &[char]) -> (r: (&[char], &[char]))
    ensures
        r.0@ == ident(s@),
        r.1@ == after_ident(s@),
{
    let n = run_len(s, Charset::Ident);
    (take(s, n), skip(s, n))
}

} // verus!
