//! Text as sequences of characters: the spec vocabulary that every contract of
//! this crate is written in, and the small executable pieces that build text.

use vstd::prelude::*;
use vstd::string::StrSliceExecFns;
use vstd::string::StringExecFns;

verus! {

/// `n` copies of `c`.
pub open spec fn repeat(c: char, n: nat) -> Seq<char> {
    Seq::new(n, |i: int| c)
}

/// `n` spaces.
pub open spec fn spaces(n: nat) -> Seq<char> {
    repeat(' ', n)
}

/// The parts written one after the other.
pub open spec fn concat<A>(parts: Seq<Seq<A>>) -> Seq<A>
    decreases parts.len(),
{
    if parts.len() == 0 {
        Seq::empty()
    } else {
        concat(parts.drop_last()) + parts.last()
    }
}

/// The lines joined by `sep`, which stands between two lines and nowhere else.
pub open spec fn join(lines: Seq<Seq<char>>, sep: Seq<char>) -> Seq<char>
    decreases lines.len(),
{
    if lines.len() == 0 {
        Seq::empty()
    } else if lines.len() == 1 {
        lines[0]
    } else {
        join(lines.drop_last(), sep) + sep + lines.last()
    }
}

/// The lines written one after the other, each closed by a newline.
pub open spec fn unlines(lines: Seq<Seq<char>>) -> Seq<char>
    decreases lines.len(),
{
    if lines.len() == 0 {
        Seq::empty()
    } else {
        unlines(lines.drop_last()) + lines.last() + seq!['\n']
    }
}

/// `line` behind `n` spaces; an empty line stays empty.
pub open spec fn indent(line: Seq<char>, n: nat) -> Seq<char> {
    if line.len() == 0 {
        line
    } else {
        spaces(n) + line
    }
}

/// Every line of `lines` indented by `n`.
pub open spec fn indent_all(lines: Seq<Seq<char>>, n: nat) -> Seq<Seq<char>> {
    Seq::new(lines.len(), |i: int| indent(lines[i], n))
}

/// Concatenation distributes over `+`: what is written first stays first.
pub proof fn concat_append<A>(a: Seq<Seq<A>>, b: Seq<Seq<A>>)
    ensures
        concat(a + b) == concat(a) + concat(b),
    decreases b.len(),
{
    if b.len() == 0 {
    } else {
        assert((a + b).drop_last() =~= a + b.drop_last());
        concat_append(a, b.drop_last());
    }
}

/// One more part at the end of `concat`.
pub proof fn concat_push<A>(a: Seq<Seq<A>>, part: Seq<A>)
    ensures
        concat(a.push(part)) == concat(a) + part,
{
    assert(a.push(part).drop_last() =~= a);
}

/// The first `n + 1` parts are the first `n` parts and part `n`.
pub proof fn concat_take<A>(a: Seq<Seq<A>>, n: int)
    requires
        0 <= n < a.len(),
    ensures
        concat(a.take(n + 1)) == concat(a.take(n)) + a[n],
{
    assert(a.take(n + 1).drop_last() =~= a.take(n));
}

/// The first `n + 1` joined are the first `n` joined, the separator unless
/// `n` is 0, and line `n`.
pub proof fn join_take(a: Seq<Seq<char>>, sep: Seq<char>, n: int)
    requires
        0 <= n < a.len(),
    ensures
        join(a.take(n + 1), sep) == if n == 0 {
            a[0]
        } else {
            join(a.take(n), sep) + sep + a[n]
        },
{
    assert(a.take(n + 1).drop_last() =~= a.take(n));
}

/// Joining with a first line put in front.
pub proof fn join_first(first: Seq<char>, rest: Seq<Seq<char>>, sep: Seq<char>)
    requires
        rest.len() >= 1,
    ensures
        join(seq![first] + rest, sep) == first + sep + join(rest, sep),
    decreases rest.len(),
{
    let all = seq![first] + rest;
    assert(all.drop_last() =~= seq![first] + rest.drop_last());
    if rest.len() == 1 {
        assert(join(all.drop_last(), sep) == first);
    } else {
        join_first(first, rest.drop_last(), sep);
    }
}

/// Part `i` stands in the concatenation as it is, behind all the parts
/// before it and before all the parts after it.
pub proof fn concat_keeps_order<A>(parts: Seq<Seq<A>>, i: int)
    requires
        0 <= i < parts.len(),
    ensures
        concat(parts) == concat(parts.take(i)) + parts[i] + concat(parts.skip(i + 1)),
{
    assert(parts =~= parts.take(i + 1) + parts.skip(i + 1));
    concat_append(parts.take(i + 1), parts.skip(i + 1));
    concat_take(parts, i);
}

/// The first `n + 1` lines are the first `n` lines and line `n`.
pub proof fn unlines_take(a: Seq<Seq<char>>, n: int)
    requires
        0 <= n < a.len(),
    ensures
        unlines(a.take(n + 1)) == unlines(a.take(n)) + a[n] + seq!['\n'],
{
    assert(a.take(n + 1).drop_last() =~= a.take(n));
}

/// `unlines` distributes over `+`.
pub proof fn unlines_append(a: Seq<Seq<char>>, b: Seq<Seq<char>>)
    ensures
        unlines(a + b) == unlines(a) + unlines(b),
    decreases b.len(),
{
    if b.len() == 0 {
    } else {
        assert((a + b).drop_last() =~= a + b.drop_last());
        unlines_append(a, b.drop_last());
    }
}

/// One more line at the end of `unlines`.
pub proof fn unlines_push(a: Seq<Seq<char>>, line: Seq<char>)
    ensures
        unlines(a.push(line)) == unlines(a) + line + seq!['\n'],
{
    assert(a.push(line).drop_last() =~= a);
}

/// `String::push` of std: the string afterwards is the string before with `c`
/// as one more character at its end.
pub assume_specification[ String::push ](s: &mut String, c: char)
    ensures
        final(s)@ == old(s)@.push(c),
;

/// The characters of `s`.
pub fn chars_of(s: &str) -> (v: Vec<char>)
    ensures
        v@ == s@,
{
    let mut v: Vec<char> = Vec::new();
    for c in it: s.chars()
        invariant
            it.seq() == s@,
            v@ == it.seq().take(it.index()),
    {
        v.push(c);
    }
    v
}

/// The string that holds the characters of `v`.
pub fn string_of(v: &[char]) -> (s: String)
    ensures
        s@ == v@,
{
    let mut s = String::new();
    let mut i: usize = 0;
    while i < v.len()
        invariant
            i <= v.len(),
            s@ == v@.take(i as int),
        decreases v.len() - i,
    {
        s.push(v[i]);
        i += 1;
    }
    s
}

/// Number of characters of `s`.
pub fn char_len(s: &str) -> (n: usize)
    ensures
        n == s@.len(),
{
    s.unicode_len()
}

/// Appends `n` copies of `c` to `out`.
pub fn push_repeat(out: &mut String, c: char, n: usize)
    ensures
        final(out)@ == old(out)@ + repeat(c, n as nat),
{
    let mut i: usize = 0;
    while i < n
        invariant
            i <= n,
            out@ == old(out)@ + repeat(c, i as nat),
        decreases n - i,
    {
        out.push(c);
        i += 1;
    }
}

/// Appends `n` spaces to `out`.
pub fn push_spaces(out: &mut String, n: usize)
    ensures
        final(out)@ == old(out)@ + spaces(n as nat),
{
    push_repeat(out, ' ', n);
}

/// Appends `line`, behind `n` spaces unless it is empty, and a newline.
pub fn push_indented(out: &mut String, line: &str, n: usize)
    ensures
        final(out)@ == old(out)@ + indent(line@, n as nat) + seq!['\n'],
{
    if !line.is_empty() {
        push_spaces(out, n);
    }
    out.append(line);
    out.push('\n');
}

/// Whether the characters of `a` are those of `b`.
pub fn text_eq(a: &[char], b: &str) -> (r: bool)
    ensures
        r == (a@ == b@),
{
    let w = chars_of(b);
    if a.len() != w.len() {
        return false;
    }
    let mut i: usize = 0;
    while i < a.len()
        invariant
            i <= a.len(),
            a.len() == w.len(),
            w@ == b@,
            a@.take(i as int) == w@.take(i as int),
        decreases a.len() - i,
    {
        if a[i] != w[i] {
            return false;
        }
        i += 1;
    }
    assert(a@ =~= a@.take(a.len() as int));
    assert(w@ =~= w@.take(w.len() as int));
    true
}

/// Whether two strings hold the same characters.
pub fn str_eq(a: &str, b: &str) -> (r: bool)
    ensures
        r == (a@ == b@),
{
    let a = chars_of(a);
    text_eq(a.as_slice(), b)
}

} // verus!
