//! Wrapping of free text: a line that is too long is broken at spaces, and no
//! word is ever cut.

use crate::text::{join, join_first, string_of};
use vstd::prelude::*;
use vstd::slice::slice_subrange;

verus! {

/// Index of the last space of `line` among the indices `1..=limit`, or 0 where
/// there is none.
pub open spec fn last_space_upto(line: Seq<char>, limit: int) -> int
    decreases limit,
{
    if limit < 1 {
        0
    } else if limit < line.len() && line[limit] == ' ' {
        limit
    } else {
        last_space_upto(line, limit - 1)
    }
}

/// Index of the first space of `line` at or after `from`, or the length of the
/// line where there is none.
pub open spec fn first_space_from(line: Seq<char>, from: int) -> int
    decreases line.len() - from,
{
    if from >= line.len() {
        line.len() as int
    } else if from >= 0 && line[from] == ' ' {
        from
    } else {
        first_space_from(line, from + 1)
    }
}

/// Where a line longer than `avail` is broken: at the last space that leaves
/// at most `avail` characters before it, or, where the first word alone is
/// longer than that, at the first space at all. The length of the line where
/// it holds no such space.
pub open spec fn break_point(line: Seq<char>, avail: nat) -> int {
    let p = last_space_upto(line, avail as int);
    if p >= 1 {
        p
    } else {
        first_space_from(line, avail as int + 1)
    }
}

/// The line broken into lines of at most `avail` characters, as far as its
/// spaces allow. The space at which a line is broken goes; nothing else does.
pub open spec fn wrap(line: Seq<char>, avail: nat) -> Seq<Seq<char>>
    decreases line.len(),
{
    if line.len() <= avail {
        seq![line]
    } else {
        let p = break_point(line, avail);
        if 1 <= p < line.len() {
            seq![line.take(p)] + wrap(line.skip(p + 1), avail)
        } else {
            seq![line]
        }
    }
}


/// Whether `line` holds no space behind its first character.
pub open spec fn unbreakable(line: Seq<char>) -> bool {
    forall|i: int| 1 <= i < line.len() ==> line[i] != ' '
}

proof fn last_space_upto_is_space(line: Seq<char>, limit: int)
    ensures
        0 <= last_space_upto(line, limit),
        last_space_upto(line, limit) <= limit || last_space_upto(line, limit) == 0,
        last_space_upto(line, limit) >= 1 ==> last_space_upto(line, limit) < line.len() && line[last_space_upto(
            line,
            limit,
        )] == ' ',
        last_space_upto(line, limit) == 0 ==> forall|i: int|
            1 <= i <= limit && i < line.len() ==> line[i] != ' ',
    decreases limit,
{
    if limit >= 1 && !(limit < line.len() && line[limit] == ' ') {
        last_space_upto_is_space(line, limit - 1);
    }
}

proof fn first_space_from_is_space(line: Seq<char>, from: int)
    requires
        0 <= from,
    ensures
        from <= first_space_from(line, from) || first_space_from(line, from) == line.len(),
        first_space_from(line, from) <= line.len(),
        first_space_from(line, from) < line.len() ==> line[first_space_from(line, from)] == ' ',
        forall|i: int| from <= i < first_space_from(line, from) ==> line[i] != ' ',
    decreases line.len() - from,
{
    if from < line.len() && line[from] != ' ' {
        first_space_from_is_space(line, from + 1);
    }
}

/// What `break_point` returns: a space of the line, chosen as its doc comment says.
pub proof fn break_point_is_space(line: Seq<char>, avail: nat)
    requires
        line.len() > avail,
    ensures
        ({
            let p = break_point(line, avail);
            &&& 0 <= p <= line.len()
            &&& p < line.len() ==> p >= 1 && line[p] == ' '
            &&& p > avail ==> forall|i: int| 1 <= i < p ==> line[i] != ' '
            &&& p <= avail ==> forall|i: int| p < i <= avail ==> line[i] != ' '
        }),
{
    last_space_upto_is_space(line, avail as int);
    first_space_from_is_space(line, avail as int + 1);
    last_space_rightmost(line, avail as int);
}

proof fn last_space_rightmost(line: Seq<char>, limit: int)
    ensures
        forall|i: int|
            last_space_upto(line, limit) < i <= limit && 1 <= i < line.len() ==> line[i] != ' ',
    decreases limit,
{
    if limit >= 1 && !(limit < line.len() && line[limit] == ' ') {
        last_space_rightmost(line, limit - 1);
    }
}

/// Wrapping loses nothing: the wrapped lines, joined by single spaces, are the line.
pub proof fn wrap_keeps_text(line: Seq<char>, avail: nat)
    ensures
        wrap(line, avail).len() >= 1,
        join(wrap(line, avail), seq![' ']) == line,
    decreases line.len(),
{
    if line.len() > avail {
        let p = break_point(line, avail);
        if 1 <= p < line.len() {
            break_point_is_space(line, avail);
            wrap_keeps_text(line.skip(p + 1), avail);
            join_first(line.take(p), wrap(line.skip(p + 1), avail), seq![' ']);
        }
    }
}

/// Every wrapped line fits into `avail` characters, unless it is a single word
/// that is longer: a line is broken wherever a space allows it.
pub proof fn wrap_fits(line: Seq<char>, avail: nat, k: int)
    requires
        0 <= k < wrap(line, avail).len(),
    ensures
        wrap(line, avail)[k].len() <= avail || unbreakable(wrap(line, avail)[k]),
    decreases line.len(),
{
    if line.len() > avail {
        let p = break_point(line, avail);
        break_point_is_space(line, avail);
        if 1 <= p < line.len() {
            if k > 0 {
                wrap_fits(line.skip(p + 1), avail, k - 1);
            }
        }
    }
}

/// The lines that `line` wraps into.
pub fn wrap_line(line: &[char], avail: usize) -> (out: Vec<String>)
    ensures
        out.deep_view() == wrap(line@, avail as nat),
{
    let mut out: Vec<String> = Vec::new();
    let mut start: usize = 0;
    let n = line.len();
    assert(line@.skip(0) =~= line@);
    loop
        invariant
            start <= n,
            n == line.len(),
            wrap(line@, avail as nat) == out.deep_view() + wrap(line@.skip(start as int), avail as nat),
        ensures
            wrap(line@.skip(start as int), avail as nat) == seq![line@.skip(start as int)],
        decreases n - start,
    {
        let ghost rest = line@.skip(start as int);
        if n - start <= avail {
            break ;
        }
        // the last space among the indices 1..=avail of the rest
        let mut p: usize = avail;
        while p >= 1 && line[start + p] != ' '
            invariant
                p <= avail,
                avail < n - start,
                n == line.len(),
                rest == line@.skip(start as int),
                last_space_upto(rest, avail as int) == last_space_upto(rest, p as int),
            decreases p,
        {
            p -= 1;
        }
        if p == 0 {
            // the first word is too long: the first space behind it
            let mut q: usize = avail + 1;
            while q < n - start && line[start + q] != ' '
                invariant
                    avail < q <= n - start,
                    n == line.len(),
                    rest == line@.skip(start as int),
                    first_space_from(rest, avail + 1) == first_space_from(rest, q as int),
                decreases n - start - q,
            {
                q += 1;
            }
            p = q;
        }
        if p >= n - start {
            break ;
        }
        let piece = string_of(slice_subrange(line, start, start + p));
        out.push(piece);
        assert(line@.subrange(start as int, start + p) =~= rest.take(p as int));
        assert(rest.skip(p + 1) =~= line@.skip(start + p + 1));
        start = start + p + 1;
    }
    let last = string_of(slice_subrange(line, start, n));
    out.push(last);
    out
}

} // verus!
