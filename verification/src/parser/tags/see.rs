use crate::lexer::{Spanned, SpannedView};
use crate::parser::{collect_texts, count_run, texts_from, token_run, Shape};
use crate::text::{push_spaces, spaces, unlines, unlines_take};
use crate::vimdoc::{label, push_label, TABLE_INDENT};
use vstd::prelude::*;
use vstd::string::StringExecFns;

verus! {

/// Cross-references of an entry, in the order in which they were written.
#[derive(Debug, Clone, PartialEq, Eq)]
pub struct See {
    pub refs: Vec<String>,
}

/// What a `See` holds, as text.
pub struct SeeView {
    pub refs: Seq<Seq<char>>,
}

impl DeepView for See {
    type V = SeeView;

    open spec fn deep_view(&self) -> SeeView {
        SeeView { refs: self.refs.deep_view() }
    }
}

/// One cross-reference as a line of help text: a hot link between bars.
pub open spec fn see_line(name: Seq<char>) -> Seq<char> {
    spaces(TABLE_INDENT as nat) + seq!['|'] + name + seq!['|']
}

/// The lines of the references, one each, in their order.
pub open spec fn see_lines(refs: Seq<Seq<char>>) -> Seq<Seq<char>> {
    Seq::new(refs.len(), |i: int| see_line(refs[i]))
}

/// The section of cross-references: nothing where there are none, else a
/// label, one line for each reference, and an empty line.
pub open spec fn see_text(see: SeeView) -> Seq<char> {
    if see.refs.len() == 0 {
        Seq::empty()
    } else {
        label("See also:"@) + unlines(see_lines(see.refs)) + seq!['\n']
    }
}

/// The references from token `i` on: as many as follow each other, in their
/// order, and their number.
pub open spec fn see_from(toks: Seq<SpannedView>, i: int) -> (SeeView, nat) {
    let n = token_run(toks, i, Shape::See);
    (SeeView { refs: texts_from(toks, i, n) }, n)
}

impl See {
    /// The references from token `i` on; see `see_from`.
    pub fn parse(toks: &Vec<Spanned>, i: usize) -> (r: (See, usize))
        requires
            i <= toks.len(),
        ensures
            (r.0.deep_view(), r.1 as nat) == see_from(toks.deep_view(), i as int),
            i + r.1 <= toks.len(),
    {
        let n = count_run(toks, i, Shape::See);
        let mut refs: Vec<String> = Vec::new();
        collect_texts(toks, i, n, &mut refs);
        (See { refs }, n)
    }

    /// Appends the section of cross-references to `out`.
    pub fn render_into(&self, out: &mut String)
        ensures
            final(out)@ == old(out)@ + see_text(self.deep_view()),
    {
        if self.refs.len() == 0 {
            return ;
        }
        push_label(out, "See also:");
        let ghost base = out@;
        let ghost lines = see_lines(self.deep_view().refs);
        let mut i: usize = 0;
        while i < self.refs.len()
            invariant
                i <= self.refs.len(),
                lines == see_lines(self.deep_view().refs),
                out@ == base + unlines(lines.take(i as int)),
            decreases self.refs.len() - i,
        {
            push_spaces(out, TABLE_INDENT);
            out.push('|');
            out.append(self.refs[i].as_str());
            out.push('|');
            out.push('\n');
            proof {
                unlines_take(lines, i as int);
            }
            i += 1;
        }
        out.push('\n');
        assert(lines.take(i as int) =~= lines);
    }
}

} // verus!
