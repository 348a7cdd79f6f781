use crate::lexer::{Error, ErrorKind, Spanned, SpannedView, TagType};
use crate::parser::{collect_texts, comment_run, count_run, error_at, texts_from, Shape};
use crate::text::{unlines, unlines_take};
use vstd::prelude::*;
use vstd::string::StringExecFns;

verus! {

/// Free text that stands in the help file as it was written.
#[derive(Debug, Clone, PartialEq, Eq)]
pub struct Brief {
    pub desc: Vec<String>,
}

/// What a `Brief` holds, as text.
pub struct BriefView {
    pub desc: Seq<Seq<char>>,
}

impl DeepView for Brief {
    type V = BriefView;

    open spec fn deep_view(&self) -> BriefView {
        BriefView { desc: self.desc.deep_view() }
    }
}

/// The text of a brief: its lines, untouched, and an empty line.
pub open spec fn brief_text(brief: BriefView) -> Seq<char> {
    unlines(brief.desc) + seq!['\n']
}

/// The brief that token `j` opens: the free text before it and the lines of
/// free text that follow it, which the end of the block must follow. Else the
/// block is not closed, an error at the place of token `j`.
pub open spec fn brief_from(toks: Seq<SpannedView>, j: int, lead: Seq<Seq<char>>) -> Result<
    (BriefView, nat),
    Error,
> {
    let n = comment_run(toks, j + 1);
    if j + 1 + n < toks.len() && toks[j + 1 + n].tag is BriefEnd {
        Ok((BriefView { desc: lead + texts_from(toks, j + 1, n) }, n + 1))
    } else {
        Err(error_at(ErrorKind::UnterminatedBlock, toks[j]))
    }
}

impl Brief {
    /// The brief that token `j` opens; see `brief_from`.
    pub fn parse(toks: &Vec<Spanned>, j: usize, lead: Vec<String>) -> (r: Result<
        (Brief, usize),
        Error,
    >)
        requires
            j < toks.len(),
        ensures
            match r {
                Ok((b, extra)) => brief_from(toks.deep_view(), j as int, lead.deep_view()) == Ok::<
                    (BriefView, nat),
                    Error,
                >((b.deep_view(), extra as nat)) && j + 1 + extra <= toks.len(),
                Err(e) => brief_from(toks.deep_view(), j as int, lead.deep_view()) == Err::<
                    (BriefView, nat),
                    Error,
                >(e),
            },
    {
        let n = count_run(toks, j + 1, Shape::Comment);
        let closed = j + 1 + n < toks.len() && match &toks[j + 1 + n].tag {
            TagType::BriefEnd => true,
            _ => false,
        };
        if closed {
            let mut desc = lead;
            collect_texts(toks, j + 1, n, &mut desc);
            Ok((Brief { desc }, n + 1))
        } else {
            Err(Error { kind: ErrorKind::UnterminatedBlock, line: toks[j].line, column: toks[j].column })
        }
    }

    /// The brief as help text.
    pub fn render(&self) -> (out: String)
        ensures
            out@ == brief_text(self.deep_view()),
    {
        let mut out = String::new();
        let ghost lines = self.deep_view().desc;
        let mut i: usize = 0;
        while i < self.desc.len()
            invariant
                i <= self.desc.len(),
                lines == self.deep_view().desc,
                out@ == unlines(lines.take(i as int)),
            decreases self.desc.len() - i,
        {
            out.append(self.desc[i].as_str());
            out.push('\n');
            proof {
                unlines_take(lines, i as int);
            }
            i += 1;
        }
        out.push('\n');
        assert(lines.take(i as int) =~= lines);
        out
    }
}

} // verus!
