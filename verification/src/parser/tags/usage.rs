use crate::lexer::{Error, ErrorKind, Spanned, SpannedView, TagType};
use crate::parser::{collect_texts, comment_run, count_run, error_at, texts_from, Shape};
use crate::text::{indent_all, push_indented, unlines, unlines_take};
use crate::vimdoc::{label, push_label, TABLE_INDENT};
use vstd::prelude::*;
use vstd::string::StringExecFns;

verus! {

/// An example of use: lines of code, kept as they were written.
#[derive(Debug, Clone, PartialEq, Eq)]
pub struct Usage {
    pub code: Vec<String>,
}

/// What a `Usage` holds, as text.
pub struct UsageView {
    pub code: Seq<Seq<char>>,
}

impl DeepView for Usage {
    type V = UsageView;

    open spec fn deep_view(&self) -> UsageView {
        UsageView { code: self.code.deep_view() }
    }
}

/// The usage section: a label, the code between the marks that open and close
/// a block of Lua code, each line of code indented and otherwise untouched,
/// and an empty line.
pub open spec fn usage_text(usage: UsageView) -> Seq<char> {
    label("Usage:"@) + ">lua\n"@ + unlines(indent_all(usage.code, TABLE_INDENT as nat)) + "<\n\n"@
}

/// The usage section of an entry that may have none.
pub open spec fn optional_usage_text(usage: Option<UsageView>) -> Seq<char> {
    match usage {
        Some(u) => usage_text(u),
        None => Seq::empty(),
    }
}

/// The example of use that begins with token `i`, if one begins there, and
/// the number of its tokens: one line of code, or a block, whose lines of
/// free text are the code, as they are. A block that its end does not follow
/// is an error at the place where it opens.
pub open spec fn usage_from(toks: Seq<SpannedView>, i: int) -> Result<
    (Option<UsageView>, nat),
    Error,
> {
    if 0 <= i < toks.len() && toks[i].tag is Usage {
        Ok((Some(UsageView { code: texts_from(toks, i, 1) }), 1))
    } else if 0 <= i < toks.len() && toks[i].tag is UsageStart {
        let n = comment_run(toks, i + 1);
        if i + 1 + n < toks.len() && toks[i + 1 + n].tag is UsageEnd {
            Ok((Some(UsageView { code: texts_from(toks, i + 1, n) }), n + 2))
        } else {
            Err(error_at(ErrorKind::UnterminatedBlock, toks[i]))
        }
    } else {
        Ok((None, 0))
    }
}

impl Usage {
    /// The example of use that begins with token `i`; see `usage_from`.
    pub fn parse(toks: &Vec<Spanned>, i: usize) -> (r: Result<(Option<Usage>, usize), Error>)
        requires
            i <= toks.len(),
        ensures
            match r {
                Ok((usage, n)) => usage_from(toks.deep_view(), i as int) == Ok::<
                    (Option<UsageView>, nat),
                    Error,
                >((usage.deep_view(), n as nat)) && i + n <= toks.len(),
                Err(e) => usage_from(toks.deep_view(), i as int) == Err::<
                    (Option<UsageView>, nat),
                    Error,
                >(e),
            },
    {
        if i >= toks.len() {
            return Ok((None, 0));
        }
        match &toks[i].tag {
            TagType::Usage(_) => {
                let mut code: Vec<String> = Vec::new();
                collect_texts(toks, i, 1, &mut code);
                Ok((Some(Usage { code }), 1))
            },
            TagType::UsageStart => {
                let n = count_run(toks, i + 1, Shape::Comment);
                let closed = i + 1 + n < toks.len() && match &toks[i + 1 + n].tag {
                    TagType::UsageEnd => true,
                    _ => false,
                };
                if closed {
                    let mut code: Vec<String> = Vec::new();
                    collect_texts(toks, i + 1, n, &mut code);
                    Ok((Some(Usage { code }), n + 2))
                } else {
                    Err(
                        Error {
                            kind: ErrorKind::UnterminatedBlock,
                            line: toks[i].line,
                            column: toks[i].column,
                        },
                    )
                }
            },
            _ => Ok((None, 0)),
        }
    }

    /// Appends the usage section to `out`.
    pub fn render_into(&self, out: &mut String)
        ensures
            final(out)@ == old(out)@ + usage_text(self.deep_view()),
    {
        push_label(out, "Usage:");
        out.append(">lua\n");
        let ghost base = out@;
        let ghost lines = indent_all(self.deep_view().code, TABLE_INDENT as nat);
        let mut i: usize = 0;
        while i < self.code.len()
            invariant
                i <= self.code.len(),
                lines == indent_all(self.deep_view().code, TABLE_INDENT as nat),
                out@ == base + unlines(lines.take(i as int)),
            decreases self.code.len() - i,
        {
            push_indented(out, self.code[i].as_str(), TABLE_INDENT);
            proof {
                unlines_take(lines, i as int);
            }
            i += 1;
        }
        out.append("<\n\n");
        assert(lines.take(i as int) =~= lines);
    }
}

} // verus!
