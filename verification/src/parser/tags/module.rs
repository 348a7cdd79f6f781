use crate::lexer::{Error, Spanned, SpannedView, TagType, TagView};
use crate::parser::{
    collect_texts, comment_run, copy_optional, count_run, or_empty, texts_from, Shape,
};
use crate::text::{push_repeat, repeat};
use crate::vimdoc::{description_text, header, header_line, push_description, TEXT_WIDTH};
use vstd::prelude::*;
use vstd::string::StringExecFns;

verus! {

/// The module that a file documents.
#[derive(Debug, Clone, PartialEq, Eq)]
pub struct Module {
    /// The name that the module is required by; it is the module's help tag.
    pub name: String,
    /// What stands behind the name on the line that names the module.
    pub title: Option<String>,
    /// The free text before and after that line.
    pub desc: Vec<String>,
}

/// What a `Module` holds, as text.
pub struct ModuleView {
    pub name: Seq<char>,
    pub title: Option<Seq<char>>,
    pub desc: Seq<Seq<char>>,
}

impl DeepView for Module {
    type V = ModuleView;

    open spec fn deep_view(&self) -> ModuleView {
        ModuleView { name: self.name@, title: self.title.deep_view(), desc: self.desc.deep_view() }
    }
}

/// A rule across the text width.
pub open spec fn rule() -> Seq<char> {
    repeat('=', TEXT_WIDTH as nat) + seq!['\n']
}

/// A module as help text: a rule, the header line with the module's title and
/// its name as tag, the description, and an empty line.
pub open spec fn module_text(m: ModuleView) -> Seq<char> {
    rule() + header_line(or_empty(m.title), m.name, TEXT_WIDTH as nat) + seq!['\n']
        + description_text(m.desc) + seq!['\n']
}

/// The module that token `j` names: its description is the free text before
/// the token and the free text that follows it.
pub open spec fn module_from(toks: Seq<SpannedView>, j: int, lead: Seq<Seq<char>>) -> Result<
    (ModuleView, nat),
    Error,
> {
    let n = comment_run(toks, j + 1);
    match toks[j].tag {
        TagView::Module { name, desc } => Ok(
            (ModuleView { name, title: desc, desc: lead + texts_from(toks, j + 1, n) }, n),
        ),
        _ => Ok((ModuleView { name: Seq::empty(), title: None, desc: lead }, 0)),
    }
}

impl Module {
    /// The module that token `j` names; see `module_from`.
    pub fn parse(toks: &Vec<Spanned>, j: usize, lead: Vec<String>) -> (r: (Module, usize))
        requires
            j < toks.len(),
        ensures
            module_from(toks.deep_view(), j as int, lead.deep_view()) == Ok::<
                (ModuleView, nat),
                Error,
            >((r.0.deep_view(), r.1 as nat)),
            j + 1 + r.1 <= toks.len(),
    {
        match &toks[j].tag {
            TagType::Module { name, desc } => {
                let n = count_run(toks, j + 1, Shape::Comment);
                let mut text = lead;
                collect_texts(toks, j + 1, n, &mut text);
                (Module { name: name.clone(), title: copy_optional(desc), desc: text }, n)
            },
            _ => (Module { name: String::new(), title: None, desc: lead }, 0),
        }
    }

    /// The module as help text.
    pub fn render(&self) -> (out: String)
        ensures
            out@ == module_text(self.deep_view()),
    {
        let mut out = String::new();
        push_repeat(&mut out, '=', TEXT_WIDTH);
        out.push('\n');
        let line = match &self.title {
            Some(title) => header(title.as_str(), self.name.as_str(), TEXT_WIDTH),
            None => header("", self.name.as_str(), TEXT_WIDTH),
        };
        assert(""@ =~= Seq::<char>::empty()) by {
            reveal_strlit("");
        }
        out.append(line.as_str());
        out.push('\n');
        push_description(&mut out, &self.desc);
        out.push('\n');
        out
    }
}

} // verus!
