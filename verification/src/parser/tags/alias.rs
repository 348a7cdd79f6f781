use crate::lexer::{Error, Spanned, SpannedView, TagType, TagView};
use crate::parser::{
    collect_texts, comment_run, count_run, texts_from, Prefix, PrefixView, Shape,
};
use crate::text::spaces;
use crate::vimdoc::{
    description_text, header, header_line, label, push_description, push_label, TABLE_INDENT,
    TEXT_WIDTH,
};
use crate::text::push_spaces;
use vstd::prelude::*;
use vstd::string::StringExecFns;

verus! {

/// A name for a type.
#[derive(Debug, Clone, PartialEq, Eq)]
pub struct Alias {
    pub name: String,
    pub ty: String,
    pub desc: Vec<String>,
    pub prefix: Prefix,
}

/// What an `Alias` holds, as text.
pub struct AliasView {
    pub name: Seq<char>,
    pub ty: Seq<char>,
    pub desc: Seq<Seq<char>>,
    pub prefix: PrefixView,
}

impl DeepView for Alias {
    type V = AliasView;

    open spec fn deep_view(&self) -> AliasView {
        AliasView {
            name: self.name@,
            ty: self.ty@,
            desc: self.desc.deep_view(),
            prefix: self.prefix.deep_view(),
        }
    }
}

/// The help tag of something that a module names: the name alone, or behind
/// the prefix that it is shown under and a dot.
pub open spec fn dotted_tag(prefix: Option<Seq<char>>, name: Seq<char>) -> Seq<char> {
    match prefix {
        Some(p) => p + seq!['.'] + name,
        None => name,
    }
}

/// An alias as help text: the header line with the alias's name, the
/// description, an empty line, the section that holds the type as it was
/// written, and an empty line.
pub open spec fn alias_text(a: AliasView) -> Seq<char> {
    header_line(a.name, dotted_tag(a.prefix.right, a.name), TEXT_WIDTH as nat) + seq!['\n']
        + description_text(a.desc) + seq!['\n'] + label("Type:"@) + spaces(TABLE_INDENT as nat)
        + a.ty + seq!['\n', '\n', '\n']
}

/// The tag for `name` under `prefix`; see `dotted_tag`.
pub fn make_dotted_tag(prefix: &Option<String>, name: &str) -> (tag: String)
    ensures
        tag@ == dotted_tag(prefix.deep_view(), name@),
{
    let mut tag = String::new();
    match prefix {
        Some(p) => {
            tag.append(p.as_str());
            tag.push('.');
        },
        None => {},
    }
    tag.append(name);
    tag
}

/// The alias that token `j` names: its description is the free text before
/// the token and the free text that follows it. It has no prefix yet.
pub open spec fn alias_from(toks: Seq<SpannedView>, j: int, lead: Seq<Seq<char>>) -> Result<
    (AliasView, nat),
    Error,
> {
    let n = comment_run(toks, j + 1);
    let prefix = PrefixView { left: None, right: None };
    match toks[j].tag {
        TagView::Alias { name, ty } => Ok(
            (AliasView { name, ty, desc: lead + texts_from(toks, j + 1, n), prefix }, n),
        ),
        _ => Ok((AliasView { name: Seq::empty(), ty: Seq::empty(), desc: lead, prefix }, 0)),
    }
}

impl Alias {
    /// The alias that token `j` names; see `alias_from`.
    pub fn parse(toks: &Vec<Spanned>, j: usize, lead: Vec<String>) -> (r: (Alias, usize))
        requires
            j < toks.len(),
        ensures
            alias_from(toks.deep_view(), j as int, lead.deep_view()) == Ok::<
                (AliasView, nat),
                Error,
            >((r.0.deep_view(), r.1 as nat)),
            j + 1 + r.1 <= toks.len(),
    {
        let prefix = Prefix { left: None, right: None };
        match &toks[j].tag {
            TagType::Alias { name, ty } => {
                let n = count_run(toks, j + 1, Shape::Comment);
                let mut desc = lead;
                collect_texts(toks, j + 1, n, &mut desc);
                (Alias { name: name.clone(), ty: ty.clone(), desc, prefix }, n)
            },
            _ => (Alias { name: String::new(), ty: String::new(), desc: lead, prefix }, 0),
        }
    }

    /// Puts `tag` in place of the prefix that the help tag shows.
    pub fn rename_tag(&mut self, tag: String)
        ensures
            final(self).deep_view() == (AliasView {
                prefix: PrefixView { left: old(self).deep_view().prefix.left, right: Some(tag@) },
                ..old(self).deep_view()
            }),
    {
        self.prefix.right = Some(tag);
    }

    /// The alias as help text.
    pub fn render(&self) -> (out: String)
        ensures
            out@ == alias_text(self.deep_view()),
    {
        let tag = make_dotted_tag(&self.prefix.right, self.name.as_str());
        let mut out = header(self.name.as_str(), tag.as_str(), TEXT_WIDTH);
        out.push('\n');
        push_description(&mut out, &self.desc);
        out.push('\n');
        push_label(&mut out, "Type:");
        push_spaces(&mut out, TABLE_INDENT);
        out.append(self.ty.as_str());
        out.push('\n');
        out.push('\n');
        out.push('\n');
        out
    }
}

} // verus!
