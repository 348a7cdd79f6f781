use crate::lexer::{Error, ErrorKind, Kind, Spanned, SpannedView, TagType, TagView};
use crate::parser::tags::func::{push_qualified, push_table_section, qualified, table_section};
use crate::parser::{
    collect_inline, collect_texts, comment_run, copy_optional, count_run, error_at, inline_text,
    texts_from, Prefix, PrefixView, Shape,
};
use crate::table::Table;
use crate::text::str_eq;
use crate::vimdoc::{
    description_text, header, header_line, in_parens, parenthesized, push_description, TEXT_WIDTH,
};
use vstd::prelude::*;

verus! {

/// A documented value of a module, with its type.
#[derive(Debug, Clone, PartialEq, Eq)]
pub struct Type {
    pub name: String,
    pub kind: Kind,
    pub prefix: Prefix,
    pub ty: String,
    pub desc: Vec<String>,
}

/// What a `Type` holds, as text.
pub struct TypeView {
    pub name: Seq<char>,
    pub kind: Kind,
    pub prefix: PrefixView,
    pub ty: Seq<char>,
    pub desc: Seq<Seq<char>>,
}

impl DeepView for Type {
    type V = TypeView;

    open spec fn deep_view(&self) -> TypeView {
        TypeView {
            name: self.name@,
            kind: self.kind,
            prefix: self.prefix.deep_view(),
            ty: self.ty@,
            desc: self.desc.deep_view(),
        }
    }
}

/// A type as help text: the header line with the value's name as the source
/// has it, the description, an empty line, the section that holds the type
/// between round brackets, and an empty line.
pub open spec fn type_text(t: TypeView) -> Seq<char> {
    header_line(
        qualified(t.prefix.left, t.kind, t.name),
        qualified(t.prefix.right, t.kind, t.name),
        TEXT_WIDTH as nat,
    ) + seq!['\n'] + description_text(t.desc) + seq!['\n'] + table_section(
        "Type:"@,
        seq![seq![parenthesized(t.ty)]],
    ) + seq!['\n']
}

/// The type that token `j` states. Its description is the free text before
/// the token, the description on the token's line, and the free text that
/// follows it. The definition of a value must follow: it gives the name, and
/// its prefix is the one that the source has and the one that is shown. Where
/// none follows, that is an error at the place of token `j`.
pub open spec fn type_from(toks: Seq<SpannedView>, j: int, lead: Seq<Seq<char>>) -> Result<
    (TypeView, nat),
    Error,
> {
    let n = comment_run(toks, j + 1);
    let m = j + 1 + n;
    if m < toks.len() {
        match (toks[j].tag, toks[m].tag) {
            (TagView::Type { ty, desc }, TagView::Expr { prefix, name, kind }) => Ok(
                (
                    TypeView {
                        name,
                        kind,
                        prefix: PrefixView { left: prefix, right: prefix },
                        ty,
                        desc: lead + inline_text(desc) + texts_from(toks, j + 1, n),
                    },
                    n + 1,
                ),
            ),
            _ => Err(error_at(ErrorKind::MissingDefinition, toks[j])),
        }
    } else {
        Err(error_at(ErrorKind::MissingDefinition, toks[j]))
    }
}

impl Type {
    /// The type that token `j` states; see `type_from`.
    pub fn parse(toks: &Vec<Spanned>, j: usize, lead: Vec<String>) -> (r: Result<
        (Type, usize),
        Error,
    >)
        requires
            j < toks.len(),
        ensures
            match r {
                Ok((t, extra)) => type_from(toks.deep_view(), j as int, lead.deep_view()) == Ok::<
                    (TypeView, nat),
                    Error,
                >((t.deep_view(), extra as nat)) && j + 1 + extra <= toks.len(),
                Err(e) => type_from(toks.deep_view(), j as int, lead.deep_view()) == Err::<
                    (TypeView, nat),
                    Error,
                >(e),
            },
    {
        let n = count_run(toks, j + 1, Shape::Comment);
        let m = j + 1 + n;
        let missing = Error {
            kind: ErrorKind::MissingDefinition,
            line: toks[j].line,
            column: toks[j].column,
        };
        if m >= toks.len() {
            return Err(missing);
        }
        match (&toks[j].tag, &toks[m].tag) {
            (TagType::Type { ty, desc }, TagType::Expr { prefix, name, kind }) => {
                let mut text = lead;
                collect_inline(desc, &mut text);
                collect_texts(toks, j + 1, n, &mut text);
                Ok(
                    (
                        Type {
                            name: name.clone(),
                            kind: *kind,
                            prefix: Prefix {
                                left: copy_optional(prefix),
                                right: copy_optional(prefix),
                            },
                            ty: ty.clone(),
                            desc: text,
                        },
                        n + 1,
                    ),
                )
            },
            _ => Err(missing),
        }
    }

    /// Puts `tag` in place of the prefix that the help tag shows. The prefix
    /// that the source has stays.
    pub fn rename_tag(&mut self, tag: String)
        ensures
            final(self).deep_view() == (TypeView {
                prefix: PrefixView { left: old(self).deep_view().prefix.left, right: Some(tag@) },
                ..old(self).deep_view()
            }),
    {
        self.prefix.right = Some(tag);
    }

    /// Whether the module that exports `export` exports this value: it is not
    /// local, and the prefix that the source has is `export`.
    pub fn is_public(&self, export: &str) -> (r: bool)
        ensures
            r == (self.kind != Kind::Local && self.deep_view().prefix.left == Some(export@)),
    {
        match self.kind {
            Kind::Local => false,
            _ => match &self.prefix.left {
                Some(left) => str_eq(left.as_str(), export),
                None => false,
            },
        }
    }

    /// The type as help text.
    pub fn render(&self) -> (out: String)
        ensures
            out@ == type_text(self.deep_view()),
    {
        let mut sig = String::new();
        push_qualified(&mut sig, &self.prefix.left, self.kind, self.name.as_str());
        let mut tag = String::new();
        push_qualified(&mut tag, &self.prefix.right, self.kind, self.name.as_str());
        let mut out = header(sig.as_str(), tag.as_str(), TEXT_WIDTH);
        out.push('\n');
        push_description(&mut out, &self.desc);
        out.push('\n');
        let mut table = Table::new(1);
        let mut row: Vec<String> = Vec::new();
        row.push(in_parens(self.ty.as_str()));
        assert(row.deep_view() =~= seq![parenthesized(self.ty@)]);
        table.add_row(row);
        push_table_section(&mut out, "Type:", &table);
        out.push('\n');
        out
    }
}

} // verus!
