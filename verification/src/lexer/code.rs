//! Lines of Lua: the definitions that annotations document, and the export.

use crate::lexer::scan::{
    after_ident, after_keyword, ident, keyword, skip, skip_blanks, split_ident, starts_with, take,
    trim_start, Charset,
};
use crate::lexer::{Kind, TagType, TagView};
use crate::text::{chars_of, string_of, text_eq};
use vstd::prelude::*;

verus! {

/// A name as a definition writes it, and what follows it on the line.
pub struct DottedView {
    pub prefix: Option<Seq<char>>,
    pub kind: Kind,
    pub name: Seq<char>,
    pub rest: Seq<char>,
}

/// Whether `s` begins with a dot or a colon and an identifier behind it.
pub open spec fn continues(s: Seq<char>) -> bool {
    s.len() > 0 && (s[0] == '.' || s[0] == ':') && ident(s.skip(1)).len() > 0
}

/// The name at the start of `s`: `prefix.name`, `prefix:name`, or a name
/// alone, which is local. None where `s` does not begin with an identifier.
pub open spec fn dotted(s: Seq<char>) -> Option<DottedView> {
    let first = ident(s);
    let rest = after_ident(s);
    if first.len() == 0 {
        None
    } else if continues(rest) {
        Some(
            DottedView {
                prefix: Some(first),
                kind: if rest[0] == '.' {
                    Kind::Dot
                } else {
                    Kind::Colon
                },
                name: ident(rest.skip(1)),
                rest: after_ident(rest.skip(1)),
            },
        )
    } else {
        Some(DottedView { prefix: None, kind: Kind::Local, name: first, rest })
    }
}

/// Whether `s` begins with the sign of an assignment: `=`, but not `==`.
pub open spec fn assigns(s: Seq<char>) -> bool {
    s.len() > 0 && s[0] == '=' && !(s.len() > 1 && s[1] == '=')
}

/// The token for the definition of `d`: of a function, or of another value.
pub open spec fn definition(d: DottedView, func: bool) -> TagView {
    if func {
        TagView::Func { prefix: d.prefix, name: d.name, kind: d.kind }
    } else {
        TagView::Expr { prefix: d.prefix, name: d.name, kind: d.kind }
    }
}

/// `name = function ...` defines a function, `name = <anything else>` a value.
pub open spec fn assignment_token(s: Seq<char>) -> Option<TagView> {
    match dotted(s) {
        Some(d) => {
            if assigns(trim_start(d.rest)) {
                Some(definition(d, keyword(trim_start(trim_start(d.rest).skip(1)), "function"@)))
            } else {
                None
            }
        },
        None => None,
    }
}

/// `function name(`: `s` is what follows the keyword.
pub open spec fn function_token(s: Seq<char>) -> Option<TagView> {
    match dotted(s) {
        Some(d) => {
            if starts_with(trim_start(d.rest), seq!['(']) {
                Some(definition(d, true))
            } else {
                None
            }
        },
        None => None,
    }
}

/// `local function name` and `local name = ...`: `s` is what follows `local`.
pub open spec fn local_token(s: Seq<char>) -> Option<TagView> {
    if keyword(s, "function"@) {
        if ident(after_keyword(s, "function"@)).len() > 0 {
            Some(
                TagView::Func {
                    prefix: None,
                    name: ident(after_keyword(s, "function"@)),
                    kind: Kind::Local,
                },
            )
        } else {
            None
        }
    } else {
        assignment_token(s)
    }
}

/// `return name` exports `name` if it is the last line of the source that is
/// not blank: `s` is what follows `return`.
pub open spec fn export_token(s: Seq<char>, last: bool) -> Option<TagView> {
    if last && s.len() > 0 && ident(s).len() == s.len() {
        Some(TagView::Export(s))
    } else {
        None
    }
}

/// The token of a line of code, if the line says anything about what is
/// documented. `line` has no blanks at its start or end; `last` says whether
/// only blank lines follow it.
pub open spec fn code_token(line: Seq<char>, last: bool) -> Option<TagView> {
    if keyword(line, "function"@) {
        function_token(after_keyword(line, "function"@))
    } else if keyword(line, "local"@) {
        local_token(after_keyword(line, "local"@))
    } else if keyword(line, "return"@) {
        export_token(after_keyword(line, "return"@), last)
    } else {
        assignment_token(line)
    }
}

/// What follows the keyword `kw` at the start of `s` and the blanks behind
/// it; none where `s` does not begin with the keyword.
pub fn strip_keyword<'a>(s: &'a [char], kw: &str) -> (r: Option<&'a [char]>)
    ensures
        r is Some == keyword(s@, kw@),
        r matches Some(rest) ==> rest@ == after_keyword(s@, kw@),
{
    let n = chars_of(kw).len();
    if s.len() < n {
        return None;
    }
    if !text_eq(take(s, n), kw) {
        return None;
    }
    if s.len() > n && Charset::Ident.contains(s[n]) {
        return None;
    }
    Some(skip_blanks(skip(s, n)))
}

/// A name as a definition writes it: prefix, kind and name, and what follows
/// on the line.
pub struct Dotted<'a> {
    pub prefix: Option<String>,
    pub kind: Kind,
    pub name: String,
    pub rest: &'a [char],
}

impl<'a> DeepView for Dotted<'a> {
    type V = DottedView;

    open spec fn deep_view(&self) -> DottedView {
        DottedView {
            prefix: self.prefix.deep_view(),
            kind: self.kind,
            name: self.name@,
            rest: self.rest@,
        }
    }
}

/// The name at the start of `s`; see `dotted`.
pub fn lex_dotted<'a>(s: &'a [char]) -> (r: Option<Dotted<'a>>)
    ensures
        r.deep_view() == dotted(s@),
{
    let (first, rest) = split_ident(s);
    if first.len() == 0 {
        return None;
    }
    if rest.len() > 0 && (rest[0] == '.' || rest[0] == ':') {
        let (name, behind) = split_ident(skip(rest, 1));
        if name.len() > 0 {
            let kind = if rest[0] == '.' {
                Kind::Dot
            } else {
                Kind::Colon
            };
            return Some(
                Dotted { prefix: Some(string_of(first)), kind, name: string_of(name), rest: behind },
            );
        }
    }
    Some(Dotted { prefix: None, kind: Kind::Local, name: string_of(first), rest })
}

/// The token for the definition of `d`.
fn define(d: Dotted<'_>, func: bool) -> (r: TagType)
    ensures
        r.deep_view() == definition(d.deep_view(), func),
{
    if func {
        TagType::Func { prefix: d.prefix, name: d.name, kind: d.kind }
    } else {
        TagType::Expr { prefix: d.prefix, name: d.name, kind: d.kind }
    }
}

fn lex_assignment(s: &[char]) -> (r: Option<TagType>)
    ensures
        r.deep_view() == assignment_token(s@),
{
    match lex_dotted(s) {
        Some(d) => {
            let sign = skip_blanks(d.rest);
            if sign.len() > 0 && sign[0] == '=' && !(sign.len() > 1 && sign[1] == '=') {
                let value = skip_blanks(skip(sign, 1));
                let func = strip_keyword(value, "function").is_some();
                Some(define(d, func))
            } else {
                None
            }
        },
        None => None,
    }
}

fn lex_function(s: &[char]) -> (r: Option<TagType>)
    ensures
        r.deep_view() == function_token(s@),
{
    match lex_dotted(s) {
        Some(d) => {
            let open = skip_blanks(d.rest);
            if open.len() > 0 && open[0] == '(' {
                assert(open@.take(1) =~= seq!['(']);
                Some(define(d, true))
            } else {
                assert(open@.len() >= 1 ==> open@.take(1)[0] != '(');
                None
            }
        },
        None => None,
    }
}

fn lex_local(s: &[char]) -> (r: Option<TagType>)
    ensures
        r.deep_view() == local_token(s@),
{
    match strip_keyword(s, "function") {
        Some(named) => {
            let (name, _) = split_ident(named);
            if name.len() > 0 {
                Some(TagType::Func { prefix: None, name: string_of(name), kind: Kind::Local })
            } else {
                None
            }
        },
        None => lex_assignment(s),
    }
}

fn lex_export(s: &[char], last: bool) -> (r: Option<TagType>)
    ensures
        r.deep_view() == export_token(s@, last),
{
    let (name, _) = split_ident(s);
    if last && s.len() > 0 && name.len() == s.len() {
        Some(TagType::Export(string_of(s)))
    } else {
        None
    }
}

/// The token of a line of code; see `code_token`.
pub fn lex_code(line: &[char], last: bool) -> (r: Option<TagType>)
    ensures
        r.deep_view() == code_token(line@, last),
{
    match strip_keyword(line, "function") {
        Some(rest) => lex_function(rest),
        None => match strip_keyword(line, "local") {
            Some(rest) => lex_local(rest),
            None => match strip_keyword(line, "return") {
                Some(rest) => lex_export(rest, last),
                None => lex_assignment(line),
            },
        },
    }
}

} // verus!
