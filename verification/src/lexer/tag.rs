//! Annotation lines: what follows the three dashes.

use crate::lexer::scan::{after_word, optional_text, skip, split_word, take, word};
use crate::lexer::{bare_name, is_optional, Scope, TagType, TagView};
use crate::text::{string_of, text_eq};
use vstd::prelude::*;
use vstd::slice::slice_subrange;

verus! {

/// `---@mod <name> [title]`
pub open spec fn module_token(args: Seq<char>) -> Option<TagView> {
    if word(args).len() == 0 {
        None
    } else {
        Some(TagView::Module { name: word(args), desc: optional_text(after_word(args)) })
    }
}

/// `---@brief [[` and `---@brief ]]`
pub open spec fn brief_token(args: Seq<char>) -> Option<TagView> {
    if args == "[["@ {
        Some(TagView::BriefStart)
    } else if args == "]]"@ {
        Some(TagView::BriefEnd)
    } else {
        None
    }
}

/// `---@usage [[`, `---@usage ]]`, and one line of code between backticks.
pub open spec fn usage_token(args: Seq<char>) -> Option<TagView> {
    if args == "[["@ {
        Some(TagView::UsageStart)
    } else if args == "]]"@ {
        Some(TagView::UsageEnd)
    } else if args.len() >= 2 && args[0] == '`' && args.last() == '`' {
        Some(TagView::Usage(args.subrange(1, args.len() - 1)))
    } else {
        None
    }
}

/// `---@param <name[?]> <type> [description]`
pub open spec fn param_token(args: Seq<char>) -> Option<TagView> {
    let name = word(args);
    let ty = word(after_word(args));
    if name.len() == 0 || ty.len() == 0 {
        None
    } else {
        Some(TagView::Param { name, ty, desc: optional_text(after_word(after_word(args))) })
    }
}

/// `---@return <type> [name] [description]`
pub open spec fn return_token(args: Seq<char>) -> Option<TagView> {
    let ty = word(args);
    if ty.len() == 0 {
        None
    } else {
        Some(
            TagView::Return {
                ty,
                name: optional_text(word(after_word(args))),
                desc: optional_text(after_word(after_word(args))),
            },
        )
    }
}

/// `---@class <name>`; what follows the name is not read.
pub open spec fn class_token(args: Seq<char>) -> Option<TagView> {
    if word(args).len() == 0 {
        None
    } else {
        Some(TagView::Class(word(args)))
    }
}

/// The scope that a word names, if it names one.
pub open spec fn scope_word(w: Seq<char>) -> Option<Scope> {
    if w == "private"@ {
        Some(Scope::Private)
    } else if w == "protected"@ {
        Some(Scope::Protected)
    } else {
        None
    }
}

/// What follows the scope at the start of `s`, if `s` begins with one.
pub open spec fn after_scope(s: Seq<char>) -> Seq<char> {
    if scope_word(word(s)) is Some {
        after_word(s)
    } else {
        s
    }
}

/// `---@field <name[?]> [private|protected] <type> [description]`. The scope
/// may also stand before the name; one before the name decides. A field
/// without a scope is public.
pub open spec fn field_token(args: Seq<char>) -> Option<TagView> {
    let named = after_scope(args);
    let name = word(named);
    let typed = after_scope(after_word(named));
    let ty = word(typed);
    let scope = match scope_word(word(args)) {
        Some(s) => s,
        None => match scope_word(word(after_word(named))) {
            Some(s) => s,
            None => Scope::Public,
        },
    };
    if bare_name(name).len() == 0 || ty.len() == 0 {
        None
    } else {
        Some(
            TagView::Field {
                scope,
                name: bare_name(name),
                optional: is_optional(name),
                ty,
                desc: optional_text(after_word(typed)),
            },
        )
    }
}

/// `---@alias <name> <type>`; the type is the rest of the line.
pub open spec fn alias_token(args: Seq<char>) -> Option<TagView> {
    if word(args).len() == 0 || after_word(args).len() == 0 {
        None
    } else {
        Some(TagView::Alias { name: word(args), ty: after_word(args) })
    }
}

/// `---@type <type> [description]`
pub open spec fn type_token(args: Seq<char>) -> Option<TagView> {
    if word(args).len() == 0 {
        None
    } else {
        Some(TagView::Type { ty: word(args), desc: optional_text(after_word(args)) })
    }
}

/// `---@see <name>`; the name is the rest of the line.
pub open spec fn see_token(args: Seq<char>) -> Option<TagView> {
    if args.len() == 0 {
        None
    } else {
        Some(TagView::See(args))
    }
}

/// The token of an annotation. `body` is what follows the three dashes and
/// begins with `@`. None where the annotation lacks what it must have. A tag
/// that is not known is no annotation: the line is free text.
pub open spec fn tag_token(body: Seq<char>) -> Option<TagView> {
    let tag = word(body.skip(1));
    let args = after_word(body.skip(1));
    if tag == "mod"@ {
        module_token(args)
    } else if tag == "brief"@ {
        brief_token(args)
    } else if tag == "usage"@ {
        usage_token(args)
    } else if tag == "param"@ {
        param_token(args)
    } else if tag == "return"@ {
        return_token(args)
    } else if tag == "class"@ {
        class_token(args)
    } else if tag == "field"@ {
        field_token(args)
    } else if tag == "alias"@ {
        alias_token(args)
    } else if tag == "type"@ {
        type_token(args)
    } else if tag == "see"@ {
        see_token(args)
    } else {
        Some(TagView::Comment(body))
    }
}

/// The token of a comment line. `body` is what follows the three dashes.
/// None where it is an annotation that lacks what it must have.
pub open spec fn comment_token(body: Seq<char>) -> Option<TagView> {
    if body.len() > 0 && body[0] == '@' {
        tag_token(body)
    } else {
        Some(TagView::Comment(body))
    }
}

/// `s` as an optional string: none where it is empty.
pub fn optional_string(s: &[char]) -> (r: Option<String>)
    ensures
        r.deep_view() == optional_text(s@),
{
    if s.len() == 0 {
        None
    } else {
        Some(string_of(s))
    }
}

fn lex_module(args: &[char]) -> (r: Option<TagType>)
    ensures
        r.deep_view() == module_token(args@),
{
    let (name, rest) = split_word(args);
    if name.len() == 0 {
        None
    } else {
        Some(TagType::Module { name: string_of(name), desc: optional_string(rest) })
    }
}

fn lex_brief(args: &[char]) -> (r: Option<TagType>)
    ensures
        r.deep_view() == brief_token(args@),
{
    if text_eq(args, "[[") {
        Some(TagType::BriefStart)
    } else if text_eq(args, "]]") {
        Some(TagType::BriefEnd)
    } else {
        None
    }
}

fn lex_usage(args: &[char]) -> (r: Option<TagType>)
    ensures
        r.deep_view() == usage_token(args@),
{
    if text_eq(args, "[[") {
        Some(TagType::UsageStart)
    } else if text_eq(args, "]]") {
        Some(TagType::UsageEnd)
    } else if args.len() >= 2 && args[0] == '`' && args[args.len() - 1] == '`' {
        Some(TagType::Usage(string_of(slice_subrange(args, 1, args.len() - 1))))
    } else {
        None
    }
}

fn lex_param(args: &[char]) -> (r: Option<TagType>)
    ensures
        r.deep_view() == param_token(args@),
{
    let (name, typed) = split_word(args);
    let (ty, rest) = split_word(typed);
    if name.len() == 0 || ty.len() == 0 {
        None
    } else {
        Some(
            TagType::Param { name: string_of(name), ty: string_of(ty), desc: optional_string(rest) },
        )
    }
}

fn lex_return(args: &[char]) -> (r: Option<TagType>)
    ensures
        r.deep_view() == return_token(args@),
{
    let (ty, named) = split_word(args);
    let (name, rest) = split_word(named);
    if ty.len() == 0 {
        None
    } else {
        Some(
            TagType::Return {
                ty: string_of(ty),
                name: optional_string(name),
                desc: optional_string(rest),
            },
        )
    }
}

fn lex_class(args: &[char]) -> (r: Option<TagType>)
    ensures
        r.deep_view() == class_token(args@),
{
    let (name, _) = split_word(args);
    if name.len() == 0 {
        None
    } else {
        Some(TagType::Class(string_of(name)))
    }
}

/// The scope that `w` names, if it names one.
fn scope_of(w: &[char]) -> (r: Option<Scope>)
    ensures
        r == scope_word(w@),
{
    if text_eq(w, "private") {
        Some(Scope::Private)
    } else if text_eq(w, "protected") {
        Some(Scope::Protected)
    } else {
        None
    }
}

/// The scope at the start of `s`, if `s` begins with one, and what follows it.
fn split_scope(s: &[char]) -> (r: (Option<Scope>, &[char]))
    ensures
        r.0 == scope_word(word(s@)),
        r.1@ == after_scope(s@),
{
    let (w, rest) = split_word(s);
    match scope_of(w) {
        Some(scope) => (Some(scope), rest),
        None => (None, s),
    }
}

fn lex_field(args: &[char]) -> (r: Option<TagType>)
    ensures
        r.deep_view() == field_token(args@),
{
    let (before, named) = split_scope(args);
    let (name, scoped) = split_word(named);
    let (behind, typed) = split_scope(scoped);
    let (ty, rest) = split_word(typed);
    let scope = match before {
        Some(s) => s,
        None => match behind {
            Some(s) => s,
            None => Scope::Public,
        },
    };
    let n = name.len();
    let optional = n > 0 && name[n - 1] == '?';
    let bare = if optional {
        take(name, n - 1)
    } else {
        name
    };
    if bare.len() == 0 || ty.len() == 0 {
        None
    } else {
        Some(
            TagType::Field {
                scope,
                name: string_of(bare),
                optional,
                ty: string_of(ty),
                desc: optional_string(rest),
            },
        )
    }
}

fn lex_alias(args: &[char]) -> (r: Option<TagType>)
    ensures
        r.deep_view() == alias_token(args@),
{
    let (name, ty) = split_word(args);
    if name.len() == 0 || ty.len() == 0 {
        None
    } else {
        Some(TagType::Alias { name: string_of(name), ty: string_of(ty) })
    }
}

fn lex_type(args: &[char]) -> (r: Option<TagType>)
    ensures
        r.deep_view() == type_token(args@),
{
    let (ty, rest) = split_word(args);
    if ty.len() == 0 {
        None
    } else {
        Some(TagType::Type { ty: string_of(ty), desc: optional_string(rest) })
    }
}

fn lex_see(args: &[char]) -> (r: Option<TagType>)
    ensures
        r.deep_view() == see_token(args@),
{
    if args.len() == 0 {
        None
    } else {
        Some(TagType::See(string_of(args)))
    }
}

/// The token of the annotation `body`; see `tag_token`.
pub fn lex_tag(body: &[char]) -> (r: Option<TagType>)
    requires
        body.len() > 0,
    ensures
        r.deep_view() == tag_token(body@),
{
    let (tag, args) = split_word(skip(body, 1));
    if text_eq(tag, "mod") {
        lex_module(args)
    } else if text_eq(tag, "brief") {
        lex_brief(args)
    } else if text_eq(tag, "usage") {
        lex_usage(args)
    } else if text_eq(tag, "param") {
        lex_param(args)
    } else if text_eq(tag, "return") {
        lex_return(args)
    } else if text_eq(tag, "class") {
        lex_class(args)
    } else if text_eq(tag, "field") {
        lex_field(args)
    } else if text_eq(tag, "alias") {
        lex_alias(args)
    } else if text_eq(tag, "type") {
        lex_type(args)
    } else if text_eq(tag, "see") {
        lex_see(args)
    } else {
        Some(TagType::Comment(string_of(body)))
    }
}

/// The token of the comment line whose text behind the dashes is `body`; see
/// `comment_token`.
pub fn lex_comment(body: &[char]) -> (r: Option<TagType>)
    ensures
        r.deep_view() == comment_token(body@),
{
    if body.len() > 0 && body[0] == '@' {
        lex_tag(body)
    } else {
        Some(TagType::Comment(string_of(body)))
    }
}

} // verus!
