//! From annotation tokens to documentation entries.

pub mod tags;

pub use tags::alias::Alias;
pub use tags::brief::Brief;
pub use tags::class::{Class, Field};
pub use tags::func::{Func, Param, Return};
pub use tags::module::Module;
pub use tags::see::See;
pub use tags::typedef::Type;
pub use tags::usage::Usage;

use crate::lexer::{behind, Error, ErrorKind, Spanned, SpannedView, TagType, TagView};
use crate::parser::tags::alias::{alias_from, AliasView};
use crate::parser::tags::brief::{brief_from, BriefView};
use crate::parser::tags::class::{class_from, ClassView};
use crate::parser::tags::func::{func_from, FuncView};
use crate::parser::tags::module::{module_from, ModuleView};
use crate::parser::tags::typedef::{type_from, TypeView};
use vstd::prelude::*;

verus! {

/// The identifier in front of a definition's name: `left` as the source has
/// it, `right` as the help tag shows it.
#[derive(Debug, Clone, PartialEq, Eq)]
pub struct Prefix {
    pub left: Option<String>,
    pub right: Option<String>,
}

/// What a `Prefix` holds, as text.
pub struct PrefixView {
    pub left: Option<Seq<char>>,
    pub right: Option<Seq<char>>,
}

impl DeepView for Prefix {
    type V = PrefixView;

    open spec fn deep_view(&self) -> PrefixView {
        PrefixView { left: self.left.deep_view(), right: self.right.deep_view() }
    }
}

/// The text of an optional identifier: nothing where there is none.
pub open spec fn or_empty(s: Option<Seq<char>>) -> Seq<char> {
    match s {
        Some(t) => t,
        None => Seq::empty(),
    }
}

/// The kinds of tokens of which a rule takes as many as follow each other.
#[derive(Debug, Clone, Copy, PartialEq, Eq, Structural)]
pub enum Shape {
    Comment,
    Field,
    See,
}

impl Shape {
    /// Whether `tag` is of this kind.
    pub open spec fn fits(self, tag: TagView) -> bool {
        match self {
            Shape::Comment => tag is Comment,
            Shape::Field => tag is Field,
            Shape::See => tag is See,
        }
    }

    /// Whether `tag` is of this kind.
    pub fn matches(&self, tag: &TagType) -> (r: bool)
        ensures
            r == self.fits(tag.deep_view()),
    {
        match self {
            Shape::Comment => match tag {
                TagType::Comment(_) => true,
                _ => false,
            },
            Shape::Field => match tag {
                TagType::Field { .. } => true,
                _ => false,
            },
            Shape::See => match tag {
                TagType::See(_) => true,
                _ => false,
            },
        }
    }
}

/// Number of tokens from token `i` on that are all of kind `shape`.
pub open spec fn token_run(toks: Seq<SpannedView>, i: int, shape: Shape) -> nat
    decreases toks.len() - i,
{
    if 0 <= i < toks.len() && shape.fits(toks[i].tag) {
        1 + token_run(toks, i + 1, shape)
    } else {
        0
    }
}

/// Number of tokens from token `i` on.
pub open spec fn remaining(toks: Seq<SpannedView>, i: int) -> nat {
    if i <= toks.len() {
        (toks.len() - i) as nat
    } else {
        0
    }
}

/// Number of lines of free text from token `i` on.
pub open spec fn comment_run(toks: Seq<SpannedView>, i: int) -> nat {
    token_run(toks, i, Shape::Comment)
}

/// The text that a token carries: of free text the line, of a reference the
/// name, of inline code the code.
pub open spec fn text_of(tag: TagView) -> Seq<char> {
    match tag {
        TagView::Comment(text) => text,
        TagView::See(name) => name,
        TagView::Usage(code) => code,
        _ => Seq::empty(),
    }
}

/// The texts of the `n` tokens from token `i` on, in their order.
pub open spec fn texts_from(toks: Seq<SpannedView>, i: int, n: nat) -> Seq<Seq<char>> {
    Seq::new(n, |k: int| text_of(toks[i + k].tag))
}

/// A description that stands on the line of its tag, as lines: one or none.
pub open spec fn inline_text(desc: Option<Seq<char>>) -> Seq<Seq<char>> {
    match desc {
        Some(d) => seq![d],
        None => Seq::empty(),
    }
}

/// The error of kind `kind` at the place of `token`.
pub open spec fn error_at(kind: ErrorKind, token: SpannedView) -> Error {
    Error { kind, line: token.line, column: token.column }
}

/// A run of tokens ends within the tokens, every token in it is of the kind,
/// and the token behind it is not.
pub proof fn token_run_is_longest(toks: Seq<SpannedView>, i: int, shape: Shape)
    requires
        0 <= i <= toks.len(),
    ensures
        i + token_run(toks, i, shape) <= toks.len(),
        forall|k: int| i <= k < i + token_run(toks, i, shape) ==> shape.fits(toks[k].tag),
        i + token_run(toks, i, shape) < toks.len() ==> !shape.fits(
            toks[i + token_run(toks, i, shape)].tag,
        ),
    decreases toks.len() - i,
{
    if i < toks.len() && shape.fits(toks[i].tag) {
        token_run_is_longest(toks, i + 1, shape);
    }
}

/// Number of tokens from token `i` on that are all of kind `shape`.
pub fn count_run(toks: &Vec<Spanned>, i: usize, shape: Shape) -> (n: usize)
    requires
        i <= toks.len(),
    ensures
        n == token_run(toks.deep_view(), i as int, shape),
        i + n <= toks.len(),
{
    let mut k: usize = i;
    while k < toks.len() && shape.matches(&toks[k].tag)
        invariant
            i <= k <= toks.len(),
            token_run(toks.deep_view(), i as int, shape) == (k - i) + token_run(
                toks.deep_view(),
                k as int,
                shape,
            ),
        decreases toks.len() - k,
    {
        k += 1;
    }
    k - i
}

/// The text that `tag` carries; see `text_of`.
pub fn text_in(tag: &TagType) -> (s: String)
    ensures
        s@ == text_of(tag.deep_view()),
{
    match tag {
        TagType::Comment(text) => text.clone(),
        TagType::See(name) => name.clone(),
        TagType::Usage(code) => code.clone(),
        _ => String::new(),
    }
}

/// Appends the texts of the `n` tokens from token `i` on to `into`.
pub fn collect_texts(toks: &Vec<Spanned>, i: usize, n: usize, into: &mut Vec<String>)
    requires
        i + n <= toks.len(),
    ensures
        final(into).deep_view() == old(into).deep_view() + texts_from(
            toks.deep_view(),
            i as int,
            n as nat,
        ),
{
    let ghost all = texts_from(toks.deep_view(), i as int, n as nat);
    let mut k: usize = 0;
    while k < n
        invariant
            k <= n,
            i + n <= toks.len(),
            all == texts_from(toks.deep_view(), i as int, n as nat),
            into.deep_view() == old(into).deep_view() + all.take(k as int),
        decreases n - k,
    {
        let ghost before = into.deep_view();
        let text = text_in(&toks[i + k].tag);
        into.push(text);
        assert(into.deep_view() =~= before.push(all[k as int]));
        k += 1;
    }
}

/// Appends the description that stands on the line of its tag, if there is one.
pub fn collect_inline(desc: &Option<String>, into: &mut Vec<String>)
    ensures
        final(into).deep_view() == old(into).deep_view() + inline_text(desc.deep_view()),
{
    match desc {
        Some(d) => {
            into.push(d.clone());
        },
        None => {},
    }
}

/// A copy of an optional string.
pub fn copy_optional(s: &Option<String>) -> (r: Option<String>)
    ensures
        r.deep_view() == s.deep_view(),
{
    match s {
        Some(t) => Some(t.clone()),
        None => None,
    }
}

/// An entry of the documentation, or the name that the file exports.
#[derive(Debug, Clone, PartialEq, Eq)]
pub enum Node {
    Module(Module),
    Brief(Brief),
    Alias(Alias),
    Class(Class),
    Type(Type),
    Func(Func),
    Export(String),
}

/// What a `Node` holds, as text.
pub enum NodeView {
    Module(ModuleView),
    Brief(BriefView),
    Alias(AliasView),
    Class(ClassView),
    Type(TypeView),
    Func(FuncView),
    Export(Seq<char>),
}

impl DeepView for Node {
    type V = NodeView;

    open spec fn deep_view(&self) -> NodeView {
        match self {
            Node::Module(m) => NodeView::Module(m.deep_view()),
            Node::Brief(b) => NodeView::Brief(b.deep_view()),
            Node::Alias(a) => NodeView::Alias(a.deep_view()),
            Node::Class(c) => NodeView::Class(c.deep_view()),
            Node::Type(t) => NodeView::Type(t.deep_view()),
            Node::Func(f) => NodeView::Func(f.deep_view()),
            Node::Export(name) => NodeView::Export(name@),
        }
    }
}

/// What was parsed, and how many tokens behind the first it took.
pub open spec fn parsed<A>(r: Result<(A, nat), Error>, wrap: spec_fn(A) -> NodeView) -> Result<
    (Option<NodeView>, nat),
    Error,
> {
    match r {
        Ok((value, extra)) => Ok((Some(wrap(value)), extra)),
        Err(e) => Err(e),
    }
}

/// The entry that begins with token `j`, which is no free text, and how many
/// tokens behind token `j` belong to it. `lead` is the free text before it.
///
/// The first token decides which rule applies. An annotation of a function,
/// or its definition, begins a function. A definition of a value that no
/// `@type` precedes, a field outside a class and a stray end of a block
/// document nothing: they and the free text before them are passed over.
pub open spec fn entry_from(toks: Seq<SpannedView>, j: int, lead: Seq<Seq<char>>) -> Result<
    (Option<NodeView>, nat),
    Error,
> {
    match toks[j].tag {
        TagView::Module { .. } => parsed(module_from(toks, j, lead), |m| NodeView::Module(m)),
        TagView::BriefStart => parsed(brief_from(toks, j, lead), |b| NodeView::Brief(b)),
        TagView::Alias { .. } => parsed(alias_from(toks, j, lead), |a| NodeView::Alias(a)),
        TagView::Class(_) => parsed(class_from(toks, j, lead), |c| NodeView::Class(c)),
        TagView::Type { .. } => parsed(type_from(toks, j, lead), |t| NodeView::Type(t)),
        TagView::Param { .. }
        | TagView::Return { .. }
        | TagView::See(_)
        | TagView::Usage(_)
        | TagView::UsageStart
        | TagView::Func { .. } => parsed(func_from(toks, j, lead), |f| NodeView::Func(f)),
        TagView::Export(name) => Ok((Some(NodeView::Export(name)), 0)),
        _ => Ok((None, 0)),
    }
}

/// A node that may be missing, as a sequence.
pub open spec fn maybe(node: Option<NodeView>) -> Seq<NodeView> {
    match node {
        Some(n) => seq![n],
        None => Seq::empty(),
    }
}

/// The entries that the tokens from token `i` on hold, in the order of the
/// tokens, or the first error. Free text stands before the entry that it
/// describes; free text that nothing follows describes nothing.
pub open spec fn parse_from(toks: Seq<SpannedView>, i: int) -> Result<Seq<NodeView>, Error>
    decreases remaining(toks, i),
{
    let n = comment_run(toks, i);
    if i < 0 || i + n >= toks.len() {
        Ok(Seq::empty())
    } else {
        match entry_from(toks, i + n, texts_from(toks, i, n)) {
            Err(e) => Err(e),
            Ok((node, extra)) => behind(maybe(node), parse_from(toks, i + n + 1 + extra)),
        }
    }
}

/// The entries that the tokens hold, or the first error.
pub open spec fn parse_tokens(toks: Seq<SpannedView>) -> Result<Seq<NodeView>, Error> {
    parse_from(toks, 0)
}

/// The entry that begins with token `j`; see `entry_from`.
pub fn parse_entry(toks: &Vec<Spanned>, j: usize, lead: Vec<String>) -> (r: Result<
    (Option<Node>, usize),
    Error,
>)
    requires
        j < toks.len(),
    ensures
        match r {
            Ok((node, extra)) => entry_from(toks.deep_view(), j as int, lead.deep_view()) == Ok::<
                (Option<NodeView>, nat),
                Error,
            >((node.deep_view(), extra as nat)) && j + 1 + extra <= toks.len(),
            Err(e) => entry_from(toks.deep_view(), j as int, lead.deep_view()) == Err::<
                (Option<NodeView>, nat),
                Error,
            >(e),
        },
{
    match &toks[j].tag {
        TagType::Module { .. } => {
            let (m, extra) = Module::parse(toks, j, lead);
            Ok((Some(Node::Module(m)), extra))
        },
        TagType::BriefStart => match Brief::parse(toks, j, lead) {
            Ok((b, extra)) => Ok((Some(Node::Brief(b)), extra)),
            Err(e) => Err(e),
        },
        TagType::Alias { .. } => {
            let (a, extra) = Alias::parse(toks, j, lead);
            Ok((Some(Node::Alias(a)), extra))
        },
        TagType::Class(_) => {
            let (c, extra) = Class::parse(toks, j, lead);
            Ok((Some(Node::Class(c)), extra))
        },
        TagType::Type { .. } => match Type::parse(toks, j, lead) {
            Ok((t, extra)) => Ok((Some(Node::Type(t)), extra)),
            Err(e) => Err(e),
        },
        TagType::Param { .. }
        | TagType::Return { .. }
        | TagType::See(_)
        | TagType::Usage(_)
        | TagType::UsageStart
        | TagType::Func { .. } => match Func::parse(toks, j, lead) {
            Ok((f, extra)) => Ok((Some(Node::Func(f)), extra)),
            Err(e) => Err(e),
        },
        TagType::Export(name) => Ok((Some(Node::Export(name.clone())), 0)),
        _ => Ok((None, 0)),
    }
}

/// Parsing in two steps: what stands behind `a` and `b` stands behind both.
proof fn behind_twice(a: Seq<NodeView>, b: Seq<NodeView>, rest: Result<Seq<NodeView>, Error>)
    ensures
        behind(a, behind(b, rest)) == behind(a + b, rest),
{
    match rest {
        Ok(more) => {
            assert(a + (b + more) =~= (a + b) + more);
        },
        Err(_) => {},
    }
}

/// The entries that the tokens hold, in the order of the tokens, or the
/// first error.
pub fn parse(toks: &Vec<Spanned>) -> (r: Result<Vec<Node>, Error>)
    ensures
        match r {
            Ok(nodes) => parse_tokens(toks.deep_view()) == Ok::<Seq<NodeView>, Error>(
                nodes.deep_view(),
            ),
            Err(e) => parse_tokens(toks.deep_view()) == Err::<Seq<NodeView>, Error>(e),
        },
{
    let ghost all = toks.deep_view();
    let mut nodes: Vec<Node> = Vec::new();
    let mut i: usize = 0;
    loop
        invariant_except_break
            parse_tokens(all) == behind(nodes.deep_view(), parse_from(all, i as int)),
        invariant
            i <= toks.len(),
            all == toks.deep_view(),
        ensures
            parse_tokens(all) == Ok::<Seq<NodeView>, Error>(nodes.deep_view()),
        decreases toks.len() - i,
    {
        let ghost done = nodes.deep_view();
        let n = count_run(toks, i, Shape::Comment);
        if i + n >= toks.len() {
            break ;
        }
        let mut lead: Vec<String> = Vec::new();
        collect_texts(toks, i, n, &mut lead);
        match parse_entry(toks, i + n, lead) {
            Err(e) => {
                return Err(e);
            },
            Ok((node, extra)) => {
                proof {
                    behind_twice(
                        done,
                        maybe(node.deep_view()),
                        parse_from(all, i + n + 1 + extra),
                    );
                }
                match node {
                    Some(entry) => {
                        nodes.push(entry);
                        assert(nodes.deep_view() =~= done + maybe(node.deep_view()));
                    },
                    None => {},
                }
                i = i + n + 1 + extra;
            },
        }
    }
    Ok(nodes)
}

} // verus!
