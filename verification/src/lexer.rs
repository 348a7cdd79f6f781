//! From source text to annotation tokens.

pub mod code;
pub mod scan;
pub mod tag;

use crate::lexer::code::{code_token, lex_code};
use crate::lexer::scan::{
    run, run_is_longest, run_len, skip, starts_with, strip, take, trim, Charset,
};
use crate::lexer::tag::{comment_token, lex_comment};
use crate::text::{chars_of, join, join_first, string_of};
use vstd::prelude::*;

verus! {

/// How a definition hangs on what stands before its name.
#[derive(Debug, Clone, Copy, PartialEq, Eq, Structural)]
pub enum Kind {
    /// `prefix.name`
    Dot,
    /// `prefix:name`, a method
    Colon,
    /// a local definition, which no module exports
    Local,
}

impl Kind {
    /// The character that stands between prefix and name.
    pub open spec fn glyph(self) -> char {
        match self {
            Kind::Dot => '.',
            Kind::Colon => ':',
            Kind::Local => '#',
        }
    }

    /// The character that stands between prefix and name.
    pub fn as_char(&self) -> (c: char)
        ensures
            c == self.glyph(),
    {
        match self {
            Kind::Dot => '.',
            Kind::Colon => ':',
            Kind::Local => '#',
        }
    }
}

/// Who may see a field.
#[derive(Debug, Clone, Copy, PartialEq, Eq, Structural)]
pub enum Scope {
    Public,
    Private,
    Protected,
}

/// Whether a name is marked as optional: by `?` at its end.
pub open spec fn is_optional(name: Seq<char>) -> bool {
    name.len() > 0 && name.last() == '?'
}

/// The name without the mark of an optional name.
pub open spec fn bare_name(name: Seq<char>) -> Seq<char> {
    if is_optional(name) {
        name.drop_last()
    } else {
        name
    }
}

/// What one line of the source says.
#[allow(inconsistent_fields)]
#[derive(Debug, Clone, PartialEq, Eq)]
pub enum TagType {
    /// `---@mod <name> [title]`
    Module { name: String, desc: Option<String> },
    /// `---@brief [[`
    BriefStart,
    /// `---@brief ]]`
    BriefEnd,
    /// `---@param <name[?]> <type> [description]`
    Param { name: String, ty: String, desc: Option<String> },
    /// `---@return <type> [name] [description]`
    Return { ty: String, name: Option<String>, desc: Option<String> },
    /// `---@class <name>`
    Class(String),
    /// `---@field <name[?]> [private|protected] <type> [description]`
    Field { scope: Scope, name: String, optional: bool, ty: String, desc: Option<String> },
    /// `---@alias <name> <type>`
    Alias { name: String, ty: String },
    /// `---@type <type> [description]`
    Type { ty: String, desc: Option<String> },
    /// `---@see <name>`
    See(String),
    /// ``---@usage `<code>` ``
    Usage(String),
    /// `---@usage [[`
    UsageStart,
    /// `---@usage ]]`
    UsageEnd,
    /// `function prefix.name(`, `prefix.name = function`, `local function name`
    Func { prefix: Option<String>, name: String, kind: Kind },
    /// `prefix.name = <value>`, `local name = <value>`
    Expr { prefix: Option<String>, name: String, kind: Kind },
    /// `return <name>` as the last line
    Export(String),
    /// `---<text>`
    Comment(String),
}

/// What a `TagType` holds, as text.
#[allow(inconsistent_fields)]
pub enum TagView {
    Module { name: Seq<char>, desc: Option<Seq<char>> },
    BriefStart,
    BriefEnd,
    Param { name: Seq<char>, ty: Seq<char>, desc: Option<Seq<char>> },
    Return { ty: Seq<char>, name: Option<Seq<char>>, desc: Option<Seq<char>> },
    Class(Seq<char>),
    Field { scope: Scope, name: Seq<char>, optional: bool, ty: Seq<char>, desc: Option<Seq<char>> },
    Alias { name: Seq<char>, ty: Seq<char> },
    Type { ty: Seq<char>, desc: Option<Seq<char>> },
    See(Seq<char>),
    Usage(Seq<char>),
    UsageStart,
    UsageEnd,
    Func { prefix: Option<Seq<char>>, name: Seq<char>, kind: Kind },
    Expr { prefix: Option<Seq<char>>, name: Seq<char>, kind: Kind },
    Export(Seq<char>),
    Comment(Seq<char>),
}

impl DeepView for TagType {
    type V = TagView;

    open spec fn deep_view(&self) -> TagView {
        match self {
            TagType::Module { name, desc } => TagView::Module {
                name: name@,
                desc: desc.deep_view(),
            },
            TagType::BriefStart => TagView::BriefStart,
            TagType::BriefEnd => TagView::BriefEnd,
            TagType::Param { name, ty, desc } => TagView::Param {
                name: name@,
                ty: ty@,
                desc: desc.deep_view(),
            },
            TagType::Return { ty, name, desc } => TagView::Return {
                ty: ty@,
                name: name.deep_view(),
                desc: desc.deep_view(),
            },
            TagType::Class(name) => TagView::Class(name@),
            TagType::Field { scope, name, optional, ty, desc } => TagView::Field {
                scope: *scope,
                name: name@,
                optional: *optional,
                ty: ty@,
                desc: desc.deep_view(),
            },
            TagType::Alias { name, ty } => TagView::Alias { name: name@, ty: ty@ },
            TagType::Type { ty, desc } => TagView::Type { ty: ty@, desc: desc.deep_view() },
            TagType::See(name) => TagView::See(name@),
            TagType::Usage(code) => TagView::Usage(code@),
            TagType::UsageStart => TagView::UsageStart,
            TagType::UsageEnd => TagView::UsageEnd,
            TagType::Func { prefix, name, kind } => TagView::Func {
                prefix: prefix.deep_view(),
                name: name@,
                kind: *kind,
            },
            TagType::Expr { prefix, name, kind } => TagView::Expr {
                prefix: prefix.deep_view(),
                name: name@,
                kind: *kind,
            },
            TagType::Export(name) => TagView::Export(name@),
            TagType::Comment(text) => TagView::Comment(text@),
        }
    }
}

/// What went wrong.
#[derive(Debug, Clone, Copy, PartialEq, Eq, Structural)]
pub enum ErrorKind {
    /// An annotation lacks a name or a type that it must have.
    SyntaxError,
    /// A block of free text or of code was opened and never closed.
    UnterminatedBlock,
    /// Annotations document a definition that does not follow them.
    MissingDefinition,
}

/// What went wrong, and where the source begins to say it: line and column,
/// both counted from 0.
#[derive(Debug, Clone, Copy, PartialEq, Eq, Structural)]
pub struct Error {
    pub kind: ErrorKind,
    pub line: usize,
    pub column: usize,
}

/// A token and the place in the source where it begins: line and column,
/// both counted from 0.
#[derive(Debug, Clone, PartialEq, Eq)]
pub struct Spanned {
    pub tag: TagType,
    pub line: usize,
    pub column: usize,
}

/// What a `Spanned` holds, as text.
pub struct SpannedView {
    pub tag: TagView,
    pub line: usize,
    pub column: usize,
}

impl DeepView for Spanned {
    type V = SpannedView;

    open spec fn deep_view(&self) -> SpannedView {
        SpannedView { tag: self.tag.deep_view(), line: self.line, column: self.column }
    }
}

/// The lines of `s`: what stands between its newlines. A text that ends with
/// a newline has an empty last line.
pub open spec fn split_lines(s: Seq<char>) -> Seq<Seq<char>>
    decreases s.len(),
{
    let n = run(s, Charset::Line);
    if n >= s.len() {
        seq![s]
    } else {
        seq![s.take(n as int)] + split_lines(s.skip(n as int + 1))
    }
}

/// Splitting loses nothing but the newlines: no line holds a newline, and the
/// lines joined by newlines are the text.
pub proof fn split_lines_joins_back(s: Seq<char>)
    ensures
        split_lines(s).len() >= 1,
        forall|k: int, i: int|
            0 <= k < split_lines(s).len() && 0 <= i < split_lines(s)[k].len() ==> (
            #[trigger] split_lines(s)[k][i]) != '\n',
        join(split_lines(s), seq!['\n']) == s,
    decreases s.len(),
{
    let n = run(s, Charset::Line);
    run_is_longest(s, Charset::Line);
    if n < s.len() {
        let first = s.take(n as int);
        let rest = split_lines(s.skip(n as int + 1));
        split_lines_joins_back(s.skip(n as int + 1));
        join_first(first, rest, seq!['\n']);
    }
}

/// What opens a comment line.
pub open spec fn dashes() -> Seq<char> {
    seq!['-', '-', '-']
}

/// The token of a line outside a block, if the line has one. `line` has no
/// blanks at its start or end; `last` says whether only blank lines follow it.
pub open spec fn line_token(line: Seq<char>, last: bool) -> Result<Option<TagView>, ErrorKind> {
    if starts_with(line, dashes()) {
        match comment_token(line.skip(3)) {
            Some(tag) => Ok(Some(tag)),
            None => Err(ErrorKind::SyntaxError),
        }
    } else {
        Ok(code_token(line, last))
    }
}

/// Index of the last line that is not blank; -1 where every line is blank.
pub open spec fn last_text(lines: Seq<Seq<char>>) -> int
    decreases lines.len(),
{
    if lines.len() == 0 {
        -1
    } else if trim(lines.last()).len() > 0 {
        lines.len() - 1
    } else {
        last_text(lines.drop_last())
    }
}

/// The two kinds of blocks.
#[derive(Debug, Clone, Copy, PartialEq, Eq, Structural)]
pub enum Block {
    Brief,
    Usage,
}

/// A block that is open, and where it was opened.
#[derive(Debug, Clone, Copy, PartialEq, Eq, Structural)]
pub struct Opened {
    pub block: Block,
    pub line: usize,
    pub column: usize,
}

/// The block that `tag` opens, if it opens one.
pub open spec fn opens(tag: TagView) -> Option<Block> {
    match tag {
        TagView::BriefStart => Some(Block::Brief),
        TagView::UsageStart => Some(Block::Usage),
        _ => None,
    }
}

/// Whether `tag` closes `block`.
pub open spec fn closes(tag: TagView, block: Block) -> bool {
    match block {
        Block::Brief => tag is BriefEnd,
        Block::Usage => tag is UsageEnd,
    }
}

/// Whether the comment line with the text `body` closes `block`.
pub open spec fn closing(body: Seq<char>, block: Block) -> bool {
    match comment_token(body) {
        Some(tag) => closes(tag, block),
        None => false,
    }
}

/// The token that closes `block`.
pub open spec fn closer(block: Block) -> TagView {
    match block {
        Block::Brief => TagView::BriefEnd,
        Block::Usage => TagView::UsageEnd,
    }
}

/// `token` before what `rest` holds, or the error of `rest`.
pub open spec fn prepend(token: SpannedView, rest: Result<Seq<SpannedView>, Error>) -> Result<
    Seq<SpannedView>,
    Error,
> {
    match rest {
        Ok(tokens) => Ok(seq![token] + tokens),
        Err(e) => Err(e),
    }
}

/// `done` before what `rest` holds, or the error of `rest`.
pub open spec fn behind<A>(done: Seq<A>, rest: Result<Seq<A>, Error>) -> Result<Seq<A>, Error> {
    match rest {
        Ok(more) => Ok(done + more),
        Err(e) => Err(e),
    }
}

/// The tokens of the lines from line `k` on, where `open` is the block that
/// line `k` stands in, if it stands in one.
///
/// Inside a block every comment line is free text, taken as it is, up to the
/// line that closes the block; lines of code are passed over. A block that is
/// still open at the end is an error, at the place where it was opened.
/// Outside a block a line gives the token that `line_token` says; a line that
/// would close a block is a syntax error there.
pub open spec fn lex_lines(lines: Seq<Seq<char>>, k: nat, open: Option<Opened>) -> Result<
    Seq<SpannedView>,
    Error,
>
    decreases lines.len() - k,
{
    if k >= lines.len() {
        match open {
            Some(o) => Err(
                Error { kind: ErrorKind::UnterminatedBlock, line: o.line, column: o.column },
            ),
            None => Ok(Seq::empty()),
        }
    } else {
        let line = trim(lines[k as int]);
        let column = run(lines[k as int], Charset::Blank) as usize;
        match open {
            Some(o) => {
                if !starts_with(line, dashes()) {
                    lex_lines(lines, k + 1, open)
                } else if closing(line.skip(3), o.block) {
                    prepend(
                        SpannedView { tag: closer(o.block), line: k as usize, column },
                        lex_lines(lines, k + 1, None),
                    )
                } else {
                    prepend(
                        SpannedView { tag: TagView::Comment(line.skip(3)), line: k as usize, column },
                        lex_lines(lines, k + 1, open),
                    )
                }
            },
            None => match line_token(line, k == last_text(lines)) {
                Err(kind) => Err(Error { kind, line: k as usize, column }),
                Ok(None) => lex_lines(lines, k + 1, None),
                Ok(Some(tag)) => {
                    if tag is BriefEnd || tag is UsageEnd {
                        Err(Error { kind: ErrorKind::SyntaxError, line: k as usize, column })
                    } else {
                        prepend(
                            SpannedView { tag, line: k as usize, column },
                            lex_lines(
                                lines,
                                k + 1,
                                match opens(tag) {
                                    Some(block) => Some(Opened { block, line: k as usize, column }),
                                    None => None,
                                },
                            ),
                        )
                    }
                },
            },
        }
    }
}

/// The tokens of a source text, or the first error in it.
pub open spec fn lex_text(src: Seq<char>) -> Result<Seq<SpannedView>, Error> {
    lex_lines(split_lines(src), 0, None)
}

/// Tokens stand in the order of their lines: each token comes from a line of
/// its own, and a token that stands behind another comes from a later line.
pub proof fn tokens_follow_lines(lines: Seq<Seq<char>>, k: nat, open: Option<Opened>)
    requires
        lines.len() <= usize::MAX,
    ensures
        lex_lines(lines, k, open) matches Ok(tokens) ==> {
            &&& forall|i: int| 0 <= i < tokens.len() ==> k <= (#[trigger] tokens[i]).line < lines.len()
            &&& forall|i: int, j: int|
                0 <= i < j < tokens.len() ==> (#[trigger] tokens[i]).line < (#[trigger] tokens[j]).line
        },
    decreases lines.len() - k,
{
    if k < lines.len() {
        let line = trim(lines[k as int]);
        let next = match open {
            Some(o) => {
                if !starts_with(line, dashes()) {
                    open
                } else if closing(line.skip(3), o.block) {
                    None
                } else {
                    open
                }
            },
            None => match line_token(line, k == last_text(lines)) {
                Ok(Some(tag)) => match opens(tag) {
                    Some(block) => Some(
                        Opened {
                            block,
                            line: k as usize,
                            column: run(lines[k as int], Charset::Blank) as usize,
                        },
                    ),
                    None => None,
                },
                _ => None,
            },
        };
        tokens_follow_lines(lines, k + 1, next);
    }
}

/// One more token behind `done` is one more token before the rest.
proof fn behind_prepend(
    done: Seq<SpannedView>,
    token: SpannedView,
    rest: Result<Seq<SpannedView>, Error>,
)
    ensures
        behind(done, prepend(token, rest)) == behind(done.push(token), rest),
{
    match rest {
        Ok(more) => {
            assert(done + (seq![token] + more) =~= done.push(token) + more);
        },
        Err(_) => {},
    }
}

/// The lines of `s`.
pub fn lines_of(s: &[char]) -> (lines: Vec<Vec<char>>)
    ensures
        lines.deep_view() == split_lines(s@),
        lines.len() >= 1,
{
    let mut lines: Vec<Vec<char>> = Vec::new();
    let mut start: usize = 0;
    assert(s@.skip(0) =~= s@);
    loop
        invariant_except_break
            split_lines(s@) == lines.deep_view() + split_lines(s@.skip(start as int)),
        invariant
            start <= s.len(),
        ensures
            split_lines(s@) == lines.deep_view(),
            lines.len() >= 1,
        decreases s.len() - start,
    {
        let rest = skip(s, start);
        let n = run_len(rest, Charset::Line);
        let line = vstd::slice::slice_to_vec(take(rest, n));
        assert(line.deep_view() =~= rest@.take(n as int));
        lines.push(line);
        if n >= rest.len() {
            assert(rest@.take(n as int) =~= rest@);
            break ;
        }
        assert(rest@.skip(n + 1) =~= s@.skip(start + n + 1));
        start = start + n + 1;
    }
    lines
}

/// Index of the last line that is not blank, if there is one.
fn last_text_line(lines: &Vec<Vec<char>>) -> (r: Option<usize>)
    ensures
        match r {
            Some(k) => last_text(lines.deep_view()) == k,
            None => last_text(lines.deep_view()) == -1,
        },
{
    let mut k: usize = lines.len();
    assert(lines.deep_view().take(k as int) =~= lines.deep_view());
    while k > 0
        invariant
            k <= lines.len(),
            last_text(lines.deep_view()) == last_text(lines.deep_view().take(k as int)),
        decreases k,
    {
        let ghost upto = lines.deep_view().take(k as int);
        assert(upto.last() == lines[k - 1]@);
        assert(upto.drop_last() =~= lines.deep_view().take(k - 1));
        if strip(lines[k - 1].as_slice()).len() > 0 {
            return Some(k - 1);
        }
        k -= 1;
    }
    None
}

/// The token of a line outside a block; see `line_token`.
pub fn lex_line(line: &[char], last: bool) -> (r: Result<Option<TagType>, ErrorKind>)
    ensures
        match r {
            Ok(tag) => line_token(line@, last) == Ok::<Option<TagView>, ErrorKind>(tag.deep_view()),
            Err(kind) => line_token(line@, last) == Err::<Option<TagView>, ErrorKind>(kind),
        },
{
    if is_comment(line) {
        match lex_comment(skip(line, 3)) {
            Some(tag) => Ok(Some(tag)),
            None => Err(ErrorKind::SyntaxError),
        }
    } else {
        Ok(lex_code(line, last))
    }
}

/// Whether `line` begins with the three dashes of a comment line.
fn is_comment(line: &[char]) -> (r: bool)
    ensures
        r == starts_with(line@, dashes()),
        r ==> line.len() >= 3,
{
    if line.len() >= 3 && line[0] == '-' && line[1] == '-' && line[2] == '-' {
        assert(line@.take(3) =~= dashes());
        true
    } else {
        false
    }
}

/// Whether `tag` closes `block`.
fn tag_closes(tag: &Option<TagType>, block: Block) -> (r: bool)
    ensures
        r == match tag.deep_view() {
            Some(t) => closes(t, block),
            None => false,
        },
{
    match tag {
        Some(TagType::BriefEnd) => match block {
            Block::Brief => true,
            Block::Usage => false,
        },
        Some(TagType::UsageEnd) => match block {
            Block::Brief => false,
            Block::Usage => true,
        },
        _ => false,
    }
}

/// The tokens of the source text `src`, in the order of its lines, or the
/// first error in it.
pub fn lex(src: &str) -> (r: Result<Vec<Spanned>, Error>)
    ensures
        match r {
            Ok(tokens) => lex_text(src@) == Ok::<Seq<SpannedView>, Error>(tokens.deep_view()),
            Err(e) => lex_text(src@) == Err::<Seq<SpannedView>, Error>(e),
        },
{
    let chars = chars_of(src);
    let lines = lines_of(chars.as_slice());
    let last = last_text_line(&lines);
    let ghost all = lines.deep_view();
    let mut tokens: Vec<Spanned> = Vec::new();
    let mut open: Option<Opened> = None;
    let mut k: usize = 0;
    while k < lines.len()
        invariant
            k <= lines.len(),
            all == lines.deep_view(),
            match last {
                Some(l) => last_text(all) == l,
                None => last_text(all) == -1,
            },
            lex_text(src@) == behind(tokens.deep_view(), lex_lines(all, k as nat, open)),
        decreases lines.len() - k,
    {
        let ghost done = tokens.deep_view();
        let raw = lines[k].as_slice();
        assert(raw@ == all[k as int]);
        let column = run_len(raw, Charset::Blank);
        let line = strip(raw);
        match open {
            Some(o) => {
                if is_comment(line) {
                    let body = skip(line, 3);
                    let tag = lex_comment(body);
                    if tag_closes(&tag, o.block) {
                        let closer = match o.block {
                            Block::Brief => TagType::BriefEnd,
                            Block::Usage => TagType::UsageEnd,
                        };
                        tokens.push(Spanned { tag: closer, line: k, column });
                        open = None;
                    } else {
                        tokens.push(Spanned { tag: TagType::Comment(string_of(body)), line: k, column });
                    }
                    proof {
                        let token = tokens.deep_view().last();
                        assert(tokens.deep_view() =~= done.push(token));
                        behind_prepend(done, token, lex_lines(all, (k + 1) as nat, open));
                    }
                }
            },
            None => {
                let is_last = match last {
                    Some(l) => l == k,
                    None => false,
                };
                match lex_line(line, is_last) {
                    Err(kind) => {
                        return Err(Error { kind, line: k, column });
                    },
                    Ok(None) => {},
                    Ok(Some(tag)) => {
                        match tag {
                            TagType::BriefEnd | TagType::UsageEnd => {
                                return Err(Error { kind: ErrorKind::SyntaxError, line: k, column });
                            },
                            TagType::BriefStart => {
                                open = Some(Opened { block: Block::Brief, line: k, column });
                            },
                            TagType::UsageStart => {
                                open = Some(Opened { block: Block::Usage, line: k, column });
                            },
                            _ => {},
                        }
                        tokens.push(Spanned { tag, line: k, column });
                        proof {
                            let token = tokens.deep_view().last();
                            assert(tokens.deep_view() =~= done.push(token));
                            behind_prepend(done, token, lex_lines(all, (k + 1) as nat, open));
                        }
                    },
                }
            },
        }
        k += 1;
    }
    match open {
        Some(o) => Err(Error { kind: ErrorKind::UnterminatedBlock, line: o.line, column: o.column }),
        None => Ok(tokens),
    }
}

} // verus!
