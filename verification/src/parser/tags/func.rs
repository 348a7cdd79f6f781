use crate::lexer::{
    bare_name, is_optional, Error, ErrorKind, Kind, Spanned, SpannedView, TagType, TagView,
};
use crate::parser::tags::see::{see_from, see_text, See, SeeView};
use crate::parser::tags::usage::{optional_usage_text, usage_from, Usage, UsageView};
use crate::parser::{
    collect_inline, collect_texts, comment_run, copy_optional, count_run, error_at, inline_text,
    or_empty, remaining, texts_from, Prefix, PrefixView, Shape,
};
use crate::table::{rectangular, table_text, Table};
use crate::text::{chars_of, concat, concat_keeps_order, concat_take, join, join_take, str_eq, string_of};
use crate::vimdoc::{
    add_item_rows, braced, description_text, gathered_rows_rectangular, header, header_line,
    in_parens, item_rows, item_rows_rectangular, label,
    make_name_cell, make_type_cell, name_cell, parenthesized, push_description, push_label,
    type_cell, TABLE_INDENT, TEXT_WIDTH,
};
use crate::Settings;
use vstd::prelude::*;
use vstd::slice::slice_subrange;
use vstd::string::StringExecFns;

verus! {

/// A parameter of a function. An optional parameter has `?` at the end of its name.
#[derive(Debug, Clone, PartialEq, Eq)]
pub struct Param {
    pub name: String,
    pub ty: String,
    pub desc: Vec<String>,
}

/// What a `Param` holds, as text.
pub struct ParamView {
    pub name: Seq<char>,
    pub ty: Seq<char>,
    pub desc: Seq<Seq<char>>,
}

impl DeepView for Param {
    type V = ParamView;

    open spec fn deep_view(&self) -> ParamView {
        ParamView { name: self.name@, ty: self.ty@, desc: self.desc.deep_view() }
    }
}

/// A value that a function returns.
#[derive(Debug, Clone, PartialEq, Eq)]
pub struct Return {
    pub ty: String,
    pub name: Option<String>,
    pub desc: Vec<String>,
}

/// What a `Return` holds, as text.
pub struct ReturnView {
    pub ty: Seq<char>,
    pub name: Option<Seq<char>>,
    pub desc: Seq<Seq<char>>,
}

impl DeepView for Return {
    type V = ReturnView;

    open spec fn deep_view(&self) -> ReturnView {
        ReturnView { ty: self.ty@, name: self.name.deep_view(), desc: self.desc.deep_view() }
    }
}

/// A documented function.
#[derive(Debug, Clone, PartialEq, Eq)]
pub struct Func {
    pub name: String,
    pub kind: Kind,
    pub prefix: Prefix,
    pub desc: Vec<String>,
    pub params: Vec<Param>,
    pub returns: Vec<Return>,
    pub see: See,
    pub usage: Option<Usage>,
}

/// What a `Func` holds, as text.
pub struct FuncView {
    pub name: Seq<char>,
    pub kind: Kind,
    pub prefix: PrefixView,
    pub desc: Seq<Seq<char>>,
    pub params: Seq<ParamView>,
    pub returns: Seq<ReturnView>,
    pub see: SeeView,
    pub usage: Option<UsageView>,
}

impl DeepView for Func {
    type V = FuncView;

    open spec fn deep_view(&self) -> FuncView {
        FuncView {
            name: self.name@,
            kind: self.kind,
            prefix: self.prefix.deep_view(),
            desc: self.desc.deep_view(),
            params: self.params.deep_view(),
            returns: self.returns.deep_view(),
            see: self.see.deep_view(),
            usage: self.usage.deep_view(),
        }
    }
}


/// Name cell and type cell of a parameter.
pub open spec fn param_head(p: ParamView, expand: bool) -> Seq<Seq<char>> {
    seq![
        name_cell(bare_name(p.name), is_optional(p.name), expand),
        type_cell(p.ty, is_optional(p.name), expand),
    ]
}

/// Whether any of the parameters has a description.
pub open spec fn params_described(ps: Seq<ParamView>) -> bool {
    exists|i: int| 0 <= i < ps.len() && (#[trigger] ps[i]).desc.len() > 0
}

/// The table rows of each parameter.
pub open spec fn param_groups(ps: Seq<ParamView>, expand: bool) -> Seq<Seq<Seq<Seq<char>>>> {
    Seq::new(
        ps.len(),
        |i: int| item_rows(param_head(ps[i], expand), ps[i].desc, params_described(ps)),
    )
}

/// The rows of the parameter table: those of each parameter, in the order of
/// the parameters. The table has a description column if any parameter has a
/// description.
pub open spec fn param_rows(ps: Seq<ParamView>, expand: bool) -> Seq<Seq<Seq<char>>> {
    concat(param_groups(ps, expand))
}

/// What stands beside the type of a returned value: its description, or else
/// its name, or nothing.
pub open spec fn return_note(r: ReturnView) -> Seq<Seq<char>> {
    if r.desc.len() > 0 {
        r.desc
    } else {
        match r.name {
            Some(n) => seq![n],
            None => Seq::empty(),
        }
    }
}

/// Whether anything stands beside the type of any of the returned values.
pub open spec fn returns_described(rs: Seq<ReturnView>) -> bool {
    exists|i: int| 0 <= i < rs.len() && return_note(#[trigger] rs[i]).len() > 0
}

/// The table rows of each returned value.
pub open spec fn return_groups(rs: Seq<ReturnView>) -> Seq<Seq<Seq<Seq<char>>>> {
    Seq::new(
        rs.len(),
        |i: int| item_rows(seq![parenthesized(rs[i].ty)], return_note(rs[i]), returns_described(rs)),
    )
}

/// The rows of the table of returned values, in the order of the values.
pub open spec fn return_rows(rs: Seq<ReturnView>) -> Seq<Seq<Seq<char>>> {
    concat(return_groups(rs))
}

/// A section that holds a table: its label, the table, and an empty line.
pub open spec fn table_section(name: Seq<char>, rows: Seq<Seq<Seq<char>>>) -> Seq<char> {
    label(name) + table_text(rows, TABLE_INDENT as nat) + seq!['\n']
}

/// The section of parameters; nothing where there are none.
pub open spec fn params_text(ps: Seq<ParamView>, expand: bool) -> Seq<char> {
    if ps.len() == 0 {
        Seq::empty()
    } else {
        table_section("Parameters:"@, param_rows(ps, expand))
    }
}

/// The section of returned values; nothing where there are none.
pub open spec fn returns_text(rs: Seq<ReturnView>) -> Seq<char> {
    if rs.len() == 0 {
        Seq::empty()
    } else {
        table_section("Returns:"@, return_rows(rs))
    }
}

/// A name behind its prefix, if it has one, and the character of its kind.
pub open spec fn qualified(prefix: Option<Seq<char>>, kind: Kind, name: Seq<char>) -> Seq<char> {
    or_empty(prefix) + seq![kind.glyph()] + name
}

/// The parameters as the signature shows them: each name as it was written,
/// between braces.
pub open spec fn argument_cells(ps: Seq<ParamView>) -> Seq<Seq<char>> {
    Seq::new(ps.len(), |i: int| braced(ps[i].name))
}

/// The signature of a function: its name as the source has it, and its
/// parameters in round brackets, with a comma and a space between two of them.
pub open spec fn signature(f: FuncView) -> Seq<char> {
    qualified(f.prefix.left, f.kind, f.name) + seq!['('] + join(
        argument_cells(f.params),
        seq![',', ' '],
    ) + seq![')']
}

/// The help tag of a function: its name behind the prefix that it is shown under.
pub open spec fn func_tag(f: FuncView) -> Seq<char> {
    qualified(f.prefix.right, f.kind, f.name)
}

/// A function as help text: the header line, the description, an empty line,
/// then the sections of parameters, returned values, references and usage, as
/// far as there are any, and an empty line.
pub open spec fn func_text(f: FuncView, expand: bool) -> Seq<char> {
    header_line(signature(f), func_tag(f), TEXT_WIDTH as nat) + seq!['\n'] + description_text(f.desc)
        + seq!['\n'] + params_text(f.params, expand) + returns_text(f.returns) + see_text(f.see)
        + optional_usage_text(f.usage) + seq!['\n']
}

/// An optional parameter `name?` of type `T`: with expansion on, its type
/// cell is `(nil|T)` and its name cell `{name}`; with expansion off, its type
/// cell is `(T)` and its name cell `{name?}`.
pub proof fn optional_param_cells(p: ParamView)
    requires
        is_optional(p.name),
    ensures
        param_head(p, true) == seq![
            braced(p.name.drop_last()),
            parenthesized(seq!['n', 'i', 'l', '|'] + p.ty),
        ],
        param_head(p, false) == seq![braced(p.name), parenthesized(p.ty)],
{
    assert(p.name.drop_last().push('?') =~= p.name);
}

/// A parameter that is not optional has the cells `{name}` and `(T)`,
/// whatever the settings.
pub proof fn required_param_cells(p: ParamView, expand: bool)
    requires
        !is_optional(p.name),
    ensures
        param_head(p, expand) == seq![braced(p.name), parenthesized(p.ty)],
{
}

/// The parameter table is a table: each of its rows has three cells if any
/// parameter has a description, and two if none has.
pub proof fn param_rows_rectangular(ps: Seq<ParamView>, expand: bool)
    ensures
        rectangular(
            param_rows(ps, expand),
            if params_described(ps) {
                3nat
            } else {
                2nat
            },
        ),
{
    let groups = param_groups(ps, expand);
    let n = if params_described(ps) {
        3nat
    } else {
        2nat
    };
    assert forall|i: int| 0 <= i < groups.len() implies rectangular(#[trigger] groups[i], n) by {
        item_rows_rectangular(param_head(ps[i], expand), ps[i].desc, params_described(ps));
    }
    gathered_rows_rectangular(groups, n);
}

/// The table of returned values is a table: each of its rows has two cells
/// if anything stands beside any of the types, and one if nothing does.
pub proof fn return_rows_rectangular(rs: Seq<ReturnView>)
    ensures
        rectangular(
            return_rows(rs),
            if returns_described(rs) {
                2nat
            } else {
                1nat
            },
        ),
{
    let groups = return_groups(rs);
    let n = if returns_described(rs) {
        2nat
    } else {
        1nat
    };
    assert forall|i: int| 0 <= i < groups.len() implies rectangular(#[trigger] groups[i], n) by {
        item_rows_rectangular(
            seq![parenthesized(rs[i].ty)],
            return_note(rs[i]),
            returns_described(rs),
        );
    }
    gathered_rows_rectangular(groups, n);
}

/// The signature names every parameter as it was written, with the mark of an
/// optional one, in the order of the parameters.
pub proof fn signature_keeps_names(f: FuncView, i: int)
    requires
        0 <= i < f.params.len(),
    ensures
        argument_cells(f.params).len() == f.params.len(),
        argument_cells(f.params)[i] == seq!['{'] + f.params[i].name + seq!['}'],
{
}

/// The rows of parameter `i` stand in the table as they are, behind the rows
/// of all parameters before it and before those of all parameters after it.
pub proof fn params_keep_order(ps: Seq<ParamView>, expand: bool, i: int)
    requires
        0 <= i < ps.len(),
    ensures
        param_rows(ps, expand) == concat(param_groups(ps, expand).take(i)) + item_rows(
            param_head(ps[i], expand),
            ps[i].desc,
            params_described(ps),
        ) + concat(param_groups(ps, expand).skip(i + 1)),
{
    concat_keeps_order(param_groups(ps, expand), i);
}

/// The rows of returned value `i` stand in the table as they are, behind the
/// rows of all values before it and before those of all values after it.
pub proof fn returns_keep_order(rs: Seq<ReturnView>, i: int)
    requires
        0 <= i < rs.len(),
    ensures
        return_rows(rs) == concat(return_groups(rs).take(i)) + item_rows(
            seq![parenthesized(rs[i].ty)],
            return_note(rs[i]),
            returns_described(rs),
        ) + concat(return_groups(rs).skip(i + 1)),
{
    concat_keeps_order(return_groups(rs), i);
}

/// The name without the mark of an optional name, and whether it had the mark.
pub fn split_optional(name: &str) -> (r: (String, bool))
    ensures
        r.0@ == bare_name(name@),
        r.1 == is_optional(name@),
{
    let chars = chars_of(name);
    let n = chars.len();
    if n > 0 && chars[n - 1] == '?' {
        let bare = string_of(slice_subrange(chars.as_slice(), 0, n - 1));
        (bare, true)
    } else {
        (string_of(chars.as_slice()), false)
    }
}

/// Whether any of the parameters has a description.
fn any_param_described(params: &Vec<Param>) -> (r: bool)
    ensures
        r == params_described(params.deep_view()),
{
    let mut i: usize = 0;
    while i < params.len()
        invariant
            i <= params.len(),
            forall|k: int| 0 <= k < i ==> (#[trigger] params.deep_view()[k]).desc.len() == 0,
        decreases params.len() - i,
    {
        if params[i].desc.len() > 0 {
            assert(params.deep_view()[i as int].desc.len() > 0);
            return true;
        }
        i += 1;
    }
    false
}

/// The table of parameters.
pub fn params_table(params: &Vec<Param>, expand: bool) -> (t: Table)
    ensures
        t.wf(),
        t@ == param_rows(params.deep_view(), expand),
{
    let described = any_param_described(params);
    let mut t = Table::new(if described { 3 } else { 2 });
    let ghost groups = param_groups(params.deep_view(), expand);
    let mut i: usize = 0;
    while i < params.len()
        invariant
            i <= params.len(),
            t.wf(),
            t.columns() == if described { 3nat } else { 2nat },
            described == params_described(params.deep_view()),
            groups == param_groups(params.deep_view(), expand),
            t@ == concat(groups.take(i as int)),
        decreases params.len() - i,
    {
        let p = &params[i];
        let (bare, optional) = split_optional(p.name.as_str());
        let mut head: Vec<String> = Vec::new();
        head.push(make_name_cell(bare.as_str(), optional, expand));
        head.push(make_type_cell(p.ty.as_str(), optional, expand));
        assert(head.deep_view() =~= param_head(params.deep_view()[i as int], expand));
        add_item_rows(&mut t, head, &p.desc, described);
        proof {
            concat_take(groups, i as int);
        }
        i += 1;
    }
    assert(groups.take(i as int) =~= groups);
    t
}

/// What stands beside the type of a returned value.
fn note_of(r: &Return) -> (note: Vec<String>)
    ensures
        note.deep_view() == return_note(r.deep_view()),
{
    let mut note: Vec<String> = Vec::new();
    if r.desc.len() > 0 {
        let mut i: usize = 0;
        while i < r.desc.len()
            invariant
                i <= r.desc.len(),
                note.deep_view() == r.desc.deep_view().take(i as int),
            decreases r.desc.len() - i,
        {
            let ghost before = note.deep_view();
            note.push(r.desc[i].clone());
            assert(note.deep_view() =~= before.push(r.desc.deep_view()[i as int]));
            i += 1;
        }
    } else {
        match &r.name {
            Some(n) => {
                note.push(n.clone());
            },
            None => {},
        }
    }
    note
}

/// Whether anything stands beside the type of any of the returned values.
fn any_return_described(rets: &Vec<Return>) -> (r: bool)
    ensures
        r == returns_described(rets.deep_view()),
{
    let mut i: usize = 0;
    while i < rets.len()
        invariant
            i <= rets.len(),
            forall|k: int| 0 <= k < i ==> return_note(#[trigger] rets.deep_view()[k]).len() == 0,
        decreases rets.len() - i,
    {
        if rets[i].desc.len() > 0 || rets[i].name.is_some() {
            assert(return_note(rets.deep_view()[i as int]).len() > 0);
            return true;
        }
        i += 1;
    }
    false
}

/// The table of returned values.
pub fn returns_table(rets: &Vec<Return>) -> (t: Table)
    ensures
        t.wf(),
        t@ == return_rows(rets.deep_view()),
{
    let described = any_return_described(rets);
    let mut t = Table::new(if described { 2 } else { 1 });
    let ghost groups = return_groups(rets.deep_view());
    let mut i: usize = 0;
    while i < rets.len()
        invariant
            i <= rets.len(),
            t.wf(),
            t.columns() == if described { 2nat } else { 1nat },
            described == returns_described(rets.deep_view()),
            groups == return_groups(rets.deep_view()),
            t@ == concat(groups.take(i as int)),
        decreases rets.len() - i,
    {
        let r = &rets[i];
        let mut head: Vec<String> = Vec::new();
        head.push(in_parens(r.ty.as_str()));
        assert(head.deep_view() =~= seq![parenthesized(rets.deep_view()[i as int].ty)]);
        let note = note_of(r);
        add_item_rows(&mut t, head, &note, described);
        proof {
            concat_take(groups, i as int);
        }
        i += 1;
    }
    assert(groups.take(i as int) =~= groups);
    t
}

/// Appends a section that holds `table` to `out`.
pub fn push_table_section(out: &mut String, name: &str, table: &Table)
    requires
        table.wf(),
    ensures
        final(out)@ == old(out)@ + table_section(name@, table@),
{
    push_label(out, name);
    let text = table.render(TABLE_INDENT);
    out.append(text.as_str());
    out.push('\n');
}

/// Appends `prefix`, if there is one, the character of `kind`, and `name`.
pub fn push_qualified(out: &mut String, prefix: &Option<String>, kind: Kind, name: &str)
    ensures
        final(out)@ == old(out)@ + qualified(prefix.deep_view(), kind, name@),
{
    match prefix {
        Some(p) => {
            out.append(p.as_str());
        },
        None => {},
    }
    out.push(kind.as_char());
    out.append(name);
}

/// The parameter that a token states, with the free text behind it as the
/// rest of its description; an empty parameter for another token.
pub open spec fn param_of(tag: TagView, extra: Seq<Seq<char>>) -> ParamView {
    match tag {
        TagView::Param { name, ty, desc } => ParamView { name, ty, desc: inline_text(desc) + extra },
        _ => ParamView { name: Seq::empty(), ty: Seq::empty(), desc: extra },
    }
}

/// The parameters from token `i` on: as many as follow each other, in their
/// order, each with the free text behind it, and the number of their tokens.
pub open spec fn params_from(toks: Seq<SpannedView>, i: int) -> (Seq<ParamView>, nat)
    decreases remaining(toks, i),
{
    if 0 <= i < toks.len() && toks[i].tag is Param {
        let n = comment_run(toks, i + 1);
        let rest = params_from(toks, i + 1 + n);
        (seq![param_of(toks[i].tag, texts_from(toks, i + 1, n))] + rest.0, 1 + n + rest.1)
    } else {
        (Seq::empty(), 0)
    }
}

/// The returned value that a token states, with the free text behind it as
/// the rest of its description; an empty one for another token.
pub open spec fn return_of(tag: TagView, extra: Seq<Seq<char>>) -> ReturnView {
    match tag {
        TagView::Return { ty, name, desc } => ReturnView { ty, name, desc: inline_text(desc) + extra },
        _ => ReturnView { ty: Seq::empty(), name: None, desc: extra },
    }
}

/// The returned values from token `i` on: as many as follow each other, in
/// their order, each with the free text behind it, and the number of their
/// tokens.
pub open spec fn returns_from(toks: Seq<SpannedView>, i: int) -> (Seq<ReturnView>, nat)
    decreases remaining(toks, i),
{
    if 0 <= i < toks.len() && toks[i].tag is Return {
        let n = comment_run(toks, i + 1);
        let rest = returns_from(toks, i + 1 + n);
        (seq![return_of(toks[i].tag, texts_from(toks, i + 1, n))] + rest.0, 1 + n + rest.1)
    } else {
        (Seq::empty(), 0)
    }
}

/// The function that the tokens from token `j` on document: parameters, then
/// returned values, then references, then an example of use, each as far as
/// there are any, and then the definition of the function, which must be
/// there. It gives the name, and its prefix is the one that the source has
/// and the one that is shown. `lead`, the free text before token `j`, is the
/// description. Where the definition does not follow, that is an error at
/// the place of token `j`.
pub open spec fn func_from(toks: Seq<SpannedView>, j: int, lead: Seq<Seq<char>>) -> Result<
    (FuncView, nat),
    Error,
> {
    let params = params_from(toks, j);
    let rets = returns_from(toks, j + params.1);
    let see = see_from(toks, j + params.1 + rets.1);
    match usage_from(toks, j + params.1 + rets.1 + see.1) {
        Err(e) => Err(e),
        Ok((usage, n)) => {
            let extra = params.1 + rets.1 + see.1 + n;
            if j + extra < toks.len() {
                match toks[j + extra].tag {
                    TagView::Func { prefix, name, kind } => Ok(
                        (
                            FuncView {
                                name,
                                kind,
                                prefix: PrefixView { left: prefix, right: prefix },
                                desc: lead,
                                params: params.0,
                                returns: rets.0,
                                see: see.0,
                                usage,
                            },
                            extra,
                        ),
                    ),
                    _ => Err(error_at(ErrorKind::MissingDefinition, toks[j])),
                }
            } else {
                Err(error_at(ErrorKind::MissingDefinition, toks[j]))
            }
        },
    }
}

impl Param {
    /// The parameter that token `i` states, with the free text behind it, and
    /// the number of its tokens.
    pub fn parse(toks: &Vec<Spanned>, i: usize) -> (r: (Param, usize))
        requires
            i < toks.len(),
        ensures
            r.0.deep_view() == param_of(
                toks.deep_view()[i as int].tag,
                texts_from(toks.deep_view(), i + 1, comment_run(toks.deep_view(), i + 1)),
            ),
            r.1 == 1 + comment_run(toks.deep_view(), i + 1),
            i + r.1 <= toks.len(),
    {
        let n = count_run(toks, i + 1, Shape::Comment);
        let mut desc: Vec<String> = Vec::new();
        match &toks[i].tag {
            TagType::Param { name, ty, desc: note } => {
                collect_inline(note, &mut desc);
                collect_texts(toks, i + 1, n, &mut desc);
                (Param { name: name.clone(), ty: ty.clone(), desc }, n + 1)
            },
            _ => {
                collect_texts(toks, i + 1, n, &mut desc);
                (Param { name: String::new(), ty: String::new(), desc }, n + 1)
            },
        }
    }
}

impl Return {
    /// The returned value that token `i` states, with the free text behind
    /// it, and the number of its tokens.
    pub fn parse(toks: &Vec<Spanned>, i: usize) -> (r: (Return, usize))
        requires
            i < toks.len(),
        ensures
            r.0.deep_view() == return_of(
                toks.deep_view()[i as int].tag,
                texts_from(toks.deep_view(), i + 1, comment_run(toks.deep_view(), i + 1)),
            ),
            r.1 == 1 + comment_run(toks.deep_view(), i + 1),
            i + r.1 <= toks.len(),
    {
        let n = count_run(toks, i + 1, Shape::Comment);
        let mut desc: Vec<String> = Vec::new();
        match &toks[i].tag {
            TagType::Return { ty, name, desc: note } => {
                collect_inline(note, &mut desc);
                collect_texts(toks, i + 1, n, &mut desc);
                (Return { ty: ty.clone(), name: copy_optional(name), desc }, n + 1)
            },
            _ => {
                collect_texts(toks, i + 1, n, &mut desc);
                (Return { ty: String::new(), name: None, desc }, n + 1)
            },
        }
    }
}

/// The parameters from token `i` on; see `params_from`.
pub fn parse_params(toks: &Vec<Spanned>, i: usize) -> (r: (Vec<Param>, usize))
    requires
        i <= toks.len(),
    ensures
        (r.0.deep_view(), r.1 as nat) == params_from(toks.deep_view(), i as int),
        i + r.1 <= toks.len(),
{
    let ghost all = toks.deep_view();
    let mut params: Vec<Param> = Vec::new();
    let mut k: usize = i;
    loop
        invariant
            i <= k <= toks.len(),
            all == toks.deep_view(),
            params_from(all, i as int).0 == params.deep_view() + params_from(all, k as int).0,
            params_from(all, i as int).1 == (k - i) + params_from(all, k as int).1,
        ensures
            params_from(all, k as int) == (Seq::<ParamView>::empty(), 0nat),
        decreases toks.len() - k,
    {
        let found = k < toks.len() && match &toks[k].tag {
            TagType::Param { .. } => true,
            _ => false,
        };
        if !found {
            break ;
        }
        let (p, n) = Param::parse(toks, k);
        params.push(p);
        k = k + n;
    }
    (params, k - i)
}

/// The returned values from token `i` on; see `returns_from`.
pub fn parse_returns(toks: &Vec<Spanned>, i: usize) -> (r: (Vec<Return>, usize))
    requires
        i <= toks.len(),
    ensures
        (r.0.deep_view(), r.1 as nat) == returns_from(toks.deep_view(), i as int),
        i + r.1 <= toks.len(),
{
    let ghost all = toks.deep_view();
    let mut rets: Vec<Return> = Vec::new();
    let mut k: usize = i;
    loop
        invariant
            i <= k <= toks.len(),
            all == toks.deep_view(),
            returns_from(all, i as int).0 == rets.deep_view() + returns_from(all, k as int).0,
            returns_from(all, i as int).1 == (k - i) + returns_from(all, k as int).1,
        ensures
            returns_from(all, k as int) == (Seq::<ReturnView>::empty(), 0nat),
        decreases toks.len() - k,
    {
        let found = k < toks.len() && match &toks[k].tag {
            TagType::Return { .. } => true,
            _ => false,
        };
        if !found {
            break ;
        }
        let (r, n) = Return::parse(toks, k);
        rets.push(r);
        k = k + n;
    }
    (rets, k - i)
}

impl Func {
    /// The function that the tokens from token `j` on document; see `func_from`.
    pub fn parse(toks: &Vec<Spanned>, j: usize, lead: Vec<String>) -> (r: Result<
        (Func, usize),
        Error,
    >)
        requires
            j < toks.len(),
        ensures
            match r {
                Ok((f, extra)) => func_from(toks.deep_view(), j as int, lead.deep_view()) == Ok::<
                    (FuncView, nat),
                    Error,
                >((f.deep_view(), extra as nat)) && j + 1 + extra <= toks.len(),
                Err(e) => func_from(toks.deep_view(), j as int, lead.deep_view()) == Err::<
                    (FuncView, nat),
                    Error,
                >(e),
            },
    {
        let (params, a) = parse_params(toks, j);
        let (rets, b) = parse_returns(toks, j + a);
        let (see, c) = See::parse(toks, j + a + b);
        let (usage, d) = match Usage::parse(toks, j + a + b + c) {
            Ok(found) => found,
            Err(e) => {
                return Err(e);
            },
        };
        let extra = a + b + c + d;
        let missing = Error {
            kind: ErrorKind::MissingDefinition,
            line: toks[j].line,
            column: toks[j].column,
        };
        if j + extra >= toks.len() {
            return Err(missing);
        }
        match &toks[j + extra].tag {
            TagType::Func { prefix, name, kind } => Ok(
                (
                    Func {
                        name: name.clone(),
                        kind: *kind,
                        prefix: Prefix { left: copy_optional(prefix), right: copy_optional(prefix) },
                        desc: lead,
                        params,
                        returns: rets,
                        see,
                        usage,
                    },
                    extra,
                ),
            ),
            _ => Err(missing),
        }
    }

    /// Puts `tag` in place of the prefix that the help tag shows. The prefix
    /// that the source has stays.
    pub fn rename_tag(&mut self, tag: String)
        ensures
            final(self).deep_view() == (FuncView {
                prefix: PrefixView { left: old(self).deep_view().prefix.left, right: Some(tag@) },
                ..old(self).deep_view()
            }),
    {
        self.prefix.right = Some(tag);
    }

    /// Whether the module that exports `export` exports this function: it is
    /// not local, and the prefix that the source has is `export`.
    pub fn is_public(&self, export: &str) -> (r: bool)
        ensures
            r == (self.kind != Kind::Local && self.deep_view().prefix.left == Some(export@)),
    {
        match self.kind {
            Kind::Local => false,
            _ => match &self.prefix.left {
                Some(left) => str_eq(left.as_str(), export),
                None => false,
            },
        }
    }

    /// The signature of the function.
    pub fn signature(&self) -> (sig: String)
        ensures
            sig@ == signature(self.deep_view()),
    {
        let mut sig = String::new();
        push_qualified(&mut sig, &self.prefix.left, self.kind, self.name.as_str());
        sig.push('(');
        let ghost base = sig@;
        let ghost cells = argument_cells(self.deep_view().params);
        let ghost sep = seq![',', ' '];
        let mut i: usize = 0;
        while i < self.params.len()
            invariant
                i <= self.params.len(),
                cells == argument_cells(self.deep_view().params),
                sep == seq![',', ' '],
                sig@ == base + join(cells.take(i as int), sep),
            decreases self.params.len() - i,
        {
            if i > 0 {
                sig.push(',');
                sig.push(' ');
            }
            sig.push('{');
            sig.append(self.params[i].name.as_str());
            sig.push('}');
            proof {
                join_take(cells, sep, i as int);
            }
            i += 1;
        }
        sig.push(')');
        assert(cells.take(i as int) =~= cells);
        sig
    }

    /// The help tag of the function.
    pub fn tag(&self) -> (tag: String)
        ensures
            tag@ == func_tag(self.deep_view()),
    {
        let mut tag = String::new();
        push_qualified(&mut tag, &self.prefix.right, self.kind, self.name.as_str());
        tag
    }

    /// The function as help text.
    pub fn render(&self, settings: &Settings) -> (out: String)
        ensures
            out@ == func_text(self.deep_view(), settings.expand_opt),
    {
        let sig = self.signature();
        let tag = self.tag();
        let mut out = header(sig.as_str(), tag.as_str(), TEXT_WIDTH);
        out.push('\n');
        push_description(&mut out, &self.desc);
        out.push('\n');
        if self.params.len() > 0 {
            let table = params_table(&self.params, settings.expand_opt);
            push_table_section(&mut out, "Parameters:", &table);
        }
        if self.returns.len() > 0 {
            let table = returns_table(&self.returns);
            push_table_section(&mut out, "Returns:", &table);
        }
        self.see.render_into(&mut out);
        match &self.usage {
            Some(usage) => {
                usage.render_into(&mut out);
            },
            None => {},
        }
        out.push('\n');
        out
    }
}

} // verus!
