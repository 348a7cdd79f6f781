//! The shapes of vim help text: header lines with a tag at the right margin,
//! indented descriptions, section labels and the cells of tables.

use crate::parser::tags::alias::alias_text;
use crate::parser::tags::brief::brief_text;
use crate::parser::tags::class::class_text;
use crate::parser::tags::func::func_text;
use crate::parser::tags::module::module_text;
use crate::parser::tags::typedef::type_text;
use crate::parser::{Node, NodeView};
use crate::table::{rectangular, Table};
use crate::text::{
    char_len, chars_of, concat, concat_append, concat_keeps_order, concat_take, indent_all,
    push_indented, push_spaces, spaces, unlines, unlines_take,
};
use crate::{Settings, VimCats};
use crate::wrap::{wrap, wrap_line};
use vstd::prelude::*;
use vstd::string::StringExecFns;

verus! {

/// The column in which help text ends.
pub const TEXT_WIDTH: usize = 78;

/// How far a description stands in from the margin.
pub const INDENT: usize = 4;

/// How far tables, references and code stand in from the margin.
pub const TABLE_INDENT: usize = 8;

/// A tag as vim finds it: the name between stars.
pub open spec fn anchor(tag: Seq<char>) -> Seq<char> {
    seq!['*'] + tag + seq!['*']
}

/// A header line: the signature at the left margin and the tag's anchor so
/// that its closing star stands in column `width`. Where both do not fit into
/// `width` columns, the anchor follows the signature after one space.
pub open spec fn header_line(sig: Seq<char>, tag: Seq<char>, width: nat) -> Seq<char> {
    if sig.len() + anchor(tag).len() <= width {
        sig + spaces((width - sig.len() - anchor(tag).len()) as nat) + anchor(tag)
    } else {
        sig + seq![' '] + anchor(tag)
    }
}

/// Where signature and anchor fit, the line is `width` columns long, begins
/// with the signature, ends with the anchor, whose closing star is thus in
/// column `width`, and holds spaces between them. Where they do not fit, one
/// space parts them and nothing else is added.
pub proof fn header_alignment(sig: Seq<char>, tag: Seq<char>, width: nat)
    ensures
        sig.len() + anchor(tag).len() <= width ==> {
            let line = header_line(sig, tag, width);
            &&& line.len() == width
            &&& line.take(sig.len() as int) == sig
            &&& line.skip(width - anchor(tag).len()) == anchor(tag)
            &&& line[width - 1] == '*'
            &&& forall|i: int| sig.len() <= i < width - anchor(tag).len() ==> line[i] == ' '
        },
        sig.len() + anchor(tag).len() > width ==> {
            let line = header_line(sig, tag, width);
            &&& line == sig + seq![' '] + anchor(tag)
            &&& line.len() == sig.len() + 1 + anchor(tag).len()
            &&& line.last() == '*'
        },
{
}

/// The header line for `sig` and `tag`.
pub fn header(sig: &str, tag: &str, width: usize) -> (line: String)
    ensures
        line@ == header_line(sig@, tag@, width as nat),
{
    let s = char_len(sig);
    let t = char_len(tag);
    let mut line = String::new();
    line.append(sig);
    if s <= width && t <= width - s && 2 <= width - s - t {
        push_spaces(&mut line, width - s - t - 2);
    } else {
        line.push(' ');
    }
    line.push('*');
    line.append(tag);
    line.push('*');
    line
}

/// One line of a description as help text: wrapped to the text width, each
/// resulting line indented and closed by a newline.
pub open spec fn description_line(line: Seq<char>) -> Seq<char> {
    unlines(indent_all(wrap(line, (TEXT_WIDTH - INDENT) as nat), INDENT as nat))
}

/// A description as help text: its lines, each as `description_line` has it,
/// in their order.
pub open spec fn description_text(desc: Seq<Seq<char>>) -> Seq<char> {
    concat(Seq::new(desc.len(), |i: int| description_line(desc[i])))
}

/// Appends the description to `out`.
pub fn push_description(out: &mut String, desc: &Vec<String>)
    ensures
        final(out)@ == old(out)@ + description_text(desc.deep_view()),
{
    let ghost parts = Seq::new(desc.len() as nat, |i: int| description_line(desc.deep_view()[i]));
    let mut i: usize = 0;
    while i < desc.len()
        invariant
            i <= desc.len(),
            parts == Seq::new(desc.len() as nat, |i: int| description_line(desc.deep_view()[i])),
            out@ == old(out)@ + concat(parts.take(i as int)),
        decreases desc.len() - i,
    {
        let ghost base = out@;
        let chars = chars_of(desc[i].as_str());
        let pieces = wrap_line(chars.as_slice(), TEXT_WIDTH - INDENT);
        let ghost lines = indent_all(pieces.deep_view(), INDENT as nat);
        let mut k: usize = 0;
        while k < pieces.len()
            invariant
                k <= pieces.len(),
                lines == indent_all(pieces.deep_view(), INDENT as nat),
                out@ == base + unlines(lines.take(k as int)),
            decreases pieces.len() - k,
        {
            push_indented(out, pieces[k].as_str(), INDENT);
            proof {
                unlines_take(lines, k as int);
            }
            k += 1;
        }
        proof {
            assert(lines.take(k as int) =~= lines);
            concat_take(parts, i as int);
        }
        i += 1;
    }
    assert(parts.take(i as int) =~= parts);
}

/// The line that opens a section: the section's name, indented, and the mark
/// that makes vim show it as a heading.
pub open spec fn label(name: Seq<char>) -> Seq<char> {
    spaces(INDENT as nat) + name + seq![' ', '~', '\n']
}

/// Appends the line that opens the section `name`.
pub fn push_label(out: &mut String, name: &str)
    ensures
        final(out)@ == old(out)@ + label(name@),
{
    push_spaces(out, INDENT);
    out.append(name);
    out.push(' ');
    out.push('~');
    out.push('\n');
}

/// `s` between braces.
pub open spec fn braced(s: Seq<char>) -> Seq<char> {
    seq!['{'] + s + seq!['}']
}

/// `s` between round brackets.
pub open spec fn parenthesized(s: Seq<char>) -> Seq<char> {
    seq!['('] + s + seq![')']
}

/// `s` between round brackets.
pub fn in_parens(s: &str) -> (r: String)
    ensures
        r@ == parenthesized(s@),
{
    let mut r = String::new();
    r.push('(');
    r.append(s);
    r.push(')');
    r
}

/// The first cell of a table row for something named `name`: the name between
/// braces, with the mark of an optional name behind it unless types are
/// expanded, since the expanded type says the same.
pub open spec fn name_cell(name: Seq<char>, optional: bool, expand: bool) -> Seq<char> {
    if optional && !expand {
        braced(name.push('?'))
    } else {
        braced(name)
    }
}

/// The type cell of a table row: the type between round brackets, and for an
/// optional name, where types are expanded, its union with `nil`.
pub open spec fn type_cell(ty: Seq<char>, optional: bool, expand: bool) -> Seq<char> {
    if optional && expand {
        parenthesized(seq!['n', 'i', 'l', '|'] + ty)
    } else {
        parenthesized(ty)
    }
}

/// The cell for `name`; see `name_cell`.
pub fn make_name_cell(name: &str, optional: bool, expand: bool) -> (r: String)
    ensures
        r@ == name_cell(name@, optional, expand),
{
    let mut r = String::new();
    r.push('{');
    r.append(name);
    if optional && !expand {
        r.push('?');
    }
    r.push('}');
    r
}

/// The cell for `ty`; see `type_cell`.
pub fn make_type_cell(ty: &str, optional: bool, expand: bool) -> (r: String)
    ensures
        r@ == type_cell(ty@, optional, expand),
{
    let mut r = String::new();
    r.push('(');
    if optional && expand {
        r.push('n');
        r.push('i');
        r.push('l');
        r.push('|');
    }
    r.append(ty);
    r.push(')');
    r
}

/// `n` empty cells.
pub open spec fn blank_cells(n: nat) -> Seq<Seq<char>> {
    Seq::new(n, |i: int| Seq::<char>::empty())
}

/// The table rows of one item. Without a description column the row is
/// `head`. With one, the first row is `head` and the first line of the
/// description; every further line of the description gets a row of its own,
/// whose other cells are empty.
pub open spec fn item_rows(head: Seq<Seq<char>>, desc: Seq<Seq<char>>, described: bool) -> Seq<
    Seq<Seq<char>>,
> {
    if !described {
        seq![head]
    } else if desc.len() == 0 {
        seq![head.push(Seq::empty())]
    } else {
        Seq::new(
            desc.len(),
            |i: int|
                if i == 0 {
                    head.push(desc[0])
                } else {
                    blank_cells(head.len()).push(desc[i])
                },
        )
    }
}

/// The rows of one item all have as many cells as `head`, and one more with
/// a description column.
pub proof fn item_rows_rectangular(head: Seq<Seq<char>>, desc: Seq<Seq<char>>, described: bool)
    ensures
        rectangular(
            item_rows(head, desc, described),
            head.len() + if described {
                1nat
            } else {
                0nat
            },
        ),
{
}

/// Rows gathered from groups of rows that all have `n` cells have `n` cells.
pub proof fn gathered_rows_rectangular(groups: Seq<Seq<Seq<Seq<char>>>>, n: nat)
    requires
        forall|i: int| 0 <= i < groups.len() ==> rectangular(#[trigger] groups[i], n),
    ensures
        rectangular(concat(groups), n),
    decreases groups.len(),
{
    if groups.len() > 0 {
        gathered_rows_rectangular(groups.drop_last(), n);
    }
}

/// Adds the rows of one item to `table`; see `item_rows`.
pub fn add_item_rows(table: &mut Table, head: Vec<String>, desc: &Vec<String>, described: bool)
    requires
        old(table).wf(),
        old(table).columns() == head.len() + if described { 1int } else { 0int },
    ensures
        final(table).wf(),
        final(table).columns() == old(table).columns(),
        final(table)@ == old(table)@ + item_rows(head.deep_view(), desc.deep_view(), described),
{
    let ghost rows = item_rows(head.deep_view(), desc.deep_view(), described);
    let ghost h = head.deep_view();
    let width = head.len();
    let mut first = head;
    if !described {
        table.add_row(first);
        return ;
    }
    if desc.len() == 0 {
        first.push(String::new());
        assert(first.deep_view() =~= h.push(Seq::empty()));
        table.add_row(first);
        return ;
    }
    first.push(desc[0].clone());
    assert(first.deep_view() =~= h.push(desc.deep_view()[0]));
    table.add_row(first);
    let mut i: usize = 1;
    while i < desc.len()
        invariant
            1 <= i <= desc.len(),
            width == h.len(),
            table.wf(),
            table.columns() == old(table).columns(),
            table.columns() == width + 1,
            rows == item_rows(h, desc.deep_view(), described),
            rows.len() == desc.len(),
            described,
            table@ == old(table)@ + rows.take(i as int),
        decreases desc.len() - i,
    {
        let mut row: Vec<String> = Vec::new();
        let mut c: usize = 0;
        while c < width
            invariant
                c <= width,
                row.len() == c,
                row.deep_view() == blank_cells(c as nat),
            decreases width - c,
        {
            let ghost before = row.deep_view();
            row.push(String::new());
            assert(row.deep_view() =~= before.push(Seq::empty()));
            c += 1;
        }
        row.push(desc[i].clone());
        assert(row.deep_view() =~= blank_cells(width as nat).push(desc.deep_view()[i as int]));
        table.add_row(row);
        i += 1;
    }
}

/// An entry as help text. The name that a file exports is no entry and has
/// no text.
pub open spec fn node_text(node: NodeView, settings: Settings) -> Seq<char> {
    match node {
        NodeView::Module(m) => module_text(m),
        NodeView::Brief(b) => brief_text(b),
        NodeView::Alias(a) => alias_text(a),
        NodeView::Class(c) => class_text(c, settings.expand_opt),
        NodeView::Type(t) => type_text(t),
        NodeView::Func(f) => func_text(f, settings.expand_opt),
        NodeView::Export(_) => Seq::empty(),
    }
}

/// The text of each entry.
pub open spec fn node_texts(nodes: Seq<NodeView>, settings: Settings) -> Seq<Seq<char>> {
    Seq::new(nodes.len(), |i: int| node_text(nodes[i], settings))
}

/// A document as help text: the texts of its entries, in their order.
pub open spec fn doc_text(nodes: Seq<NodeView>, settings: Settings) -> Seq<char> {
    concat(node_texts(nodes, settings))
}

/// The text of two documents, one behind the other, is the text of the first
/// and then the text of the second: what an entry looks like does not depend
/// on the entries around it.
pub proof fn doc_text_append(a: Seq<NodeView>, b: Seq<NodeView>, settings: Settings)
    ensures
        doc_text(a + b, settings) == doc_text(a, settings) + doc_text(b, settings),
{
    assert(node_texts(a + b, settings) =~= node_texts(a, settings) + node_texts(b, settings));
    concat_append(node_texts(a, settings), node_texts(b, settings));
}

/// The text of entry `i` stands in the help text as it is, behind the texts
/// of all entries before it and before the texts of all entries after it.
pub proof fn entries_keep_order(nodes: Seq<NodeView>, settings: Settings, i: int)
    requires
        0 <= i < nodes.len(),
    ensures
        doc_text(nodes, settings) == doc_text(nodes.take(i), settings) + node_text(
            nodes[i],
            settings,
        ) + doc_text(nodes.skip(i + 1), settings),
{
    concat_keeps_order(node_texts(nodes, settings), i);
    assert(node_texts(nodes, settings).take(i) =~= node_texts(nodes.take(i), settings));
    assert(node_texts(nodes, settings).skip(i + 1) =~= node_texts(nodes.skip(i + 1), settings));
}

/// The entry as help text.
pub fn render_node(node: &Node, settings: &Settings) -> (out: String)
    ensures
        out@ == node_text(node.deep_view(), *settings),
{
    match node {
        Node::Module(m) => m.render(),
        Node::Brief(b) => b.render(),
        Node::Alias(a) => a.render(),
        Node::Class(c) => c.render(settings),
        Node::Type(t) => t.render(),
        Node::Func(f) => f.render(settings),
        Node::Export(_) => String::new(),
    }
}

/// A help text.
#[derive(Debug, Clone, PartialEq, Eq)]
pub struct VimDoc(pub String);

impl View for VimDoc {
    type V = Seq<char>;

    open spec fn view(&self) -> Seq<char> {
        self.0@
    }
}

impl VimDoc {
    /// The document as help text. The text is a function of the entries and
    /// the settings: the same document with the same settings gives the same
    /// text, character by character.
    pub fn from_emmy(cats: &VimCats, settings: &Settings) -> (doc: VimDoc)
        ensures
            doc@ == doc_text(cats.deep_view(), *settings),
    {
        let mut out = String::new();
        let ghost texts = node_texts(cats.deep_view(), *settings);
        let mut i: usize = 0;
        while i < cats.nodes.len()
            invariant
                i <= cats.nodes.len(),
                texts == node_texts(cats.deep_view(), *settings),
                out@ == concat(texts.take(i as int)),
            decreases cats.nodes.len() - i,
        {
            let text = render_node(&cats.nodes[i], settings);
            out.append(text.as_str());
            proof {
                concat_take(texts, i as int);
            }
            i += 1;
        }
        assert(texts.take(i as int) =~= texts);
        VimDoc(out)
    }

    /// The text.
    pub fn to_string(&self) -> (s: String)
        ensures
            s@ == self@,
    {
        self.0.clone()
    }
}

/// Two help texts made of the same document with the same settings are the
/// same text.
pub proof fn rendering_is_deterministic(
    first: VimDoc,
    second: VimDoc,
    nodes: Seq<NodeView>,
    settings: Settings,
)
    requires
        first@ == doc_text(nodes, settings),
        second@ == doc_text(nodes, settings),
    ensures
        first@ == second@,
{
}

} // verus!
