use crate::lexer::{Error, Scope, Spanned, SpannedView, TagType, TagView};
use crate::parser::tags::alias::{dotted_tag, make_dotted_tag};
use crate::parser::tags::func::{push_table_section, table_section};
use crate::parser::{copy_optional, count_run, token_run, Prefix, PrefixView, Shape};
use crate::table::{rectangular, Table};
use crate::text::{concat, concat_keeps_order, concat_take};
use crate::vimdoc::{
    add_item_rows, description_text, gathered_rows_rectangular, header, header_line, item_rows,
    item_rows_rectangular, make_name_cell,
    make_type_cell, name_cell, parenthesized, push_description, type_cell, TEXT_WIDTH,
};
use crate::Settings;
use vstd::prelude::*;

verus! {

/// A field of a class.
#[derive(Debug, Clone, PartialEq, Eq)]
pub struct Field {
    pub scope: Scope,
    pub name: String,
    pub optional: bool,
    pub ty: String,
    pub desc: Option<String>,
}

/// What a `Field` holds, as text.
pub struct FieldView {
    pub scope: Scope,
    pub name: Seq<char>,
    pub optional: bool,
    pub ty: Seq<char>,
    pub desc: Option<Seq<char>>,
}

impl DeepView for Field {
    type V = FieldView;

    open spec fn deep_view(&self) -> FieldView {
        FieldView {
            scope: self.scope,
            name: self.name@,
            optional: self.optional,
            ty: self.ty@,
            desc: self.desc.deep_view(),
        }
    }
}

/// A documented class.
#[derive(Debug, Clone, PartialEq, Eq)]
pub struct Class {
    pub name: String,
    pub desc: Vec<String>,
    pub fields: Vec<Field>,
    pub prefix: Prefix,
}

/// What a `Class` holds, as text.
pub struct ClassView {
    pub name: Seq<char>,
    pub desc: Seq<Seq<char>>,
    pub fields: Seq<FieldView>,
    pub prefix: PrefixView,
}

impl DeepView for Class {
    type V = ClassView;

    open spec fn deep_view(&self) -> ClassView {
        ClassView {
            name: self.name@,
            desc: self.desc.deep_view(),
            fields: self.fields.deep_view(),
            prefix: self.prefix.deep_view(),
        }
    }
}

/// Name cell and type cell of a field.
pub open spec fn field_head(f: FieldView, expand: bool) -> Seq<Seq<char>> {
    seq![name_cell(f.name, f.optional, expand), type_cell(f.ty, f.optional, expand)]
}

/// The description of a field as lines: one line or none.
pub open spec fn field_note(f: FieldView) -> Seq<Seq<char>> {
    match f.desc {
        Some(d) => seq![d],
        None => Seq::empty(),
    }
}

/// Whether the help text shows the field: only a public one is shown.
pub open spec fn shown(f: FieldView) -> bool {
    f.scope == Scope::Public
}

/// Whether any field is shown.
pub open spec fn any_shown(fs: Seq<FieldView>) -> bool {
    exists|i: int| 0 <= i < fs.len() && shown(#[trigger] fs[i])
}

/// Whether any field that is shown has a description.
pub open spec fn fields_described(fs: Seq<FieldView>) -> bool {
    exists|i: int| 0 <= i < fs.len() && shown(#[trigger] fs[i]) && fs[i].desc is Some
}

/// The table rows of each field: none for a field that is not shown.
pub open spec fn field_groups(fs: Seq<FieldView>, expand: bool) -> Seq<Seq<Seq<Seq<char>>>> {
    Seq::new(
        fs.len(),
        |i: int|
            if shown(fs[i]) {
                item_rows(field_head(fs[i], expand), field_note(fs[i]), fields_described(fs))
            } else {
                Seq::empty()
            },
    )
}

/// The rows of the table of fields: those of each field that is shown, in the
/// order of the fields. The table has a description column if any of these
/// fields has a description.
pub open spec fn field_rows(fs: Seq<FieldView>, expand: bool) -> Seq<Seq<Seq<char>>> {
    concat(field_groups(fs, expand))
}

/// The section of fields; nothing where no field is shown.
pub open spec fn fields_text(fs: Seq<FieldView>, expand: bool) -> Seq<char> {
    if any_shown(fs) {
        table_section("Fields:"@, field_rows(fs, expand))
    } else {
        Seq::empty()
    }
}

/// A class as help text: the header line with the class's name, the
/// description, an empty line, the section of fields, and an empty line.
pub open spec fn class_text(c: ClassView, expand: bool) -> Seq<char> {
    header_line(c.name, dotted_tag(c.prefix.right, c.name), TEXT_WIDTH as nat) + seq!['\n']
        + description_text(c.desc) + seq!['\n'] + fields_text(c.fields, expand) + seq!['\n']
}

/// An optional field `name?` of type `T`: with expansion on, its type cell is
/// `(nil|T)` and its name cell `{name}`; with expansion off, its type cell is
/// `(T)` and its name cell `{name?}`.
pub proof fn optional_field_cells(f: FieldView)
    requires
        f.optional,
    ensures
        field_head(f, true) == seq![
            seq!['{'] + f.name + seq!['}'],
            seq!['('] + (seq!['n', 'i', 'l', '|'] + f.ty) + seq![')'],
        ],
        field_head(f, false) == seq![
            seq!['{'] + f.name.push('?') + seq!['}'],
            seq!['('] + f.ty + seq![')'],
        ],
{
}

/// A field that is not optional has the cells `{name}` and `(T)`, whatever
/// the settings.
pub proof fn required_field_cells(f: FieldView, expand: bool)
    requires
        !f.optional,
    ensures
        field_head(f, expand) == seq![seq!['{'] + f.name + seq!['}'], parenthesized(f.ty)],
{
}

/// The table of fields is a table: each of its rows has three cells if any
/// field that is shown has a description, and two if none has.
pub proof fn field_rows_rectangular(fs: Seq<FieldView>, expand: bool)
    ensures
        rectangular(
            field_rows(fs, expand),
            if fields_described(fs) {
                3nat
            } else {
                2nat
            },
        ),
{
    let groups = field_groups(fs, expand);
    let n = if fields_described(fs) {
        3nat
    } else {
        2nat
    };
    assert forall|i: int| 0 <= i < groups.len() implies rectangular(#[trigger] groups[i], n) by {
        item_rows_rectangular(field_head(fs[i], expand), field_note(fs[i]), fields_described(fs));
    }
    gathered_rows_rectangular(groups, n);
}

/// The rows of field `i`, if it is shown, stand in the table as they are,
/// behind the rows of all fields before it and before those of all fields
/// after it.
pub proof fn fields_keep_order(fs: Seq<FieldView>, expand: bool, i: int)
    requires
        0 <= i < fs.len(),
        shown(fs[i]),
    ensures
        field_rows(fs, expand) == concat(field_groups(fs, expand).take(i)) + item_rows(
            field_head(fs[i], expand),
            field_note(fs[i]),
            fields_described(fs),
        ) + concat(field_groups(fs, expand).skip(i + 1)),
{
    concat_keeps_order(field_groups(fs, expand), i);
}

/// Whether any field is shown, and whether any field that is shown has a description.
fn survey(fields: &Vec<Field>) -> (r: (bool, bool))
    ensures
        r.0 == any_shown(fields.deep_view()),
        r.1 == fields_described(fields.deep_view()),
{
    let mut any = false;
    let mut described = false;
    let mut i: usize = 0;
    let ghost fs = fields.deep_view();
    while i < fields.len()
        invariant
            i <= fields.len(),
            fs == fields.deep_view(),
            any == any_shown(fs.take(i as int)),
            described == fields_described(fs.take(i as int)),
        decreases fields.len() - i,
    {
        let f = &fields[i];
        let ghost before = fs.take(i as int);
        let ghost after = fs.take(i + 1);
        let public = match f.scope {
            Scope::Public => true,
            _ => false,
        };
        proof {
            assert(after[i as int] == fs[i as int]);
            if any_shown(before) {
                let k = choose|k: int| 0 <= k < before.len() && shown(#[trigger] before[k]);
                assert(shown(after[k]));
            }
            if fields_described(before) {
                let k = choose|k: int|
                    0 <= k < before.len() && shown(#[trigger] before[k]) && before[k].desc is Some;
                assert(shown(after[k]) && after[k].desc is Some);
            }
            if any_shown(after) && !public {
                let k = choose|k: int| 0 <= k < after.len() && shown(#[trigger] after[k]);
                assert(shown(before[k]));
            }
            if fields_described(after) && !(public && f.desc is Some) {
                let k = choose|k: int|
                    0 <= k < after.len() && shown(#[trigger] after[k]) && after[k].desc is Some;
                assert(shown(before[k]) && before[k].desc is Some);
            }
        }
        if public {
            any = true;
            if f.desc.is_some() {
                described = true;
            }
        }
        i += 1;
    }
    assert(fs.take(i as int) =~= fs);
    (any, described)
}

/// The description of a field as lines.
fn note_of(f: &Field) -> (note: Vec<String>)
    ensures
        note.deep_view() == field_note(f.deep_view()),
{
    let mut note: Vec<String> = Vec::new();
    match &f.desc {
        Some(d) => {
            note.push(d.clone());
        },
        None => {},
    }
    note
}

/// The table of fields.
pub fn fields_table(fields: &Vec<Field>, expand: bool) -> (t: Table)
    ensures
        t.wf(),
        t@ == field_rows(fields.deep_view(), expand),
{
    let (_, described) = survey(fields);
    let mut t = Table::new(if described { 3 } else { 2 });
    let ghost groups = field_groups(fields.deep_view(), expand);
    let mut i: usize = 0;
    while i < fields.len()
        invariant
            i <= fields.len(),
            t.wf(),
            t.columns() == if described { 3nat } else { 2nat },
            described == fields_described(fields.deep_view()),
            groups == field_groups(fields.deep_view(), expand),
            t@ == concat(groups.take(i as int)),
        decreases fields.len() - i,
    {
        let f = &fields[i];
        let public = match f.scope {
            Scope::Public => true,
            _ => false,
        };
        proof {
            concat_take(groups, i as int);
        }
        if public {
            let mut head: Vec<String> = Vec::new();
            head.push(make_name_cell(f.name.as_str(), f.optional, expand));
            head.push(make_type_cell(f.ty.as_str(), f.optional, expand));
            assert(head.deep_view() =~= field_head(fields.deep_view()[i as int], expand));
            let note = note_of(f);
            add_item_rows(&mut t, head, &note, described);
        }
        i += 1;
    }
    assert(groups.take(i as int) =~= groups);
    t
}

/// The field that a token states; an empty public field for another token.
pub open spec fn field_of(tag: TagView) -> FieldView {
    match tag {
        TagView::Field { scope, name, optional, ty, desc } => FieldView {
            scope,
            name,
            optional,
            ty,
            desc,
        },
        _ => FieldView {
            scope: Scope::Public,
            name: Seq::empty(),
            optional: false,
            ty: Seq::empty(),
            desc: None,
        },
    }
}

/// The class that token `j` names: its description is the free text before
/// the token, its fields are those that follow the token, in their order. It
/// has no prefix yet.
pub open spec fn class_from(toks: Seq<SpannedView>, j: int, lead: Seq<Seq<char>>) -> Result<
    (ClassView, nat),
    Error,
> {
    let n = token_run(toks, j + 1, Shape::Field);
    Ok(
        (
            ClassView {
                name: match toks[j].tag {
                    TagView::Class(name) => name,
                    _ => Seq::empty(),
                },
                desc: lead,
                fields: Seq::new(n, |k: int| field_of(toks[j + 1 + k].tag)),
                prefix: PrefixView { left: None, right: None },
            },
            n,
        ),
    )
}

impl Field {
    /// The field that `tag` states; see `field_of`.
    pub fn parse(tag: &TagType) -> (f: Field)
        ensures
            f.deep_view() == field_of(tag.deep_view()),
    {
        match tag {
            TagType::Field { scope, name, optional, ty, desc } => Field {
                scope: *scope,
                name: name.clone(),
                optional: *optional,
                ty: ty.clone(),
                desc: copy_optional(desc),
            },
            _ => Field {
                scope: Scope::Public,
                name: String::new(),
                optional: false,
                ty: String::new(),
                desc: None,
            },
        }
    }
}

impl Class {
    /// The class that token `j` names; see `class_from`.
    pub fn parse(toks: &Vec<Spanned>, j: usize, lead: Vec<String>) -> (r: (Class, usize))
        requires
            j < toks.len(),
        ensures
            class_from(toks.deep_view(), j as int, lead.deep_view()) == Ok::<
                (ClassView, nat),
                Error,
            >((r.0.deep_view(), r.1 as nat)),
            j + 1 + r.1 <= toks.len(),
    {
        let n = count_run(toks, j + 1, Shape::Field);
        let ghost all = Seq::new(n as nat, |k: int| field_of(toks.deep_view()[j + 1 + k].tag));
        let mut fields: Vec<Field> = Vec::new();
        let mut k: usize = 0;
        while k < n
            invariant
                k <= n,
                j + 1 + n <= toks.len(),
                all == Seq::new(n as nat, |k: int| field_of(toks.deep_view()[j + 1 + k].tag)),
                fields.deep_view() == all.take(k as int),
            decreases n - k,
        {
            let ghost before = fields.deep_view();
            fields.push(Field::parse(&toks[j + 1 + k].tag));
            assert(fields.deep_view() =~= before.push(all[k as int]));
            k += 1;
        }
        assert(all.take(k as int) =~= all);
        let name = match &toks[j].tag {
            TagType::Class(name) => name.clone(),
            _ => String::new(),
        };
        (Class { name, desc: lead, fields, prefix: Prefix { left: None, right: None } }, n)
    }

    /// Puts `tag` in place of the prefix that the help tag shows.
    pub fn rename_tag(&mut self, tag: String)
        ensures
            final(self).deep_view() == (ClassView {
                prefix: PrefixView { left: old(self).deep_view().prefix.left, right: Some(tag@) },
                ..old(self).deep_view()
            }),
    {
        self.prefix.right = Some(tag);
    }

    /// The class as help text.
    pub fn render(&self, settings: &Settings) -> (out: String)
        ensures
            out@ == class_text(self.deep_view(), settings.expand_opt),
    {
        let tag = make_dotted_tag(&self.prefix.right, self.name.as_str());
        let mut out = header(self.name.as_str(), tag.as_str(), TEXT_WIDTH);
        out.push('\n');
        push_description(&mut out, &self.desc);
        out.push('\n');
        let (any, _) = survey(&self.fields);
        if any {
            let table = fields_table(&self.fields, settings.expand_opt);
            push_table_section(&mut out, "Fields:", &table);
        }
        out.push('\n');
        out
    }
}

} // verus!
