//! Turns LuaCATS annotations in Lua sources into vim help text.
//!
//! The text of a source file becomes tokens ([`lexer`]), the tokens become
//! entries ([`parser`]), the entries of all files make up a document
//! ([`VimCats`]), and the document becomes help text ([`VimDoc`]). Every step
//! is a function of its input alone, and its contract says which.

pub mod lexer;
pub mod parser;
pub mod table;
pub mod text;
pub mod vimdoc;
pub mod wrap;

pub use lexer::{Error, ErrorKind};
pub use vimdoc::VimDoc;

use crate::lexer::{lex, lex_text, Kind};
use crate::parser::tags::alias::AliasView;
use crate::parser::tags::class::ClassView;
use crate::parser::tags::func::FuncView;
use crate::parser::tags::typedef::TypeView;
use crate::parser::{maybe, parse, parse_tokens, Node, NodeView, PrefixView};
use crate::text::{concat, concat_keeps_order, concat_take};
use vstd::prelude::*;

verus! {

/// What a caller can choose about the help text.
#[derive(Debug, Clone, Copy, PartialEq, Eq, Structural)]
pub struct Settings {
    /// Tag functions by the module's name instead of the name they are exported under.
    pub prefix_func: bool,
    /// Tag aliases by the module's name.
    pub prefix_alias: bool,
    /// Tag classes by the module's name.
    pub prefix_class: bool,
    /// Tag types by the module's name instead of the name they are exported under.
    pub prefix_type: bool,
    /// Write the type of an optional field or parameter as a union with `nil`.
    pub expand_opt: bool,
}

impl Settings {
    /// The settings with everything off.
    pub open spec fn off() -> Settings {
        Settings {
            prefix_func: false,
            prefix_alias: false,
            prefix_class: false,
            prefix_type: false,
            expand_opt: false,
        }
    }
}

impl Default for Settings {
    fn default() -> (s: Settings)
        ensures
            s == Settings::off(),
    {
        Settings {
            prefix_func: false,
            prefix_alias: false,
            prefix_class: false,
            prefix_type: false,
            expand_opt: false,
        }
    }
}

/// The name that a file exports: that of its last node, if that is an export.
pub open spec fn export_of(nodes: Seq<NodeView>) -> Option<Seq<char>> {
    if nodes.len() == 0 {
        None
    } else {
        match nodes.last() {
            NodeView::Export(name) => Some(name),
            _ => None,
        }
    }
}

/// The name of the module that a file documents: that of the last module
/// among its nodes, if there is one.
pub open spec fn module_of(nodes: Seq<NodeView>) -> Option<Seq<char>>
    decreases nodes.len(),
{
    if nodes.len() == 0 {
        None
    } else {
        match nodes.last() {
            NodeView::Module(m) => Some(m.name),
            _ => module_of(nodes.drop_last()),
        }
    }
}

/// The prefix that renamed tags are shown under: the module's name, or else
/// the name that the file exports.
pub open spec fn shown_prefix(nodes: Seq<NodeView>) -> Option<Seq<char>> {
    match module_of(nodes) {
        Some(name) => Some(name),
        None => export_of(nodes),
    }
}

/// Whether a file that exports `export` exports the definition: it is not
/// local, and the prefix that the source has is `export`.
pub open spec fn exported(prefix: PrefixView, kind: Kind, export: Option<Seq<char>>) -> bool {
    kind != Kind::Local && export is Some && prefix.left == export
}

/// The prefix after renaming: `shown` is what the help tag shows, if renaming
/// is on and there is a prefix to show. What the source has stays.
pub open spec fn renamed(prefix: PrefixView, on: bool, shown: Option<Seq<char>>) -> PrefixView {
    if on && shown is Some {
        PrefixView { left: prefix.left, right: shown }
    } else {
        prefix
    }
}

/// What the document holds for a node, if it holds anything: a function or a
/// type only if the file exports it; an alias or a class always; each of
/// these renamed as the settings say. A module and a brief as they are. The
/// export itself is no entry.
pub open spec fn resolve(
    node: NodeView,
    export: Option<Seq<char>>,
    shown: Option<Seq<char>>,
    settings: Settings,
) -> Option<NodeView> {
    match node {
        NodeView::Func(f) => if exported(f.prefix, f.kind, export) {
            Some(
                NodeView::Func(
                    FuncView { prefix: renamed(f.prefix, settings.prefix_func, shown), ..f },
                ),
            )
        } else {
            None
        },
        NodeView::Type(t) => if exported(t.prefix, t.kind, export) {
            Some(
                NodeView::Type(
                    TypeView { prefix: renamed(t.prefix, settings.prefix_type, shown), ..t },
                ),
            )
        } else {
            None
        },
        NodeView::Alias(a) => Some(
            NodeView::Alias(
                AliasView { prefix: renamed(a.prefix, settings.prefix_alias, shown), ..a },
            ),
        ),
        NodeView::Class(c) => Some(
            NodeView::Class(
                ClassView { prefix: renamed(c.prefix, settings.prefix_class, shown), ..c },
            ),
        ),
        NodeView::Export(_) => None,
        _ => Some(node),
    }
}

/// What the document holds for each node of a file.
pub open spec fn resolved(nodes: Seq<NodeView>, settings: Settings) -> Seq<Seq<NodeView>> {
    Seq::new(
        nodes.len(),
        |i: int| maybe(resolve(nodes[i], export_of(nodes), shown_prefix(nodes), settings)),
    )
}

/// The entries that a file adds to the document: what `resolve` gives for
/// each of its nodes, in the order of the nodes.
pub open spec fn document(nodes: Seq<NodeView>, settings: Settings) -> Seq<NodeView> {
    concat(resolved(nodes, settings))
}

/// The entries that a source text adds to the document, or the first error
/// in the text.
pub open spec fn help_nodes(src: Seq<char>, settings: Settings) -> Result<Seq<NodeView>, Error> {
    match lex_text(src) {
        Err(e) => Err(e),
        Ok(tokens) => match parse_tokens(tokens) {
            Err(e) => Err(e),
            Ok(nodes) => Ok(document(nodes, settings)),
        },
    }
}

/// Whether `after` is `before` with the entries that `added` holds behind it.
pub open spec fn extended(
    before: Seq<NodeView>,
    added: Result<Seq<NodeView>, Error>,
    after: Seq<NodeView>,
) -> bool {
    match added {
        Ok(nodes) => after == before + nodes,
        Err(_) => false,
    }
}

/// What `resolve` gives for node `i` stands in the document behind what it
/// gives for all the nodes before it, and before what it gives for all the
/// nodes after it.
pub proof fn document_keeps_order(nodes: Seq<NodeView>, settings: Settings, i: int)
    requires
        0 <= i < nodes.len(),
    ensures
        document(nodes, settings) == concat(resolved(nodes, settings).take(i)) + maybe(
            resolve(nodes[i], export_of(nodes), shown_prefix(nodes), settings),
        ) + concat(resolved(nodes, settings).skip(i + 1)),
{
    concat_keeps_order(resolved(nodes, settings), i);
}

/// Renaming leaves the prefix that the source has as it is, and with it what
/// the file exports: only the prefix that is shown changes.
pub proof fn renaming_keeps_source_prefix(
    prefix: PrefixView,
    kind: Kind,
    on: bool,
    shown: Option<Seq<char>>,
    export: Option<Seq<char>>,
)
    ensures
        renamed(prefix, on, shown).left == prefix.left,
        exported(renamed(prefix, on, shown), kind, export) == exported(prefix, kind, export),
        !on ==> renamed(prefix, on, shown) == prefix,
{
}

/// A document: the entries of the files read so far, in the order in which
/// they were read.
#[derive(Debug, Clone, PartialEq, Eq)]
pub struct VimCats {
    pub nodes: Vec<Node>,
}

impl DeepView for VimCats {
    type V = Seq<NodeView>;

    open spec fn deep_view(&self) -> Seq<NodeView> {
        self.nodes.deep_view()
    }
}

/// The name that the nodes export; see `export_of`.
fn find_export(nodes: &Vec<Node>) -> (r: Option<String>)
    ensures
        r.deep_view() == export_of(nodes.deep_view()),
{
    if nodes.len() == 0 {
        return None;
    }
    match &nodes[nodes.len() - 1] {
        Node::Export(name) => Some(name.clone()),
        _ => None,
    }
}

/// The name of the module among the nodes; see `module_of`.
fn find_module(nodes: &Vec<Node>) -> (r: Option<String>)
    ensures
        r.deep_view() == module_of(nodes.deep_view()),
{
    let ghost all = nodes.deep_view();
    let mut k: usize = nodes.len();
    assert(all.take(k as int) =~= all);
    while k > 0
        invariant
            k <= nodes.len(),
            all == nodes.deep_view(),
            module_of(all) == module_of(all.take(k as int)),
        decreases k,
    {
        assert(all.take(k as int).drop_last() =~= all.take(k - 1));
        match &nodes[k - 1] {
            Node::Module(m) => {
                return Some(m.name.clone());
            },
            _ => {},
        }
        k -= 1;
    }
    None
}

/// What the document holds for `node`; see `resolve`.
pub fn resolve_node(
    node: Node,
    export: &Option<String>,
    shown: &Option<String>,
    settings: &Settings,
) -> (r: Option<Node>)
    ensures
        r.deep_view() == resolve(
            node.deep_view(),
            export.deep_view(),
            shown.deep_view(),
            *settings,
        ),
{
    match node {
        Node::Func(f) => {
            let public = match export {
                Some(name) => f.is_public(name.as_str()),
                None => false,
            };
            if !public {
                return None;
            }
            let mut f = f;
            match shown {
                Some(name) => {
                    if settings.prefix_func {
                        f.rename_tag(name.clone());
                    }
                },
                None => {},
            }
            Some(Node::Func(f))
        },
        Node::Type(t) => {
            let public = match export {
                Some(name) => t.is_public(name.as_str()),
                None => false,
            };
            if !public {
                return None;
            }
            let mut t = t;
            match shown {
                Some(name) => {
                    if settings.prefix_type {
                        t.rename_tag(name.clone());
                    }
                },
                None => {},
            }
            Some(Node::Type(t))
        },
        Node::Alias(a) => {
            let mut a = a;
            match shown {
                Some(name) => {
                    if settings.prefix_alias {
                        a.rename_tag(name.clone());
                    }
                },
                None => {},
            }
            Some(Node::Alias(a))
        },
        Node::Class(c) => {
            let mut c = c;
            match shown {
                Some(name) => {
                    if settings.prefix_class {
                        c.rename_tag(name.clone());
                    }
                },
                None => {},
            }
            Some(Node::Class(c))
        },
        Node::Export(_) => None,
        Node::Module(m) => Some(Node::Module(m)),
        Node::Brief(b) => Some(Node::Brief(b)),
    }
}

impl VimCats {
    /// A document without entries.
    pub fn new() -> (cats: VimCats)
        ensures
            cats.deep_view() == Seq::<NodeView>::empty(),
    {
        VimCats { nodes: Vec::new() }
    }

    /// Reads the source text `src` and adds its entries to the document, behind
    /// those that are there. On an error the document stays as it is.
    pub fn for_help(&mut self, src: &str, settings: &Settings) -> (r: Result<(), Error>)
        ensures
            match r {
                Ok(_) => extended(
                    old(self).deep_view(),
                    help_nodes(src@, *settings),
                    final(self).deep_view(),
                ),
                Err(e) => help_nodes(src@, *settings) == Err::<Seq<NodeView>, Error>(e)
                    && final(self).deep_view() == old(self).deep_view(),
            },
    {
        let tokens = match lex(src) {
            Ok(tokens) => tokens,
            Err(e) => {
                return Err(e);
            },
        };
        let nodes = match parse(&tokens) {
            Ok(nodes) => nodes,
            Err(e) => {
                return Err(e);
            },
        };
        let export = find_export(&nodes);
        let module = find_module(&nodes);
        let shown = match module {
            Some(name) => Some(name),
            None => crate::parser::copy_optional(&export),
        };
        let ghost all = nodes.deep_view();
        let ghost groups = resolved(all, *settings);
        let ghost before = self.deep_view();
        for node in it: nodes
            invariant
                it.seq() == nodes@,
                all == nodes.deep_view(),
                export.deep_view() == export_of(all),
                shown.deep_view() == shown_prefix(all),
                groups == resolved(all, *settings),
                self.deep_view() == before + concat(groups.take(it.index())),
        {
            let ghost done = self.deep_view();
            let ghost i = it.index();
            proof {
                concat_take(groups, i);
            }
            match resolve_node(node, &export, &shown, settings) {
                Some(entry) => {
                    self.nodes.push(entry);
                    assert(self.deep_view() =~= done + groups[i]);
                },
                None => {},
            }
        }
        assert(groups.take(all.len() as int) =~= groups);
        Ok(())
    }
}

} // verus!
