use vimcats::lexer::{Error, ErrorKind};
use vimcats::parser::Node;
use vimcats::vimdoc::VimDoc;
use vimcats::{Settings, VimCats};

fn help(src: &str, settings: &Settings) -> String {
    let mut cats = VimCats::new();
    cats.for_help(src, settings).unwrap();
    VimDoc::from_emmy(&cats, settings).to_string()
}

#[test]
fn alias_alone() {
    assert_eq!(
        help("---@alias ID string", &Settings::default()),
        "\
ID                                                                        *ID*

    Type: ~
        string


"
    );
}

#[test]
fn class_with_prefix() {
    let settings = Settings { prefix_class: true, ..Default::default() };
    let src = "\
local U = {}

---@class User
---@field name string
---@field email string
---@field id ID

return U
";
    assert_eq!(
        help(src, &settings),
        "\
User                                                                  *U.User*

    Fields: ~
        {name}   (string)
        {email}  (string)
        {id}     (ID)


"
    );
}

#[test]
fn method_renamed_with_usage() {
    let settings = Settings { prefix_func: true, ..Default::default() };
    let src = "\
local U = {}

---@return number
---@usage `require('Pi'):create()`
function U:create()
    return self.Pi
end

return U
";
    assert_eq!(
        help(src, &settings),
        "\
U:create()                                                          *U:create*

    Returns: ~
        (number)

    Usage: ~
>lua
        require('Pi'):create()
<


"
    );
}

#[test]
fn optional_field_expanded_or_not() {
    let src = "---@class Hello\n---@field message? string";
    let on = Settings { expand_opt: true, ..Default::default() };
    assert_eq!(
        help(src, &on),
        "\
Hello                                                                  *Hello*

    Fields: ~
        {message}  (nil|string)


"
    );
    assert_eq!(
        help(src, &Settings::default()),
        "\
Hello                                                                  *Hello*

    Fields: ~
        {message?}  (string)


"
    );
}

#[test]
fn class_with_only_hidden_fields_has_no_table() {
    assert_eq!(
        help("---A class\n---@class Hidden\n---@field private a number\n---@field b protected string", &Settings::default()),
        "\
Hidden                                                                *Hidden*
    A class


"
    );
}

#[test]
fn local_and_foreign_definitions_are_left_out() {
    let src = "\
local M = {}
---@param x number
local function helper(x) end
---Other
function N.other() end
---Mine
function M.mine() end
---@type number
local secret = 1
---@type number
M.open = 1
return M
";
    let mut cats = VimCats::new();
    cats.for_help(src, &Settings::default()).unwrap();
    let names: Vec<String> = cats
        .nodes
        .iter()
        .map(|n| match n {
            Node::Func(f) => f.name.clone(),
            Node::Type(t) => t.name.clone(),
            _ => unreachable!(),
        })
        .collect();
    assert_eq!(names, vec!["mine", "open"]);
}

#[test]
fn nothing_is_exported_without_an_export() {
    let src = "---@alias A string\nfunction M.f() end\n---@type number\nM.x = 1\n";
    let mut cats = VimCats::new();
    cats.for_help(src, &Settings { prefix_alias: true, ..Default::default() }).unwrap();
    assert_eq!(cats.nodes.len(), 1);
    match &cats.nodes[0] {
        Node::Alias(a) => {
            assert_eq!(a.name, "A");
            assert_eq!(a.prefix.right, None);
        }
        _ => unreachable!(),
    }
}

#[test]
fn errors_leave_the_document_as_it_is() {
    let mut cats = VimCats::new();
    cats.for_help("---@alias A string", &Settings::default()).unwrap();
    let before = cats.clone();
    assert_eq!(
        cats.for_help("---@alias B string\n---@param", &Settings::default()),
        Err(Error { kind: ErrorKind::SyntaxError, line: 1, column: 0 })
    );
    assert_eq!(cats, before);
    assert_eq!(
        cats.for_help("---@alias B string\n---@param a number", &Settings::default()),
        Err(Error { kind: ErrorKind::MissingDefinition, line: 1, column: 0 })
    );
    assert_eq!(cats, before);
    assert_eq!(
        cats.for_help("---@usage [[\n---x", &Settings::default()),
        Err(Error { kind: ErrorKind::UnterminatedBlock, line: 0, column: 0 })
    );
    assert_eq!(cats, before);
}

#[test]
fn files_add_up_in_the_order_they_were_read() {
    let settings = Settings::default();
    let mut cats = VimCats::new();
    cats.for_help("---@alias B string", &settings).unwrap();
    cats.for_help("---@alias A string", &settings).unwrap();
    let both = VimDoc::from_emmy(&cats, &settings).to_string();
    assert_eq!(
        both,
        help("---@alias B string", &settings) + &help("---@alias A string", &settings)
    );
}

#[test]
fn rendering_twice_gives_the_same_text() {
    let settings = Settings { expand_opt: true, prefix_func: true, ..Default::default() };
    let src = "---@mod m Title\n---@param a? number\nfunction M.f(a) end\nreturn M";
    let mut cats = VimCats::new();
    cats.for_help(src, &settings).unwrap();
    let first = VimDoc::from_emmy(&cats, &settings).to_string();
    let second = VimDoc::from_emmy(&cats, &settings).to_string();
    assert_eq!(first, second);
    assert_eq!(
        first,
        "\
==============================================================================
Title                                                                      *m*

M.f({a?})                                                                *m.f*

    Parameters: ~
        {a}  (nil|number)


"
    );
}

#[test]
fn brief_and_module_description() {
    let src = "---@mod m\n---About m\n---@brief [[\n---Free\n---  text\n---@brief ]]";
    assert_eq!(
        help(src, &Settings::default()),
        "\
==============================================================================
                                                                           *m*
    About m

Free
  text

"
    );
}

#[test]
fn the_last_module_names_the_prefix() {
    let settings = Settings {
        prefix_func: true,
        prefix_alias: true,
        prefix_class: true,
        prefix_type: true,
        ..Default::default()
    };
    let src = "\
---@mod first One
---@alias A string
---@mod second Two
---@class C
---@type number
M.x = 1
function M:f() end
return M
";
    let mut cats = VimCats::new();
    cats.for_help(src, &settings).unwrap();
    let shown: Vec<Option<String>> = cats
        .nodes
        .iter()
        .filter_map(|n| match n {
            Node::Alias(a) => Some(a.prefix.right.clone()),
            Node::Class(c) => Some(c.prefix.right.clone()),
            Node::Type(t) => Some(t.prefix.right.clone()),
            Node::Func(f) => Some(f.prefix.right.clone()),
            _ => None,
        })
        .collect();
    assert_eq!(shown, vec![Some("second".to_string()); 4]);
    let source: Vec<Option<String>> = cats
        .nodes
        .iter()
        .filter_map(|n| match n {
            Node::Type(t) => Some(t.prefix.left.clone()),
            Node::Func(f) => Some(f.prefix.left.clone()),
            _ => None,
        })
        .collect();
    assert_eq!(source, vec![Some("M".to_string()); 2]);
}

#[test]
fn renaming_is_chosen_for_each_kind() {
    let src = "---@alias A string\n---@class C\n---@type number\nM.x = 1\nfunction M.f() end\nreturn M\n";
    let shown = |settings: &Settings| -> Vec<Option<String>> {
        let mut cats = VimCats::new();
        cats.for_help(&format!("---@mod mod\n{src}"), settings).unwrap();
        cats.nodes
            .iter()
            .filter_map(|n| match n {
                Node::Alias(a) => Some(a.prefix.right.clone()),
                Node::Class(c) => Some(c.prefix.right.clone()),
                Node::Type(t) => Some(t.prefix.right.clone()),
                Node::Func(f) => Some(f.prefix.right.clone()),
                _ => None,
            })
            .collect()
    };
    let m = || Some("M".to_string());
    let renamed = || Some("mod".to_string());
    assert_eq!(shown(&Settings::default()), vec![None, None, m(), m()]);
    assert_eq!(
        shown(&Settings { prefix_alias: true, ..Default::default() }),
        vec![renamed(), None, m(), m()]
    );
    assert_eq!(
        shown(&Settings { prefix_class: true, ..Default::default() }),
        vec![None, renamed(), m(), m()]
    );
    assert_eq!(
        shown(&Settings { prefix_type: true, ..Default::default() }),
        vec![None, None, renamed(), m()]
    );
    assert_eq!(
        shown(&Settings { prefix_func: true, ..Default::default() }),
        vec![None, None, m(), renamed()]
    );
}

#[test]
fn type_with_description() {
    let src = "---A Pi\n---@type number roughly\nU.Pi = 3.14\nreturn U";
    assert_eq!(
        help(src, &Settings::default()),
        "\
U.Pi                                                                    *U.Pi*
    A Pi
    roughly

    Type: ~
        (number)


"
    );
}
