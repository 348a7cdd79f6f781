use vimcats::lexer::{lex, Error, ErrorKind, Kind, Scope, Spanned, TagType};
use vimcats::parser::{
    parse, Alias, Brief, Class, Field, Func, Module, Node, Param, Prefix, Return, See, Type, Usage,
};

fn nodes(src: &str) -> Result<Vec<Node>, Error> {
    parse(&lex(src).unwrap())
}

fn s(text: &str) -> String {
    text.to_string()
}

fn lines(texts: &[&str]) -> Vec<String> {
    texts.iter().map(|t| t.to_string()).collect()
}

#[test]
fn parse_function_with_everything() {
    let src = "\
---Does a thing
---in two lines
---@param a number The first
---and more about it
---@param b? string
---@return number sum The sum
---@return string
---more about the string
---@see other
---@see M.another
---@usage `M.f(1)`
function M.f(a, b)
";
    assert_eq!(
        nodes(src),
        Ok(vec![Node::Func(Func {
            name: s("f"),
            kind: Kind::Dot,
            prefix: Prefix { left: Some(s("M")), right: Some(s("M")) },
            desc: lines(&["Does a thing", "in two lines"]),
            params: vec![
                Param {
                    name: s("a"),
                    ty: s("number"),
                    desc: lines(&["The first", "and more about it"])
                },
                Param { name: s("b?"), ty: s("string"), desc: vec![] },
            ],
            returns: vec![
                Return { ty: s("number"), name: Some(s("sum")), desc: lines(&["The sum"]) },
                Return { ty: s("string"), name: None, desc: lines(&["more about the string"]) },
            ],
            see: See { refs: lines(&["other", "M.another"]) },
            usage: Some(Usage { code: lines(&["M.f(1)"]) }),
        })])
    );
}

#[test]
fn parse_function_without_annotations() {
    assert_eq!(
        nodes("function U:create()"),
        Ok(vec![Node::Func(Func {
            name: s("create"),
            kind: Kind::Colon,
            prefix: Prefix { left: Some(s("U")), right: Some(s("U")) },
            desc: vec![],
            params: vec![],
            returns: vec![],
            see: See { refs: vec![] },
            usage: None,
        })])
    );
}

#[test]
fn parse_usage_block() {
    let src = "---@usage [[\n---local x = M.f()\n---  print(x)\n---@usage ]]\nlocal function f()";
    assert_eq!(
        nodes(src),
        Ok(vec![Node::Func(Func {
            name: s("f"),
            kind: Kind::Local,
            prefix: Prefix { left: None, right: None },
            desc: vec![],
            params: vec![],
            returns: vec![],
            see: See { refs: vec![] },
            usage: Some(Usage { code: lines(&["local x = M.f()", "  print(x)"]) }),
        })])
    );
}

#[test]
fn parse_missing_definition() {
    let missing = |line, column| Err(Error { kind: ErrorKind::MissingDefinition, line, column });
    assert_eq!(nodes("---@param a number"), missing(0, 0));
    assert_eq!(nodes("---text\n  ---@param a number\n---@class X"), missing(1, 2));
    assert_eq!(nodes("---@return number\n---@param a number\nfunction f()"), missing(0, 0));
    assert_eq!(nodes("---@see x\n---text\nfunction f()"), missing(0, 0));
    assert_eq!(nodes("---@return number\nM.x = 1"), missing(0, 0));
    assert_eq!(nodes("---@usage `f()`"), missing(0, 0));
    assert_eq!(nodes("---@type number"), missing(0, 0));
    assert_eq!(nodes("---@type number\nfunction M.f()"), missing(0, 0));
}

#[test]
fn parse_alias_type_class_module_brief() {
    let src = "\
---@mod awesome This is working
---About the module
---Leading
---@alias ID string
---trailing
---@class User
---@field name string
---@field private opts? table Options
---A Pi
---@type number The ratio
---roughly
U.Pi = 3.14
---@brief [[
---Free text
---@brief ]]
return U
";
    assert_eq!(
        nodes(src),
        Ok(vec![
            Node::Module(Module {
                name: s("awesome"),
                title: Some(s("This is working")),
                desc: lines(&["About the module", "Leading"]),
            }),
            Node::Alias(Alias {
                name: s("ID"),
                ty: s("string"),
                desc: lines(&["trailing"]),
                prefix: Prefix { left: None, right: None },
            }),
            Node::Class(Class {
                name: s("User"),
                desc: vec![],
                fields: vec![
                    Field {
                        scope: Scope::Public,
                        name: s("name"),
                        optional: false,
                        ty: s("string"),
                        desc: None
                    },
                    Field {
                        scope: Scope::Private,
                        name: s("opts"),
                        optional: true,
                        ty: s("table"),
                        desc: Some(s("Options"))
                    },
                ],
                prefix: Prefix { left: None, right: None },
            }),
            Node::Type(Type {
                name: s("Pi"),
                kind: Kind::Dot,
                prefix: Prefix { left: Some(s("U")), right: Some(s("U")) },
                ty: s("number"),
                desc: lines(&["A Pi", "The ratio", "roughly"]),
            }),
            Node::Brief(Brief { desc: lines(&["Free text"]) }),
            Node::Export(s("U")),
        ])
    );
}

#[test]
fn parse_passes_over_what_documents_nothing() {
    assert_eq!(nodes("---about nothing\nlocal M = {}\n---@field stray string\n---left over"), Ok(vec![]));
    assert_eq!(nodes(""), Ok(vec![]));
}

#[test]
fn parse_keeps_the_order_of_the_source() {
    let src = "---@alias B string\n---@alias A string\nfunction M.z()\nfunction M.a()";
    let names: Vec<String> = nodes(src)
        .unwrap()
        .into_iter()
        .map(|n| match n {
            Node::Alias(a) => a.name,
            Node::Func(f) => f.name,
            _ => unreachable!(),
        })
        .collect();
    assert_eq!(names, lines(&["B", "A", "z", "a"]));
}

#[test]
fn parse_unterminated_block_in_tokens() {
    let toks = vec![
        Spanned { tag: TagType::Comment(s("x")), line: 3, column: 1 },
        Spanned { tag: TagType::BriefStart, line: 4, column: 2 },
        Spanned { tag: TagType::Comment(s("y")), line: 5, column: 0 },
    ];
    assert_eq!(
        parse(&toks),
        Err(Error { kind: ErrorKind::UnterminatedBlock, line: 4, column: 2 })
    );
    let toks = vec![
        Spanned { tag: TagType::UsageStart, line: 7, column: 0 },
        Spanned { tag: TagType::Func { prefix: None, name: s("f"), kind: Kind::Local }, line: 8, column: 0 },
    ];
    assert_eq!(
        parse(&toks),
        Err(Error { kind: ErrorKind::UnterminatedBlock, line: 7, column: 0 })
    );
}
