use vimcats::lexer::{lex, Error, ErrorKind, Kind, Scope, Spanned, TagType};

fn tags(src: &str) -> Vec<TagType> {
    lex(src).unwrap().into_iter().map(|t| t.tag).collect()
}

fn s(text: &str) -> String {
    text.to_string()
}

#[test]
fn lex_alias() {
    assert_eq!(
        tags("---@alias ID string"),
        vec![TagType::Alias { name: s("ID"), ty: s("string") }]
    );
    assert_eq!(
        tags("---@alias Callback fun(id: ID): boolean"),
        vec![TagType::Alias { name: s("Callback"), ty: s("fun(id: ID): boolean") }]
    );
}

#[test]
fn lex_type_and_module() {
    assert_eq!(
        tags("---@type number The ratio\n---@mod awesome This is working "),
        vec![
            TagType::Type { ty: s("number"), desc: Some(s("The ratio")) },
            TagType::Module { name: s("awesome"), desc: Some(s("This is working")) },
        ]
    );
    assert_eq!(
        tags("---@type number\n---@mod awesome"),
        vec![
            TagType::Type { ty: s("number"), desc: None },
            TagType::Module { name: s("awesome"), desc: None },
        ]
    );
}

#[test]
fn lex_class_and_fields() {
    assert_eq!(
        tags(
            "---@class User\n---@field name string\n---@field message? string First message\n---@field private opts? table\n---@field secret protected table Sauce"
        ),
        vec![
            TagType::Class(s("User")),
            TagType::Field {
                scope: Scope::Public,
                name: s("name"),
                optional: false,
                ty: s("string"),
                desc: None
            },
            TagType::Field {
                scope: Scope::Public,
                name: s("message"),
                optional: true,
                ty: s("string"),
                desc: Some(s("First message"))
            },
            TagType::Field {
                scope: Scope::Private,
                name: s("opts"),
                optional: true,
                ty: s("table"),
                desc: None
            },
            TagType::Field {
                scope: Scope::Protected,
                name: s("secret"),
                optional: false,
                ty: s("table"),
                desc: Some(s("Sauce"))
            },
        ]
    );
}

#[test]
fn lex_param_and_return() {
    assert_eq!(
        tags("---@param opts? table The options\n---@param n number\n---@return number\n---@return string name\n---@return boolean ok Whether it worked"),
        vec![
            TagType::Param { name: s("opts?"), ty: s("table"), desc: Some(s("The options")) },
            TagType::Param { name: s("n"), ty: s("number"), desc: None },
            TagType::Return { ty: s("number"), name: None, desc: None },
            TagType::Return { ty: s("string"), name: Some(s("name")), desc: None },
            TagType::Return {
                ty: s("boolean"),
                name: Some(s("ok")),
                desc: Some(s("Whether it worked"))
            },
        ]
    );
}

#[test]
fn lex_see_and_inline_usage() {
    assert_eq!(
        tags("---@see U.create\n---@usage `require('Pi'):create()`"),
        vec![TagType::See(s("U.create")), TagType::Usage(s("require('Pi'):create()"))]
    );
}

#[test]
fn lex_usage_block_keeps_its_lines() {
    assert_eq!(
        tags("---@usage [[\n---local x = 1\n---  @param is no tag here\n---@param neither here\nlocal skipped = true\n---@usage ]]\n---after"),
        vec![
            TagType::UsageStart,
            TagType::Comment(s("local x = 1")),
            TagType::Comment(s("  @param is no tag here")),
            TagType::Comment(s("@param neither here")),
            TagType::UsageEnd,
            TagType::Comment(s("after")),
        ]
    );
}

#[test]
fn lex_brief_block() {
    assert_eq!(
        tags("---@brief [[\n---Some text\n---\n---more\n---@brief ]]"),
        vec![
            TagType::BriefStart,
            TagType::Comment(s("Some text")),
            TagType::Comment(s("")),
            TagType::Comment(s("more")),
            TagType::BriefEnd,
        ]
    );
}

#[test]
fn lex_free_text_and_unknown_tags() {
    assert_eq!(
        tags("---A Pi\n--- indented\n---@deprecated use something else\n----\n-- no doc comment"),
        vec![
            TagType::Comment(s("A Pi")),
            TagType::Comment(s(" indented")),
            TagType::Comment(s("@deprecated use something else")),
            TagType::Comment(s("-")),
        ]
    );
}

#[test]
fn lex_definitions() {
    assert_eq!(
        tags("function U:create()\nfunction M.echo(message, opts)\nM.run = function()\nU.Pi = 3.14\nlocal function helper(x)\nlocal U = {}\nlocal f = function() end\nfunction global()\nx = 1"),
        vec![
            TagType::Func { prefix: Some(s("U")), name: s("create"), kind: Kind::Colon },
            TagType::Func { prefix: Some(s("M")), name: s("echo"), kind: Kind::Dot },
            TagType::Func { prefix: Some(s("M")), name: s("run"), kind: Kind::Dot },
            TagType::Expr { prefix: Some(s("U")), name: s("Pi"), kind: Kind::Dot },
            TagType::Func { prefix: None, name: s("helper"), kind: Kind::Local },
            TagType::Expr { prefix: None, name: s("U"), kind: Kind::Local },
            TagType::Func { prefix: None, name: s("f"), kind: Kind::Local },
            TagType::Func { prefix: None, name: s("global"), kind: Kind::Local },
            TagType::Expr { prefix: None, name: s("x"), kind: Kind::Local },
        ]
    );
}

#[test]
fn lex_passes_over_other_code() {
    assert_eq!(
        tags("    return self.Pi\nend\nif x == 1 then\nprint(x)\nfunctional = 1\nfunction(x) end\nreturn\n\n"),
        vec![TagType::Expr { prefix: None, name: s("functional"), kind: Kind::Local }]
    );
}

#[test]
fn lex_export_only_on_the_last_line_with_text() {
    assert_eq!(tags("return U\n\n  \n"), vec![TagType::Export(s("U"))]);
    assert_eq!(tags("return U\nlocal x = 1"), vec![TagType::Expr {
        prefix: None,
        name: s("x"),
        kind: Kind::Local
    }]);
    assert_eq!(tags("return U.x"), vec![]);
    assert_eq!(tags("returnU"), vec![]);
}

#[test]
fn lex_empty_text() {
    assert_eq!(tags(""), vec![]);
    assert_eq!(tags("\n\n"), vec![]);
}

#[test]
fn lex_positions() {
    assert_eq!(
        lex("\n  ---@see a\n\t\tlocal x = 1\r\n---text").unwrap(),
        vec![
            Spanned { tag: TagType::See(s("a")), line: 1, column: 2 },
            Spanned {
                tag: TagType::Expr { prefix: None, name: s("x"), kind: Kind::Local },
                line: 2,
                column: 2
            },
            Spanned { tag: TagType::Comment(s("text")), line: 3, column: 0 },
        ]
    );
}

#[test]
fn lex_syntax_errors() {
    let at = |line, column| Err(Error { kind: ErrorKind::SyntaxError, line, column });
    assert_eq!(lex("---@param"), at(0, 0));
    assert_eq!(lex("---text\n  ---@param name"), at(1, 2));
    assert_eq!(lex("---@return"), at(0, 0));
    assert_eq!(lex("---@alias ID"), at(0, 0));
    assert_eq!(lex("---@alias"), at(0, 0));
    assert_eq!(lex("---@type"), at(0, 0));
    assert_eq!(lex("---@mod"), at(0, 0));
    assert_eq!(lex("---@class"), at(0, 0));
    assert_eq!(lex("---@field name"), at(0, 0));
    assert_eq!(lex("---@field ? string"), at(0, 0));
    assert_eq!(lex("---@see"), at(0, 0));
    assert_eq!(lex("---@usage"), at(0, 0));
    assert_eq!(lex("---@usage `unclosed"), at(0, 0));
    assert_eq!(lex("---@brief"), at(0, 0));
    assert_eq!(lex("---@brief ]]"), at(0, 0));
    assert_eq!(lex("\n---@usage ]]"), at(1, 0));
}

#[test]
fn lex_unterminated_blocks() {
    assert_eq!(
        lex("---@brief [[\n---text"),
        Err(Error { kind: ErrorKind::UnterminatedBlock, line: 0, column: 0 })
    );
    assert_eq!(
        lex("---x\n  ---@usage [[\n---@brief ]]\ncode()"),
        Err(Error { kind: ErrorKind::UnterminatedBlock, line: 1, column: 2 })
    );
}

#[test]
fn kind_as_char() {
    assert_eq!(Kind::Dot.as_char(), '.');
    assert_eq!(Kind::Colon.as_char(), ':');
    assert_eq!(Kind::Local.as_char(), '#');
}
