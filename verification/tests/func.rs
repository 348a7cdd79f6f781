use vimcats::lexer::Kind;
use vimcats::parser::{Func, Param, Prefix, Return, See, Usage};
use vimcats::Settings;

fn s(text: &str) -> String {
    text.to_string()
}

fn func(prefix: Option<&str>, kind: Kind, name: &str) -> Func {
    Func {
        name: s(name),
        kind,
        prefix: Prefix { left: prefix.map(s), right: prefix.map(s) },
        desc: vec![],
        params: vec![],
        returns: vec![],
        see: See { refs: vec![] },
        usage: None,
    }
}

#[test]
fn rename_tag_changes_only_what_is_shown() {
    let mut f = func(Some("U"), Kind::Colon, "create");
    let before = f.clone();
    f.rename_tag(s("awesome"));
    assert_eq!(f.prefix.left, Some(s("U")));
    assert_eq!(f.prefix.right, Some(s("awesome")));
    assert_eq!(f.name, before.name);
    assert_eq!(f.kind, before.kind);
    assert_eq!(f.signature(), "U:create()");
    assert_eq!(f.tag(), "awesome:create");
    assert!(f.is_public("U"));
    assert!(!f.is_public("awesome"));
}

#[test]
fn is_public_needs_the_export_as_prefix_and_no_local() {
    assert!(func(Some("U"), Kind::Dot, "f").is_public("U"));
    assert!(func(Some("U"), Kind::Colon, "f").is_public("U"));
    assert!(!func(Some("U"), Kind::Local, "f").is_public("U"));
    assert!(!func(Some("V"), Kind::Dot, "f").is_public("U"));
    assert!(!func(Some("U"), Kind::Dot, "f").is_public("Us"));
    assert!(!func(None, Kind::Dot, "f").is_public("U"));
    assert!(!func(None, Kind::Dot, "f").is_public(""));
    assert!(!func(None, Kind::Local, "f").is_public("f"));
}

#[test]
fn render_function_with_all_sections() {
    let mut f = func(Some("M"), Kind::Dot, "echo");
    f.desc = vec![s("Prints given value"), s(""), s("Twice.")];
    f.params = vec![
        Param { name: s("message"), ty: s("string"), desc: vec![s("What to print"), s("in full")] },
        Param { name: s("opts?"), ty: s("table"), desc: vec![] },
    ];
    f.returns = vec![
        Return { ty: s("number"), name: Some(s("count")), desc: vec![] },
        Return { ty: s("string"), name: Some(s("err")), desc: vec![s("The error")] },
        Return { ty: s("nil"), name: None, desc: vec![] },
    ];
    f.see = See { refs: vec![s("M.print"), s("vim.notify")] };
    f.usage = Some(Usage { code: vec![s("M.echo('hi')"), s(""), s("  M.echo('ho', {})")] });
    let off = Settings::default();
    assert_eq!(
        f.render(&off),
        "\
M.echo({message}, {opts?})                                            *M.echo*
    Prints given value

    Twice.

    Parameters: ~
        {message}  (string)  What to print
                             in full
        {opts?}    (table)   

    Returns: ~
        (number)  count
        (string)  The error
        (nil)     

    See also: ~
        |M.print|
        |vim.notify|

    Usage: ~
>lua
        M.echo('hi')

          M.echo('ho', {})
<


"
    );
    let on = Settings { expand_opt: true, ..Default::default() };
    let expanded = f.render(&on);
    assert!(expanded.starts_with("M.echo({message}, {opts?}) "));
    assert!(expanded.contains("        {opts}     (nil|table)  \n"));
    assert!(expanded.contains("        {message}  (string)     What to print\n"));
}

#[test]
fn render_function_without_sections() {
    let f = func(None, Kind::Local, "helper");
    assert_eq!(
        f.render(&Settings::default()),
        "#helper()                                                            *#helper*\n\n\n"
    );
}

#[test]
fn render_wraps_a_long_description() {
    let mut f = func(Some("M"), Kind::Dot, "f");
    f.desc = vec![s(
        "This description is long enough that it does not fit into the width of a help file",
    )];
    assert_eq!(
        f.render(&Settings::default()),
        "\
M.f()                                                                    *M.f*
    This description is long enough that it does not fit into the width of a
    help file


"
    );
}

#[test]
fn render_is_the_same_each_time() {
    let mut f = func(Some("M"), Kind::Dot, "f");
    f.params = vec![Param { name: s("a?"), ty: s("number"), desc: vec![s("x")] }];
    let settings = Settings { expand_opt: true, ..Default::default() };
    assert_eq!(f.render(&settings), f.clone().render(&settings));
}

#[test]
fn settings_default_is_all_off() {
    assert_eq!(
        Settings::default(),
        Settings {
            prefix_func: false,
            prefix_alias: false,
            prefix_class: false,
            prefix_type: false,
            expand_opt: false
        }
    );
}
