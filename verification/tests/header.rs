use vimcats::vimdoc::{header, TEXT_WIDTH};

#[test]
fn header_puts_the_closing_star_in_the_last_column() {
    let line = header("ID", "U.ID", 78);
    assert_eq!(line.chars().count(), 78);
    assert_eq!(
        line,
        "ID                                                                      *U.ID*"
    );
    assert!(line.starts_with("ID "));
    assert!(line.ends_with(" *U.ID*"));
}

#[test]
fn header_width_is_the_text_width() {
    assert_eq!(TEXT_WIDTH, 78);
    let line = header("U:create()", "U:create", TEXT_WIDTH);
    assert_eq!(
        line,
        "U:create()                                                          *U:create*"
    );
}

#[test]
fn header_that_fits_exactly_has_no_padding() {
    // 4 + 6 = 10 columns
    assert_eq!(header("abcd", "name", 10), "abcd*name*");
    // 11 columns: one space of padding
    assert_eq!(header("abcd", "name", 11), "abcd *name*");
}

#[test]
fn header_that_does_not_fit_gets_one_space() {
    assert_eq!(header("abcd", "name", 9), "abcd *name*");
    assert_eq!(header("abcd", "name", 0), "abcd *name*");
    let sig = "a_rather_long_function_name({with}, {many}, {parameters}, {that}, {fill}, {it})";
    let line = header(sig, "module.a_rather_long_function_name", 78);
    assert_eq!(
        line,
        "a_rather_long_function_name({with}, {many}, {parameters}, {that}, {fill}, {it}) *module.a_rather_long_function_name*"
    );
}

#[test]
fn header_counts_characters_not_bytes() {
    let line = header("é", "ü", 8);
    assert_eq!(line, "é    *ü*");
    assert_eq!(line.chars().count(), 8);
}

#[test]
fn header_with_empty_signature() {
    assert_eq!(header("", "tag", 8), "   *tag*");
}
