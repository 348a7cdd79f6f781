use vimcats::wrap::wrap_line;

fn wrapped(line: &str, avail: usize) -> Vec<String> {
    let chars: Vec<char> = line.chars().collect();
    wrap_line(&chars, avail)
}

#[test]
fn wrap_leaves_a_short_line_alone() {
    assert_eq!(wrapped("A Pi", 74), vec!["A Pi"]);
    assert_eq!(wrapped("", 74), vec![""]);
    assert_eq!(wrapped("a  b   c", 8), vec!["a  b   c"]);
}

#[test]
fn wrap_breaks_at_the_last_space_that_fits() {
    assert_eq!(wrapped("aaa bbb ccc", 7), vec!["aaa bbb", "ccc"]);
    assert_eq!(wrapped("aaa bbb ccc", 8), vec!["aaa bbb", "ccc"]);
    assert_eq!(wrapped("aaa bbb ccc", 6), vec!["aaa", "bbb", "ccc"]);
    assert_eq!(wrapped("aaa bbb ccc", 3), vec!["aaa", "bbb", "ccc"]);
}

#[test]
fn wrap_never_cuts_a_word() {
    assert_eq!(wrapped("abcdefghij", 4), vec!["abcdefghij"]);
    assert_eq!(wrapped("abcdefghij kl", 4), vec!["abcdefghij", "kl"]);
    assert_eq!(wrapped("ab abcdefghij kl", 4), vec!["ab", "abcdefghij", "kl"]);
}

#[test]
fn wrap_joined_by_spaces_gives_the_line_back() {
    let line = "The quick brown fox jumps over the lazy dog and then goes on for quite a while longer";
    for avail in 0..90 {
        let pieces = wrapped(line, avail);
        assert_eq!(pieces.join(" "), line);
        for piece in &pieces {
            assert!(piece.chars().count() <= avail || !piece[1..].contains(' '));
        }
    }
}

#[test]
fn wrap_at_the_text_width() {
    let line = "This description is long enough that it does not fit into the width of a help file";
    assert_eq!(line.len(), 82);
    assert_eq!(
        wrapped(line, 74),
        vec![
            "This description is long enough that it does not fit into the width of a",
            "help file"
        ]
    );
}
