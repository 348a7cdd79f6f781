use vimcats::table::Table;

fn row(cells: &[&str]) -> Vec<String> {
    cells.iter().map(|c| c.to_string()).collect()
}

#[test]
fn table_pads_every_column_but_the_last() {
    let mut t = Table::new(3);
    t.add_row(row(&["{name}", "(string)", "The name"]));
    t.add_row(row(&["{email}", "(string)", "Where to write to"]));
    t.add_row(row(&["{id}", "(ID)", ""]));
    assert_eq!(t.len(), 3);
    assert_eq!(
        t.render(8),
        "        {name}   (string)  The name\n        {email}  (string)  Where to write to\n        {id}     (ID)      \n"
    );
}

#[test]
fn table_of_two_columns_leaves_the_types_unpadded() {
    let mut t = Table::new(2);
    t.add_row(row(&["{name}", "(string)"]));
    t.add_row(row(&["{email}", "(string)"]));
    t.add_row(row(&["{id}", "(ID)"]));
    assert_eq!(
        t.render(8),
        "        {name}   (string)\n        {email}  (string)\n        {id}     (ID)\n"
    );
}

#[test]
fn table_cells_of_a_column_have_the_width_of_the_longest() {
    let mut t = Table::new(3);
    t.add_row(row(&["a", "bbbb", "x"]));
    t.add_row(row(&["aaa", "b", "y"]));
    let text = t.render(0);
    let lines: Vec<&str> = text.lines().collect();
    assert_eq!(lines, vec!["a    bbbb  x", "aaa  b     y"]);
    for line in lines {
        // column 0 is 3 wide, column 1 begins in column 5 and is 4 wide
        assert_eq!(&line[3..5], "  ");
        assert_eq!(&line[9..11], "  ");
        assert_eq!(line.len(), 12);
    }
}

#[test]
fn table_without_rows_is_empty() {
    let t = Table::new(3);
    assert_eq!(t.len(), 0);
    assert_eq!(t.render(8), "");
}

#[test]
fn table_of_one_column_is_not_padded() {
    let mut t = Table::new(1);
    t.add_row(row(&["(number)"]));
    t.add_row(row(&["(a|b)"]));
    assert_eq!(t.render(4), "    (number)\n    (a|b)\n");
}

#[test]
fn table_without_columns_has_empty_lines() {
    let mut t = Table::new(0);
    t.add_row(Vec::new());
    assert_eq!(t.render(2), "  \n");
}

#[test]
fn table_keeps_the_order_of_its_rows() {
    let mut t = Table::new(2);
    t.add_row(row(&["z", "1"]));
    t.add_row(row(&["a", "2"]));
    t.add_row(row(&["m", "3"]));
    assert_eq!(t.render(0), "z  1\na  2\nm  3\n");
}
