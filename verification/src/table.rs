//! Fixed-width tables: every column but the last is padded to its longest cell.

use crate::text::{char_len, join, push_spaces, spaces, unlines};
use vstd::prelude::*;
use vstd::string::StringExecFns;

verus! {

/// Every row has `n` cells.
pub open spec fn rectangular(rows: Seq<Seq<Seq<char>>>, n: nat) -> bool {
    forall|r: int| 0 <= r < rows.len() ==> (#[trigger] rows[r]).len() == n
}

/// Length of the longest cell in column `c`; 0 for a table without rows.
pub open spec fn column_width(rows: Seq<Seq<Seq<char>>>, c: int) -> nat
    decreases rows.len(),
{
    if rows.len() == 0 {
        0
    } else {
        let rest = column_width(rows.drop_last(), c);
        let cell = rows.last()[c].len();
        if cell > rest {
            cell
        } else {
            rest
        }
    }
}

/// Cell `c` of row `r` as it is written: filled with spaces up to the width of
/// its column, unless it is the last cell of its row.
pub open spec fn cell_text(rows: Seq<Seq<Seq<char>>>, r: int, c: int) -> Seq<char> {
    let cell = rows[r][c];
    if c + 1 < rows[r].len() {
        cell + spaces((column_width(rows, c) - cell.len()) as nat)
    } else {
        cell
    }
}

/// The written cells of row `r`.
pub open spec fn row_cells(rows: Seq<Seq<Seq<char>>>, r: int) -> Seq<Seq<char>> {
    Seq::new(rows[r].len(), |c: int| cell_text(rows, r, c))
}

/// Row `r` as one line: its written cells with two spaces between neighbours.
pub open spec fn row_text(rows: Seq<Seq<Seq<char>>>, r: int) -> Seq<char> {
    join(row_cells(rows, r), spaces(2))
}

/// The lines of the table, each behind `indent` spaces.
pub open spec fn table_lines(rows: Seq<Seq<Seq<char>>>, indent: nat) -> Seq<Seq<char>> {
    Seq::new(rows.len(), |r: int| spaces(indent) + row_text(rows, r))
}

/// The table as text: one line per row, in the order of the rows.
pub open spec fn table_text(rows: Seq<Seq<Seq<char>>>, indent: nat) -> Seq<char> {
    unlines(table_lines(rows, indent))
}

/// Column in which cell `c` of every row begins, counted from the start of the row.
pub open spec fn column_start(rows: Seq<Seq<Seq<char>>>, c: int) -> nat
    decreases c,
{
    if c <= 0 {
        0
    } else {
        column_start(rows, c - 1) + column_width(rows, c - 1) + 2
    }
}

/// No cell of a column is longer than the column is wide.
pub proof fn column_width_bounds(rows: Seq<Seq<Seq<char>>>, c: int, r: int)
    requires
        0 <= r < rows.len(),
    ensures
        rows[r][c].len() <= column_width(rows, c),
    decreases rows.len(),
{
    if r < rows.len() - 1 {
        column_width_bounds(rows.drop_last(), c, r);
    }
}

/// Some cell of a column is as long as the column is wide.
pub proof fn column_width_attained(rows: Seq<Seq<Seq<char>>>, c: int) -> (r: int)
    requires
        rows.len() > 0,
    ensures
        0 <= r < rows.len(),
        rows[r][c].len() == column_width(rows, c),
    decreases rows.len(),
{
    if rows.len() == 1 {
        assert(column_width(rows.drop_last(), c) == 0);
        0
    } else if rows.last()[c].len() > column_width(rows.drop_last(), c) {
        rows.len() - 1
    } else {
        column_width_attained(rows.drop_last(), c)
    }
}

/// In every column but the last, every written cell is exactly as wide as the
/// longest cell of that column: it begins with the cell's own text, and what
/// follows is spaces.
pub proof fn columns_aligned(rows: Seq<Seq<Seq<char>>>, n: nat, r: int, c: int)
    requires
        rectangular(rows, n),
        0 <= r < rows.len(),
        0 <= c < n - 1,
    ensures
        cell_text(rows, r, c).len() == column_width(rows, c),
        forall|k: int| 0 <= k < rows.len() ==> (#[trigger] rows[k])[c].len() <= column_width(rows, c),
        exists|k: int| 0 <= k < rows.len() && (#[trigger] rows[k])[c].len() == column_width(rows, c),
        cell_text(rows, r, c).take(rows[r][c].len() as int) == rows[r][c],
        forall|i: int| rows[r][c].len() <= i < column_width(rows, c) ==> cell_text(rows, r, c)[i] == ' ',
{
    column_width_bounds(rows, c, r);
    assert forall|k: int| 0 <= k < rows.len() implies (#[trigger] rows[k])[c].len() <= column_width(
        rows,
        c,
    ) by {
        column_width_bounds(rows, c, k);
    }
    column_width_attained(rows, c);
}

/// The last cell of a row is written as it is.
pub proof fn last_cell_unpadded(rows: Seq<Seq<Seq<char>>>, r: int)
    requires
        0 <= r < rows.len(),
        rows[r].len() > 0,
    ensures
        cell_text(rows, r, rows[r].len() - 1) == rows[r].last(),
{
}

/// The first `k` written cells of row `r`, joined, are as long as the column
/// in which cell `k` begins minus the separator before it.
proof fn joined_prefix_len(rows: Seq<Seq<Seq<char>>>, n: nat, r: int, k: int)
    requires
        rectangular(rows, n),
        0 <= r < rows.len(),
        1 <= k < n,
    ensures
        join(row_cells(rows, r).take(k), spaces(2)).len() + 2 == column_start(rows, k),
    decreases k,
{
    let cells = row_cells(rows, r);
    columns_aligned(rows, n, r, k - 1);
    assert(cells.take(k).drop_last() =~= cells.take(k - 1));
    if k == 1 {
        assert(column_start(rows, 0) == 0);
    } else {
        joined_prefix_len(rows, n, r, k - 1);
    }
}

/// Joining more cells only adds text at the end.
proof fn joined_prefix_stays(cells: Seq<Seq<char>>, sep: Seq<char>, k: int, m: int)
    requires
        0 <= k <= m <= cells.len(),
    ensures
        join(cells.take(k), sep).len() <= join(cells.take(m), sep).len(),
        join(cells.take(m), sep).take(join(cells.take(k), sep).len() as int) == join(
            cells.take(k),
            sep,
        ),
    decreases m - k,
{
    if k < m {
        joined_prefix_stays(cells, sep, k, m - 1);
        assert(cells.take(m).drop_last() =~= cells.take(m - 1));
    }
}

/// In every row, cell `c` begins in the same column, `column_start(rows, c)`,
/// and its written text stands there in full.
pub proof fn columns_start_together(rows: Seq<Seq<Seq<char>>>, n: nat, r: int, c: int)
    requires
        rectangular(rows, n),
        0 <= r < rows.len(),
        0 <= c < n,
    ensures
        column_start(rows, c) + cell_text(rows, r, c).len() <= row_text(rows, r).len(),
        row_text(rows, r).subrange(
            column_start(rows, c) as int,
            (column_start(rows, c) + cell_text(rows, r, c).len()) as int,
        ) == cell_text(rows, r, c),
{
    let cells = row_cells(rows, r);
    let sep = spaces(2);
    let upto = join(cells.take(c + 1), sep);
    let start = column_start(rows, c) as int;
    let cell = cell_text(rows, r, c);
    assert(cells.take(n as int) =~= cells);
    joined_prefix_stays(cells, sep, c + 1, n as int);
    assert(cells.take(c + 1).drop_last() =~= cells.take(c));
    if c > 0 {
        joined_prefix_len(rows, n, r, c);
    }
    assert(upto.subrange(start, start + cell.len()) =~= cell);
}

/// Rows of cells, all of the same number of columns.
pub struct Table {
    rows: Vec<Vec<String>>,
    columns: usize,
}

impl View for Table {
    type V = Seq<Seq<Seq<char>>>;

    closed spec fn view(&self) -> Seq<Seq<Seq<char>>> {
        self.rows.deep_view()
    }
}

impl Table {
    /// Number of cells in each row.
    pub closed spec fn columns(&self) -> nat {
        self.columns as nat
    }

    /// Each row has as many cells as the table has columns.
    pub open spec fn wf(&self) -> bool {
        rectangular(self@, self.columns())
    }

    /// A table of `columns` columns without rows.
    pub fn new(columns: usize) -> (t: Table)
        ensures
            t.wf(),
            t.columns() == columns,
            t@ == Seq::<Seq<Seq<char>>>::empty(),
    {
        let t = Table { rows: Vec::new(), columns };
        t
    }

    /// Number of rows.
    pub fn len(&self) -> (n: usize)
        ensures
            n == self@.len(),
    {
        self.rows.len()
    }

    /// Adds `row` below the rows that are there.
    pub fn add_row(&mut self, row: Vec<String>)
        requires
            old(self).wf(),
            row.len() == old(self).columns(),
        ensures
            final(self).wf(),
            final(self).columns() == old(self).columns(),
            final(self)@ == old(self)@.push(row.deep_view()),
    {
        self.rows.push(row);
        assert(self@ =~= old(self)@.push(row.deep_view()));
    }

    /// Width of column `c`.
    fn width(&self, c: usize) -> (w: usize)
        requires
            self.wf(),
            c < self.columns(),
        ensures
            w == column_width(self@, c as int),
    {
        let mut w: usize = 0;
        let mut r: usize = 0;
        while r < self.rows.len()
            invariant
                self.wf(),
                c < self.columns(),
                r <= self.rows.len(),
                w == column_width(self@.take(r as int), c as int),
            decreases self.rows.len() - r,
        {
            assert(self@[r as int].len() == self.columns());
            let n = char_len(self.rows[r][c].as_str());
            assert(self@.take(r + 1).drop_last() =~= self@.take(r as int));
            if n > w {
                w = n;
            }
            r += 1;
        }
        assert(self@.take(r as int) =~= self@);
        w
    }

    /// The table as text, each line behind `indent` spaces.
    pub fn render(&self, indent: usize) -> (out: String)
        requires
            self.wf(),
        ensures
            out@ == table_text(self@, indent as nat),
    {
        let mut widths: Vec<usize> = Vec::new();
        let mut c: usize = 0;
        while c < self.columns
            invariant
                self.wf(),
                c <= self.columns,
                widths.len() == c,
                forall|k: int| 0 <= k < c ==> widths[k] == column_width(self@, k),
            decreases self.columns - c,
        {
            let w = self.width(c);
            widths.push(w);
            c += 1;
        }
        let mut out = String::new();
        let mut r: usize = 0;
        let ghost lines = table_lines(self@, indent as nat);
        while r < self.rows.len()
            invariant
                self.wf(),
                r <= self.rows.len(),
                widths.len() == self.columns,
                forall|k: int| 0 <= k < self.columns ==> widths[k] == column_width(self@, k),
                lines == table_lines(self@, indent as nat),
                out@ == unlines(lines.take(r as int)),
            decreases self.rows.len() - r,
        {
            let ghost base = out@;
            let ghost cells = row_cells(self@, r as int);
            push_spaces(&mut out, indent);
            let row = &self.rows[r];
            let mut c: usize = 0;
            while c < self.columns
                invariant
                    self.wf(),
                    r < self.rows.len(),
                    row == self.rows[r as int],
                    row.len() == self.columns,
                    c <= self.columns,
                    widths.len() == self.columns,
                    forall|k: int| 0 <= k < self.columns ==> widths[k] == column_width(self@, k),
                    cells == row_cells(self@, r as int),
                    cells.len() == self.columns,
                    out@ == base + spaces(indent as nat) + join(cells.take(c as int), spaces(2)),
                decreases self.columns - c,
            {
                if c > 0 {
                    push_spaces(&mut out, 2);
                }
                let cell = row[c].as_str();
                out.append(cell);
                if c + 1 < self.columns {
                    let n = char_len(cell);
                    proof {
                        column_width_bounds(self@, c as int, r as int);
                    }
                    push_spaces(&mut out, widths[c] - n);
                }
                assert(cells.take(c + 1).drop_last() =~= cells.take(c as int));
                c += 1;
            }
            out.push('\n');
            assert(cells.take(c as int) =~= cells);
            assert(lines.take(r + 1).drop_last() =~= lines.take(r as int));
            r += 1;
        }
        assert(lines.take(r as int) =~= lines);
        out
    }
}

} // verus!
