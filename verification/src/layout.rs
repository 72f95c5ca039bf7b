//! How the charts are laid out in a grid of rows.
use vstd::prelude::*;

verus! {

/// One place in a row of the grid: the chart of the processing unit with this
/// index, or an empty place that fills up the last row.
#[derive(Clone, Copy, Debug, PartialEq, Eq)]
pub enum Cell {
    Chart(usize),
    Space,
}

/// What is shown: a notice that the first samples are awaited, or the rows of the
/// grid from top to bottom.
#[derive(Debug, PartialEq, Eq)]
pub enum Layout {
    Loading,
    Rows(Vec<Vec<Cell>>),
}

/// The number of rows that `count` charts take with `per_row` charts to a row.
pub open spec fn row_count(count: int, per_row: int) -> int
    recommends
        per_row > 0,
{
    (count + per_row - 1) / per_row
}

/// What stands at `column` of `row`: charts fill the grid row by row in the order
/// of their index, and empty places follow the last chart.
pub open spec fn cell_at(row: int, column: int, count: int, per_row: int) -> Cell {
    if row * per_row + column < count {
        Cell::Chart((row * per_row + column) as usize)
    } else {
        Cell::Space
    }
}

/// `rows` is the grid of `count` charts with `per_row` charts to a row: it has
/// just the rows that the charts need, and each row is full.
pub open spec fn is_grid(rows: Seq<Vec<Cell>>, count: int, per_row: int) -> bool {
    &&& rows.len() == row_count(count, per_row)
    &&& forall|r: int| #![trigger rows[r]] 0 <= r < rows.len() ==> rows[r]@.len() == per_row
    &&& forall|r: int, c: int|
        #![trigger rows[r]@[c]]
        0 <= r < rows.len() && 0 <= c < per_row ==> rows[r]@[c] == cell_at(r, c, count, per_row)
}

/// `rows` full rows hold all of `count` charts, and one row less does not, exactly
/// when `rows` is the number of rows that the charts take.
pub proof fn lemma_row_count(count: int, per_row: int, rows: int)
    requires
        per_row > 0,
        count >= 0,
        rows >= 0,
        count <= rows * per_row,
        rows > 0 ==> (rows - 1) * per_row < count,
    ensures
        row_count(count, per_row) == rows,
{
    assert((count + per_row - 1) / per_row == rows) by (nonlinear_arith)
        requires
            per_row > 0,
            count >= 0,
            rows >= 0,
            count <= rows * per_row,
            (rows - 1) * per_row < count,
    ;
}

/// The shape of the grid: how many charts stand in a row, which is never zero, and
/// how high a row is.
pub struct Grid {
    items_per_row: usize,
    chart_height: u16,
}

impl Grid {
    #[verifier::type_invariant]
    spec fn well_formed(self) -> bool {
        self.items_per_row > 0
    }

    pub closed spec fn spec_items_per_row(self) -> usize {
        self.items_per_row
    }

    pub closed spec fn spec_chart_height(self) -> u16 {
        self.chart_height
    }

    /// A grid of `items_per_row` charts to a row; `None` for zero, with which no
    /// chart could be placed.
    pub fn new(items_per_row: usize, chart_height: u16) -> (grid: Option<Grid>)
        ensures
            items_per_row == 0 <==> grid.is_none(),
            items_per_row > 0 ==> grid.unwrap().spec_items_per_row() == items_per_row
                && grid.unwrap().spec_chart_height() == chart_height,
    {
        if items_per_row == 0 {
            None
        } else {
            Some(Grid { items_per_row, chart_height })
        }
    }

    /// The number of charts in a row.
    pub fn items_per_row(&self) -> (n: usize)
        ensures
            n == self.spec_items_per_row(),
            n > 0,
    {
        proof {
            use_type_invariant(self);
        }
        self.items_per_row
    }

    /// The height of a row.
    pub fn chart_height(&self) -> (height: u16)
        ensures
            height == self.spec_chart_height(),
    {
        self.chart_height
    }

    /// The grid of `count` charts: rows of `items_per_row` places each, which the
    /// charts fill row by row; the places after the last chart are empty.
    pub fn rows(&self, count: usize) -> (rows: Vec<Vec<Cell>>)
        ensures
            is_grid(rows@, count as int, self.spec_items_per_row() as int),
    {
        let per_row = self.items_per_row();
        let mut rows: Vec<Vec<Cell>> = Vec::new();
        let mut placed: usize = 0;
        while placed < count
            invariant
                per_row > 0,
                placed <= count,
                rows@.len() * per_row < count ==> placed == rows@.len() * per_row,
                rows@.len() * per_row >= count ==> placed == count,
                rows@.len() > 0 ==> (rows@.len() - 1) * per_row < count,
                forall|r: int| #![trigger rows@[r]] 0 <= r < rows@.len() ==> rows@[r]@.len() == per_row,
                forall|r: int, c: int|
                    #![trigger rows@[r]@[c]]
                    0 <= r < rows@.len() && 0 <= c < per_row ==> rows@[r]@[c] == cell_at(
                        r,
                        c,
                        count as int,
                        per_row as int,
                    ),
            decreases count - placed,
        {
            let ghost above = rows@.len() as int;
            let ghost start = placed as int;
            let mut row: Vec<Cell> = Vec::new();
            let mut column: usize = 0;
            while column < per_row
                invariant
                    column <= per_row,
                    start == above * per_row,
                    start < count,
                    placed <= count,
                    start + column < count ==> placed == start + column,
                    start + column >= count ==> placed == count,
                    row@.len() == column,
                    forall|c: int|
                        #![trigger row@[c]]
                        0 <= c < column ==> row@[c] == cell_at(
                            above,
                            c,
                            count as int,
                            per_row as int,
                        ),
                decreases per_row - column,
            {
                if placed < count {
                    row.push(Cell::Chart(placed));
                    placed = placed + 1;
                } else {
                    row.push(Cell::Space);
                }
                column = column + 1;
            }
            let ghost before = rows@;
            rows.push(row);
            proof {
                assert((above + 1) * per_row == above * per_row + per_row) by (nonlinear_arith);
                assert forall|r: int, c: int|
                    #![trigger rows@[r]@[c]]
                    0 <= r < rows@.len() && 0 <= c < per_row implies rows@[r]@[c] == cell_at(
                    r,
                    c,
                    count as int,
                    per_row as int,
                ) by {
                    if r < above {
                        assert(rows@[r] == before[r]);
                    }
                }
                assert forall|r: int| #![trigger rows@[r]] 0 <= r < rows@.len() implies rows@[r]@.len()
                    == per_row by {
                    if r < above {
                        assert(rows@[r] == before[r]);
                    }
                }
            }
        }
        proof {
            if rows@.len() == 0 {
                assert(0 * per_row == 0) by (nonlinear_arith);
            }
            lemma_row_count(count as int, per_row as int, rows@.len() as int);
        }
        rows
    }
}

impl Default for Grid {
    /// Three charts to a row, each row 300 units high.
    fn default() -> (grid: Self)
        ensures
            grid.spec_items_per_row() == 3,
            grid.spec_chart_height() == 300,
    {
        Grid { items_per_row: 3, chart_height: 300 }
    }
}

} // verus!
