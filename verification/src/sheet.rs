//! A sheet: a name, a header row, and rows of cells that may differ in
//! length. Rows are addressed from 1, columns from 0.

use vstd::prelude::*;
use crate::value::{CellModel, DataValue};

verus! {

/// One sheet of a workbook.
///
/// `rows` holds every row that was read, the header row among them. Rows
/// need not be equally long.
#[derive(Debug, PartialEq)]
pub struct ExcelData {
    pub headers: Vec<String>,
    pub rows: Vec<Vec<DataValue>>,
    pub sheet_name: String,
}

/// What an `ExcelData` stands for.
pub struct SheetModel {
    pub headers: Seq<Seq<char>>,
    pub rows: Seq<Seq<CellModel>>,
    pub sheet_name: Seq<char>,
}

/// The texts that `texts` holds.
pub open spec fn texts_model(texts: Seq<String>) -> Seq<Seq<char>> {
    Seq::new(texts.len(), |i: int| texts[i]@)
}

/// The cell values that `row` holds.
pub open spec fn row_model(row: Seq<DataValue>) -> Seq<CellModel> {
    Seq::new(row.len(), |i: int| row[i]@)
}

/// The rows of cell values that `rows` holds.
pub open spec fn rows_model(rows: Seq<Vec<DataValue>>) -> Seq<Seq<CellModel>> {
    Seq::new(rows.len(), |i: int| row_model(rows[i]@))
}

impl View for ExcelData {
    type V = SheetModel;

    open spec fn view(&self) -> SheetModel {
        SheetModel {
            headers: texts_model(self.headers@),
            rows: rows_model(self.rows@),
            sheet_name: self.sheet_name@,
        }
    }
}

/// A row of `width` empty cells.
pub open spec fn empty_row(width: nat) -> Seq<CellModel> {
    Seq::new(width, |i: int| CellModel::Empty)
}

impl SheetModel {
    /// The sheet once row `row` exists: rows are appended while there are
    /// fewer than `row`, each with one empty cell per header. A sheet that
    /// has the row already is left as it is.
    pub open spec fn ensure_row(self, row: nat) -> SheetModel {
        if self.rows.len() < row {
            SheetModel {
                rows: self.rows + Seq::new(
                    (row - self.rows.len()) as nat,
                    |i: int| empty_row(self.headers.len()),
                ),
                ..self
            }
        } else {
            self
        }
    }

    /// The sheet once row `row` reaches to column `column`: empty cells are
    /// appended to that row, and to no other, while it has `column` cells
    /// or fewer. Nothing changes where the sheet has no row `row`.
    pub open spec fn ensure_column(self, row: nat, column: nat) -> SheetModel {
        if 1 <= row <= self.rows.len() && self.rows[row - 1].len() <= column {
            let cells = self.rows[row - 1];
            SheetModel {
                rows: self.rows.update(
                    row - 1,
                    cells + Seq::new((column + 1 - cells.len()) as nat, |i: int| CellModel::Empty),
                ),
                ..self
            }
        } else {
            self
        }
    }

    /// The sheet with `value` in the cell at (`row`, `column`). Nothing
    /// changes where the sheet has no such cell.
    pub open spec fn set_cell(self, row: nat, column: nat, value: CellModel) -> SheetModel {
        if 1 <= row <= self.rows.len() && column < self.rows[row - 1].len() {
            SheetModel {
                rows: self.rows.update(row - 1, self.rows[row - 1].update(column as int, value)),
                ..self
            }
        } else {
            self
        }
    }

    /// The sheet after one edit: the row is made to exist, then the column
    /// in that row, then the cell is overwritten.
    pub open spec fn write_cell(self, row: nat, column: nat, value: CellModel) -> SheetModel {
        self.ensure_row(row).ensure_column(row, column).set_cell(row, column, value)
    }
}

/// A row of `width` empty cells.
pub fn empty_cells(width: usize) -> (cells: Vec<DataValue>)
    ensures
        row_model(cells@) == empty_row(width as nat),
{
    let mut cells: Vec<DataValue> = Vec::new();
    while cells.len() < width
        invariant
            cells.len() <= width,
            forall|i: int| 0 <= i < cells.len() ==> cells@[i]@ == CellModel::Empty,
        decreases width - cells.len(),
    {
        cells.push(DataValue::Empty);
    }
    cells
}

impl ExcelData {
    /// Makes row `row` exist, counting rows from 1.
    pub fn ensure_row(&mut self, row: usize)
        ensures
            final(self)@ == old(self)@.ensure_row(row as nat),
    {
        let ghost before = self@;
        while self.rows.len() < row
            invariant
                self@.headers == before.headers,
                self@.sheet_name == before.sheet_name,
                before.rows.len() <= self.rows.len(),
                before.rows.len() < row ==> self.rows.len() <= row,
                before.rows.len() >= row ==> self.rows.len() == before.rows.len(),
                self@.rows =~~= before.rows + Seq::new(
                    (self.rows.len() - before.rows.len()) as nat,
                    |i: int| empty_row(before.headers.len()),
                ),
            decreases row - self.rows.len(),
        {
            let ghost grown = self@.rows;
            let cells = empty_cells(self.headers.len());
            self.rows.push(cells);
            assert(self@.rows =~~= grown.push(empty_row(before.headers.len())));
        }
    }

    /// Makes row `row` reach to column `column`, counting rows from 1 and
    /// columns from 0. Other rows keep their length. Where the sheet has
    /// the row, the column must be one that a row can be extended to.
    pub fn ensure_column(&mut self, row: usize, column: usize)
        requires
            1 <= row <= old(self).rows.len() ==> column < usize::MAX,
        ensures
            final(self)@ == old(self)@.ensure_column(row as nat, column as nat),
    {
        let ghost before = self@;
        if row > 0 && row <= self.rows.len() {
            let at: usize = row - 1;
            while self.rows[at].len() <= column
                invariant
                    at == row - 1,
                    at < self.rows.len(),
                    column < usize::MAX,
                    self@.headers == before.headers,
                    self@.sheet_name == before.sheet_name,
                    self.rows.len() == before.rows.len(),
                    before.rows[at as int].len() <= self.rows[at as int].len(),
                    before.rows[at as int].len() <= column ==> self.rows[at as int].len() <= column + 1,
                    before.rows[at as int].len() > column ==> self.rows[at as int].len()
                        == before.rows[at as int].len(),
                    self@.rows =~~= before.rows.update(
                        at as int,
                        before.rows[at as int] + Seq::new(
                            (self.rows[at as int].len() - before.rows[at as int].len()) as nat,
                            |i: int| CellModel::Empty,
                        ),
                    ),
                decreases column + 1 - self.rows[at as int].len(),
            {
                let ghost grown = self@.rows;
                self.rows[at].push(DataValue::Empty);
                assert(self@.rows =~~= grown.update(at as int, grown[at as int].push(CellModel::Empty)));
            }
            assert(self@.rows =~~= before.ensure_column(row as nat, column as nat).rows);
        }
    }

    /// Puts `value` into the cell at (`row`, `column`), counting rows from
    /// 1 and columns from 0, where the sheet has such a cell.
    pub fn set_cell(&mut self, row: usize, column: usize, value: DataValue)
        ensures
            final(self)@ == old(self)@.set_cell(row as nat, column as nat, value@),
    {
        let ghost before = self@;
        let ghost cell = value@;
        if row > 0 && row <= self.rows.len() {
            let at: usize = row - 1;
            if column < self.rows[at].len() {
                self.rows[at][column] = value;
                assert(self@.rows =~~= before.set_cell(row as nat, column as nat, cell).rows);
            }
        }
    }

    /// Applies one edit: makes the row exist, then the column in that row,
    /// then overwrites the cell. From row 1 on, the column must be one
    /// that a row can be extended to; at row 0 nothing is extended.
    pub fn write_cell(&mut self, row: usize, column: usize, value: DataValue)
        requires
            row >= 1 ==> column < usize::MAX,
        ensures
            final(self)@ == old(self)@.write_cell(row as nat, column as nat, value@),
    {
        self.ensure_row(row);
        self.ensure_column(row, column);
        self.set_cell(row, column, value);
    }
}

/// Making a row exist only ever adds rows: afterwards the sheet has the
/// larger of `row` and its former number of rows, the rows it had are
/// untouched, and every added row is one empty cell per header.
pub proof fn ensure_row_grows(sheet: SheetModel, row: nat)
    ensures
        sheet.ensure_row(row).headers == sheet.headers,
        sheet.ensure_row(row).sheet_name == sheet.sheet_name,
        sheet.ensure_row(row).rows.len() == if sheet.rows.len() < row {
            row
        } else {
            sheet.rows.len()
        },
        forall|i: int|
            0 <= i < sheet.rows.len() ==> #[trigger] sheet.ensure_row(row).rows[i] == sheet.rows[i],
        forall|i: int|
            sheet.rows.len() <= i < row ==> #[trigger] sheet.ensure_row(row).rows[i] == empty_row(
                sheet.headers.len(),
            ),
{
}

/// Asking for a row that exists changes nothing: after row `row` was made
/// to exist, asking for it or for an earlier row leaves the sheet as it is.
pub proof fn ensure_row_again(sheet: SheetModel, row: nat, again: nat)
    requires
        again <= row,
    ensures
        sheet.ensure_row(row).ensure_row(again) == sheet.ensure_row(row),
{
}

/// Making a column exist only ever adds cells to the one row: that row
/// gets the larger of `column + 1` and its former length, keeps the cells
/// it had and gains empty ones; every other row is untouched.
pub proof fn ensure_column_grows(sheet: SheetModel, row: nat, column: nat)
    ensures
        sheet.ensure_column(row, column).headers == sheet.headers,
        sheet.ensure_column(row, column).sheet_name == sheet.sheet_name,
        sheet.ensure_column(row, column).rows.len() == sheet.rows.len(),
        forall|i: int|
            0 <= i < sheet.rows.len() && i != row - 1 ==> #[trigger] sheet.ensure_column(
                row,
                column,
            ).rows[i] == sheet.rows[i],
        1 <= row <= sheet.rows.len() ==> {
            let before = sheet.rows[row - 1];
            let after = sheet.ensure_column(row, column).rows[row - 1];
            &&& after.len() == if before.len() <= column {
                column + 1
            } else {
                before.len()
            }
            &&& forall|j: int| 0 <= j < before.len() ==> #[trigger] after[j] == before[j]
            &&& forall|j: int| before.len() <= j < after.len() ==> #[trigger] after[j] == CellModel::Empty
        },
{
}

/// Asking for a column that exists changes nothing.
pub proof fn ensure_column_again(sheet: SheetModel, row: nat, column: nat, again: nat)
    requires
        again <= column,
    ensures
        sheet.ensure_column(row, column).ensure_column(row, again) == sheet.ensure_column(
            row,
            column,
        ),
{
}

/// After a cell was written, from row 1 on, the sheet has that cell and it
/// holds the value written.
pub proof fn write_cell_sets(sheet: SheetModel, row: nat, column: nat, value: CellModel)
    requires
        row >= 1,
    ensures
        row <= sheet.write_cell(row, column, value).rows.len(),
        column < sheet.write_cell(row, column, value).rows[row - 1].len(),
        sheet.write_cell(row, column, value).rows[row - 1][column as int] == value,
{
}

/// Writing one cell leaves every other cell that the sheet had as it was.
pub proof fn write_cell_keeps(
    sheet: SheetModel,
    row: nat,
    column: nat,
    value: CellModel,
    other_row: nat,
    other_column: nat,
)
    requires
        1 <= other_row <= sheet.rows.len(),
        other_column < sheet.rows[other_row - 1].len(),
        other_row != row || other_column != column,
    ensures
        other_row <= sheet.write_cell(row, column, value).rows.len(),
        other_column < sheet.write_cell(row, column, value).rows[other_row - 1].len(),
        sheet.write_cell(row, column, value).rows[other_row - 1][other_column as int]
            == sheet.rows[other_row - 1][other_column as int],
{
}

} // verus!
