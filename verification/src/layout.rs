//! Writing a workbook out: where each label and each cell value goes on
//! the output sheet. The labels form row 0, whatever row they were read
//! from, and the rows of the sheet follow from row 1 on.

use vstd::prelude::*;
use crate::edit::sheets_model;
use crate::sheet::{ExcelData, SheetModel};
use crate::value::{CellModel, DataValue};

verus! {

/// What is written into one cell of the output.
#[derive(Debug, PartialEq)]
pub enum CellContent {
    Text(String),
    /// The bit pattern of the double to write.
    Number(u64),
    /// An integer, to be written as the nearest double.
    Integer(i64),
    Boolean(bool),
}

/// What a `CellContent` stands for.
pub enum ContentModel {
    Text(Seq<char>),
    Number(u64),
    Integer(i64),
    Boolean(bool),
}

impl View for CellContent {
    type V = ContentModel;

    open spec fn view(&self) -> ContentModel {
        match self {
            CellContent::Text(text) => ContentModel::Text(text@),
            CellContent::Number(bits) => ContentModel::Number(*bits),
            CellContent::Integer(i) => ContentModel::Integer(*i),
            CellContent::Boolean(b) => ContentModel::Boolean(*b),
        }
    }
}

/// One cell to write: its place on the output sheet and its content.
#[derive(Debug, PartialEq)]
pub struct CellWrite {
    pub row: u32,
    pub column: u16,
    pub content: CellContent,
}

/// What a `CellWrite` stands for.
pub struct WriteModel {
    pub row: u32,
    pub column: u16,
    pub content: ContentModel,
}

impl View for CellWrite {
    type V = WriteModel;

    open spec fn view(&self) -> WriteModel {
        WriteModel { row: self.row, column: self.column, content: self.content@ }
    }
}

/// One output sheet: its name and the cells to write, in writing order.
#[derive(Debug, PartialEq)]
pub struct SheetLayout {
    pub sheet_name: String,
    pub cells: Vec<CellWrite>,
}

/// What a `SheetLayout` stands for.
pub struct LayoutModel {
    pub sheet_name: Seq<char>,
    pub cells: Seq<WriteModel>,
}

/// The cell writes that `cells` holds.
pub open spec fn writes_model(cells: Seq<CellWrite>) -> Seq<WriteModel> {
    Seq::new(cells.len(), |i: int| cells[i]@)
}

impl View for SheetLayout {
    type V = LayoutModel;

    open spec fn view(&self) -> LayoutModel {
        LayoutModel { sheet_name: self.sheet_name@, cells: writes_model(self.cells@) }
    }
}

/// The layouts that `layouts` holds.
pub open spec fn layouts_model(layouts: Seq<SheetLayout>) -> Seq<LayoutModel> {
    Seq::new(layouts.len(), |i: int| layouts[i]@)
}

/// The output column of the cell at index `column`: the index in sixteen
/// bits. An index beyond that wraps round.
pub open spec fn column_index(column: int) -> u16 {
    (column % 0x1_0000) as u16
}

/// The output row of row number `row`: the number in thirty-two bits. A
/// number beyond that wraps round.
pub open spec fn row_index(row: int) -> u32 {
    (row % 0x1_0000_0000) as u32
}

/// The writes of the label row: label `i` goes to row 0, column `i`, as
/// text.
pub open spec fn header_writes(headers: Seq<Seq<char>>) -> Seq<WriteModel> {
    Seq::new(
        headers.len(),
        |i: int|
            WriteModel { row: 0, column: column_index(i), content: ContentModel::Text(headers[i]) },
    )
}

/// The content that a cell value is written as. An empty cell is not
/// written, so it has none.
pub open spec fn written_content(value: CellModel) -> Option<ContentModel> {
    match value {
        CellModel::Text(text) => Some(ContentModel::Text(text)),
        CellModel::Number(bits) => Some(ContentModel::Number(bits)),
        CellModel::Integer(i) => Some(ContentModel::Integer(i)),
        CellModel::Boolean(b) => Some(ContentModel::Boolean(b)),
        CellModel::Empty => None,
    }
}

/// The write of the value at index (`row`, `column`) of the sheet's rows,
/// both from 0. It goes one row further down, below the labels.
pub open spec fn cell_write(row: int, column: int, value: CellModel) -> Option<WriteModel> {
    match written_content(value) {
        Some(content) => Some(
            WriteModel { row: row_index(row + 1), column: column_index(column), content },
        ),
        None => None,
    }
}

/// `writes` with the write of one more cell behind them, where the cell is
/// written at all.
pub open spec fn add_write(writes: Seq<WriteModel>, write: Option<WriteModel>) -> Seq<WriteModel> {
    match write {
        Some(write) => writes.push(write),
        None => writes,
    }
}

/// The writes of the row at index `row`, cell after cell.
pub open spec fn row_writes(row: int, cells: Seq<CellModel>) -> Seq<WriteModel>
    decreases cells.len(),
{
    if cells.len() == 0 {
        Seq::empty()
    } else {
        add_write(
            row_writes(row, cells.drop_last()),
            cell_write(row, cells.len() - 1, cells.last()),
        )
    }
}

/// The writes of all rows, row after row.
pub open spec fn rows_writes(rows: Seq<Seq<CellModel>>) -> Seq<WriteModel>
    decreases rows.len(),
{
    if rows.len() == 0 {
        Seq::empty()
    } else {
        rows_writes(rows.drop_last()) + row_writes(rows.len() - 1, rows.last())
    }
}

/// The layout of a sheet: its name, then the labels, then the rows.
pub open spec fn sheet_layout(sheet: SheetModel) -> LayoutModel {
    LayoutModel {
        sheet_name: sheet.sheet_name,
        cells: header_writes(sheet.headers) + rows_writes(sheet.rows),
    }
}

/// The layouts of the sheets of a workbook, one for each sheet, in order.
pub open spec fn workbook_layout(sheets: Seq<SheetModel>) -> Seq<LayoutModel> {
    Seq::new(sheets.len(), |i: int| sheet_layout(sheets[i]))
}

/// The output column of the cell at index `column`.
pub fn output_column(column: usize) -> (index: u16)
    ensures
        index == column_index(column as int),
{
    let index = #[verifier::truncate]
    (column as u16);
    assert(index == column % 0x1_0000) by (bit_vector)
        requires
            index == column as u16,
    ;
    index
}

/// The output row of row number `row`.
pub fn output_row(row: usize) -> (index: u32)
    ensures
        index == row_index(row as int),
{
    let wide = row as u64;
    let index = #[verifier::truncate]
    (wide as u32);
    assert(index == wide % 0x1_0000_0000) by (bit_vector)
        requires
            index == wide as u32,
    ;
    index
}

/// The content that a cell value is written as, where it is written.
fn content_of(value: &DataValue) -> (content: Option<CellContent>)
    ensures
        match content {
            Some(content) => written_content(value@) == Some(content@),
            None => written_content(value@) is None,
        },
{
    match value {
        DataValue::Text(text) => Some(CellContent::Text(text.clone())),
        DataValue::Number(bits) => Some(CellContent::Number(*bits)),
        DataValue::Integer(i) => Some(CellContent::Integer(*i)),
        DataValue::Boolean(b) => Some(CellContent::Boolean(*b)),
        DataValue::Empty => None,
    }
}

/// Adds the writes of the labels to `cells`.
fn push_header_writes(cells: &mut Vec<CellWrite>, headers: &Vec<String>)
    requires
        old(cells).len() == 0,
    ensures
        writes_model(final(cells)@) == header_writes(crate::sheet::texts_model(headers@)),
{
    let mut i: usize = 0;
    while i < headers.len()
        invariant
            i <= headers.len(),
            cells.len() == i,
            forall|k: int|
                0 <= k < i ==> (#[trigger] cells@[k])@ == header_writes(
                    crate::sheet::texts_model(headers@),
                )[k],
        decreases headers.len() - i,
    {
        cells.push(
            CellWrite {
                row: 0,
                column: output_column(i),
                content: CellContent::Text(headers[i].clone()),
            },
        );
        i += 1;
    }
}

/// Adds the writes of the row at index `row` to `cells`.
fn push_row_writes(cells: &mut Vec<CellWrite>, row: usize, values: &Vec<DataValue>)
    requires
        row < usize::MAX,
    ensures
        writes_model(final(cells)@) == writes_model(old(cells)@) + row_writes(
            row as int,
            crate::sheet::row_model(values@),
        ),
{
    let ghost before = writes_model(cells@);
    let ghost all = crate::sheet::row_model(values@);
    let at = output_row(row + 1);
    let mut j: usize = 0;
    while j < values.len()
        invariant
            j <= values.len(),
            row < usize::MAX,
            at == row_index(row + 1),
            all == crate::sheet::row_model(values@),
            writes_model(cells@) == before + row_writes(row as int, all.take(j as int)),
        decreases values.len() - j,
    {
        let ghost earlier = writes_model(cells@);
        assert(all.take(j + 1).drop_last() =~= all.take(j as int));
        match content_of(&values[j]) {
            Some(content) => {
                cells.push(CellWrite { row: at, column: output_column(j), content });
                assert(writes_model(cells@) =~= earlier.push(
                    cell_write(row as int, j as int, values@[j as int]@).unwrap(),
                ));
            },
            None => {},
        }
        j += 1;
    }
    assert(all.take(values.len() as int) =~= all);
}

/// The layout of one sheet.
pub fn layout_sheet(sheet: &ExcelData) -> (layout: SheetLayout)
    ensures
        layout@ == sheet_layout(sheet@),
{
    let mut cells: Vec<CellWrite> = Vec::new();
    push_header_writes(&mut cells, &sheet.headers);
    let ghost labels = writes_model(cells@);
    let ghost all = sheet@.rows;
    let mut i: usize = 0;
    while i < sheet.rows.len()
        invariant
            i <= sheet.rows.len(),
            all == sheet@.rows,
            writes_model(cells@) == labels + rows_writes(all.take(i as int)),
        decreases sheet.rows.len() - i,
    {
        assert(all.take(i + 1).drop_last() =~= all.take(i as int));
        push_row_writes(&mut cells, i, &sheet.rows[i]);
        i += 1;
    }
    assert(all.take(sheet.rows.len() as int) =~= all);
    SheetLayout { sheet_name: sheet.sheet_name.clone(), cells }
}

/// The layout in which a workbook is written out: for each sheet, in
/// order, its name and the cells to write. The labels of a sheet go to row
/// 0 and its rows follow from row 1 on, so the row that the labels were
/// read from, being one of the rows, appears again below them. Empty cells
/// are not written.
pub fn write_excel_file(data: Vec<ExcelData>) -> (layouts: Vec<SheetLayout>)
    ensures
        layouts_model(layouts@) == workbook_layout(sheets_model(data@)),
{
    let mut layouts: Vec<SheetLayout> = Vec::new();
    let mut i: usize = 0;
    while i < data.len()
        invariant
            i <= data.len(),
            layouts.len() == i,
            forall|k: int| 0 <= k < i ==> (#[trigger] layouts@[k])@ == sheet_layout(data@[k]@),
        decreases data.len() - i,
    {
        layouts.push(layout_sheet(&data[i]));
        i += 1;
    }
    layouts
}

} // verus!
