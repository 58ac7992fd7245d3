//! How a sheet is made from the rows that the parser hands out: which row
//! holds the column labels, what the labels are, and what the cells become.

use vstd::prelude::*;
use crate::sheet::{rows_model, texts_model, ExcelData, SheetModel};
use crate::text::{contains_text, decimal_digits, lowercase_of, push_decimal, text_contains};
use crate::value::{
    cell_of_raw, raw_row_model, raw_rows_model, CellModel, DataValue, RawCell, RawModel,
};

verus! {

/// The index, from 0, of the row that holds the column labels of a sheet
/// whose name, in lowercase, is `lowered`.
///
/// Sheets with `pipeline` in their name keep their labels in the eleventh
/// row; sheets with `program` in their name, unless it also holds
/// `vacation`, in the third; all others in the first.
pub open spec fn header_row_index(lowered: Seq<char>) -> nat {
    if contains_text(lowered, "pipeline"@) {
        10
    } else if contains_text(lowered, "program"@) && !contains_text(lowered, "vacation"@) {
        2
    } else {
        0
    }
}

/// Whether a sheet whose name, in lowercase, is `lowered` has no label row
/// and gets its labels from the column positions instead.
pub open spec fn positional_headers(lowered: Seq<char>) -> bool {
    contains_text(lowered, "vacation"@)
}

/// The index of the label row of a sheet, from its name in lowercase.
pub fn header_row_for(lowered: &str) -> (index: usize)
    ensures
        index == header_row_index(lowered@),
{
    if text_contains(lowered, "pipeline") {
        10
    } else if text_contains(lowered, "program") && !text_contains(lowered, "vacation") {
        2
    } else {
        0
    }
}

/// The index of the label row of the sheet named `sheet_name`. Case plays
/// no part in it.
pub fn header_row_of(sheet_name: &str) -> (index: usize)
    ensures
        index == header_row_index(lowercase_of(sheet_name@)),
{
    let lowered = sheet_name.to_lowercase();
    header_row_for(lowered.as_str())
}

/// The label that a cell of the label row gives: a text is its own label,
/// a number the decimal text it prints as, anything else the empty label.
pub open spec fn label_of_raw(raw: RawModel) -> Seq<char> {
    match raw {
        RawModel::String(text) => text,
        RawModel::DateTimeIso(text) => text,
        RawModel::DurationIso(text) => text,
        RawModel::Float { bits, text } => text,
        RawModel::DateTime { bits, text } => text,
        _ => Seq::empty(),
    }
}

/// The labels that the cells of a label row give, cell by cell.
pub open spec fn labels_of_raw(row: Seq<RawModel>) -> Seq<Seq<char>> {
    Seq::new(row.len(), |i: int| label_of_raw(row[i]))
}

/// The label of column `column` where labels go by position: `Col` and
/// the column's number.
pub open spec fn column_label(column: nat) -> Seq<char> {
    "Col"@ + decimal_digits(column)
}

/// The labels `Col0`, `Col1`, ... of `width` columns.
pub open spec fn positional_labels(width: nat) -> Seq<Seq<char>> {
    Seq::new(width, |i: int| column_label(i as nat))
}

/// The cell values that a row of parsed cells becomes.
pub open spec fn row_of_raw(row: Seq<RawModel>) -> Seq<CellModel> {
    Seq::new(row.len(), |i: int| cell_of_raw(row[i]))
}

/// The rows of cell values that rows of parsed cells become.
pub open spec fn rows_of_raw(rows: Seq<Seq<RawModel>>) -> Seq<Seq<CellModel>> {
    Seq::new(rows.len(), |i: int| row_of_raw(rows[i]))
}

/// The labels of a sheet whose name, in lowercase, is `lowered` and whose
/// rows are `rows`.
///
/// Where labels go by position there is one for each cell of the first
/// row. Otherwise they are read off the label row, and a sheet that ends
/// before its label row has none.
pub open spec fn sheet_headers(lowered: Seq<char>, rows: Seq<Seq<RawModel>>) -> Seq<Seq<char>> {
    if positional_headers(lowered) {
        if rows.len() > 0 {
            positional_labels(rows[0].len())
        } else {
            Seq::empty()
        }
    } else if header_row_index(lowered) < rows.len() {
        labels_of_raw(rows[header_row_index(lowered) as int])
    } else {
        Seq::empty()
    }
}

/// The sheet that is made from a name, its lowercase form and the rows
/// that were parsed. Every row becomes a row of the sheet, the label row
/// too.
pub open spec fn sheet_from_raw(
    sheet_name: Seq<char>,
    lowered: Seq<char>,
    rows: Seq<Seq<RawModel>>,
) -> SheetModel {
    SheetModel {
        headers: sheet_headers(lowered, rows),
        rows: rows_of_raw(rows),
        sheet_name,
    }
}

/// The label that a cell of the label row gives.
pub fn header_label(raw: &RawCell) -> (label: String)
    ensures
        label@ == label_of_raw(raw@),
{
    match raw {
        RawCell::String(text) => text.clone(),
        RawCell::DateTimeIso(text) => text.clone(),
        RawCell::DurationIso(text) => text.clone(),
        RawCell::Float { bits, text } => text.clone(),
        RawCell::DateTime { bits, text } => text.clone(),
        _ => String::new(),
    }
}

/// The labels that the cells of a label row give.
pub fn header_labels(row: &Vec<RawCell>) -> (labels: Vec<String>)
    ensures
        texts_model(labels@) == labels_of_raw(raw_row_model(row@)),
{
    let mut labels: Vec<String> = Vec::new();
    let mut i: usize = 0;
    while i < row.len()
        invariant
            i <= row.len(),
            labels.len() == i,
            forall|k: int| 0 <= k < i ==> (#[trigger] labels@[k])@ == label_of_raw(row@[k]@),
        decreases row.len() - i,
    {
        labels.push(header_label(&row[i]));
        i += 1;
    }
    labels
}

/// The label of column `column` by position: `Col` and the number.
pub fn column_label_text(column: usize) -> (label: String)
    ensures
        label@ == column_label(column as nat),
{
    let mut label = "Col".to_owned();
    push_decimal(&mut label, column);
    label
}

/// The labels `Col0`, `Col1`, ... of `width` columns.
pub fn column_labels(width: usize) -> (labels: Vec<String>)
    ensures
        texts_model(labels@) == positional_labels(width as nat),
{
    let mut labels: Vec<String> = Vec::new();
    let mut i: usize = 0;
    while i < width
        invariant
            i <= width,
            labels.len() == i,
            forall|k: int| 0 <= k < i ==> (#[trigger] labels@[k])@ == column_label(k as nat),
        decreases width - i,
    {
        labels.push(column_label_text(i));
        i += 1;
    }
    labels
}

/// The labels of a sheet, from its name in lowercase and its parsed rows.
pub fn headers_for(lowered: &str, rows: &Vec<Vec<RawCell>>) -> (headers: Vec<String>)
    ensures
        texts_model(headers@) == sheet_headers(lowered@, raw_rows_model(rows@)),
{
    if text_contains(lowered, "vacation") {
        if rows.len() > 0 {
            column_labels(rows[0].len())
        } else {
            Vec::new()
        }
    } else {
        let index = header_row_for(lowered);
        if index < rows.len() {
            header_labels(&rows[index])
        } else {
            Vec::new()
        }
    }
}

/// The cell values that a row of parsed cells becomes.
pub fn cells_of_row(row: Vec<RawCell>) -> (cells: Vec<DataValue>)
    ensures
        crate::sheet::row_model(cells@) == row_of_raw(raw_row_model(row@)),
{
    let mut cells: Vec<DataValue> = Vec::new();
    for raw in it: row
        invariant
            it.seq() == row@,
            cells.len() == it.index(),
            forall|k: int| 0 <= k < cells.len() ==> (#[trigger] cells@[k])@ == cell_of_raw(row@[k]@),
    {
        cells.push(DataValue::from(raw));
    }
    cells
}

/// The rows of cell values that rows of parsed cells become.
pub fn cells_of_rows(rows: Vec<Vec<RawCell>>) -> (cells: Vec<Vec<DataValue>>)
    ensures
        rows_model(cells@) == rows_of_raw(raw_rows_model(rows@)),
{
    let mut cells: Vec<Vec<DataValue>> = Vec::new();
    for row in it: rows
        invariant
            it.seq() == rows@,
            cells.len() == it.index(),
            forall|k: int|
                0 <= k < cells.len() ==> crate::sheet::row_model((#[trigger] cells@[k])@)
                    == row_of_raw(raw_row_model(rows@[k]@)),
    {
        cells.push(cells_of_row(row));
    }
    cells
}

/// Makes a sheet from its name, the lowercase form of the name and the
/// rows that were parsed.
pub fn build_sheet_lowered(sheet_name: String, lowered: &str, rows: Vec<Vec<RawCell>>) -> (sheet:
    ExcelData)
    ensures
        sheet@ == sheet_from_raw(sheet_name@, lowered@, raw_rows_model(rows@)),
{
    let headers = headers_for(lowered, &rows);
    let cells = cells_of_rows(rows);
    ExcelData { headers, rows: cells, sheet_name }
}

/// Makes a sheet from its name and the rows that were parsed. The name
/// decides, whatever its case, where the labels come from.
pub fn build_sheet(sheet_name: String, rows: Vec<Vec<RawCell>>) -> (sheet: ExcelData)
    ensures
        sheet@ == sheet_from_raw(sheet_name@, lowercase_of(sheet_name@), raw_rows_model(rows@)),
{
    let lowered = sheet_name.to_lowercase();
    build_sheet_lowered(sheet_name, lowered.as_str(), rows)
}

/// A row of text cells, one for each of `texts`.
pub open spec fn text_cells(texts: Seq<Seq<char>>) -> Seq<RawModel> {
    Seq::new(texts.len(), |i: int| RawModel::String(texts[i]))
}

/// Labels that stand as text in the label row are read back as they are:
/// a sheet whose labels are read off a row, and whose label row holds
/// `labels` as text cells, has exactly `labels` as its labels.
pub proof fn text_labels_read_back(
    sheet_name: Seq<char>,
    lowered: Seq<char>,
    rows: Seq<Seq<RawModel>>,
    labels: Seq<Seq<char>>,
)
    requires
        !positional_headers(lowered),
        header_row_index(lowered) < rows.len(),
        rows[header_row_index(lowered) as int] == text_cells(labels),
    ensures
        sheet_from_raw(sheet_name, lowered, rows).headers == labels,
{
}

/// Every parsed row becomes a row of the sheet, in place: the sheet has as
/// many rows as were parsed and each is as long as it was.
pub proof fn rows_keep_their_shape(sheet_name: Seq<char>, lowered: Seq<char>, rows: Seq<Seq<RawModel>>)
    ensures
        sheet_from_raw(sheet_name, lowered, rows).rows.len() == rows.len(),
        forall|i: int|
            0 <= i < rows.len() ==> (#[trigger] sheet_from_raw(sheet_name, lowered, rows).rows[i]).len()
                == rows[i].len(),
{
}

} // verus!
