//! Whole edits of a workbook: from what its container lists, through the
//! edit, to the layout that is written out in its place.

use vstd::prelude::*;
use crate::edit::{
    apply_cell_update, apply_cell_updates, batch_fits, edit_sheets, edit_sheets_cell, updates_fit,
    updates_model, CellUpdate,
};
use crate::layout::{layouts_model, workbook_layout, write_excel_file, SheetLayout};
use crate::reader::{
    lists_read_sheet, parsed_model, read_excel_file, sheet_names_are_listed_names,
    sheets_of_parsed, ParsedSheet,
};
use crate::text::text_eq;
use crate::value::DataValue;

verus! {

/// Whether `listed` holds a sheet named `sheet_name` that could be read.
pub fn names_read_sheet(listed: &Vec<ParsedSheet>, sheet_name: &str) -> (found: bool)
    ensures
        found == lists_read_sheet(parsed_model(listed@), sheet_name@),
{
    let mut i: usize = 0;
    while i < listed.len()
        invariant
            i <= listed.len(),
            forall|k: int|
                0 <= k < i ==> !((#[trigger] parsed_model(listed@)[k]).rows is Some && parsed_model(
                    listed@,
                )[k].sheet_name == sheet_name@),
        decreases listed.len() - i,
    {
        if listed[i].rows.is_some() && text_eq(listed[i].sheet_name.as_str(), sheet_name) {
            assert(parsed_model(listed@)[i as int].rows is Some);
            return true;
        }
        i += 1;
    }
    false
}

/// Whether a batch can be applied to the workbook that `listed` gives:
/// where a sheet is named `sheet_name`, every update from row 1 on must
/// name a column that a row can be extended to.
pub fn batch_can_apply(listed: &Vec<ParsedSheet>, sheet_name: &str, updates: &Vec<CellUpdate>) -> (can:
    bool)
    ensures
        can == (lists_read_sheet(parsed_model(listed@), sheet_name@) ==> updates_fit(
            updates_model(updates@),
        )),
{
    !names_read_sheet(listed, sheet_name) || batch_fits(updates)
}

/// Whether a value can be written to (`row`, `column`) of the workbook
/// that `listed` gives: where a sheet is named `sheet_name` and the row is
/// 1 or more, the column must be one that a row can be extended to.
pub fn cell_can_apply(listed: &Vec<ParsedSheet>, sheet_name: &str, row: usize, column: usize) -> (can:
    bool)
    ensures
        can == (lists_read_sheet(parsed_model(listed@), sheet_name@) && row >= 1 ==> column
            < usize::MAX),
{
    row == 0 || column < usize::MAX || !names_read_sheet(listed, sheet_name)
}

/// Makes the workbook out of what its container lists, applies a batch of
/// updates to the sheets named `sheet_name`, and lays the whole workbook
/// out for writing.
///
/// The updates are applied in the order given, so of two updates of one
/// cell the later one stays. Where no sheet has the name, the workbook is
/// laid out as it was read, and that is no failure.
pub fn update_excel_cells(listed: Vec<ParsedSheet>, sheet_name: &str, updates: Vec<CellUpdate>) -> (layouts:
    Vec<SheetLayout>)
    requires
        lists_read_sheet(parsed_model(listed@), sheet_name@) ==> updates_fit(
            updates_model(updates@),
        ),
    ensures
        layouts_model(layouts@) == workbook_layout(
            edit_sheets(
                sheets_of_parsed(parsed_model(listed@)),
                sheet_name@,
                updates_model(updates@),
            ),
        ),
{
    proof {
        sheet_names_are_listed_names(parsed_model(listed@), sheet_name@);
    }
    let mut sheets = read_excel_file(listed);
    apply_cell_updates(&mut sheets, sheet_name, &updates);
    write_excel_file(sheets)
}

/// Makes the workbook out of what its container lists, writes `value` to
/// the cell at (`row`, `column`) of the sheets named `sheet_name`, and
/// lays the whole workbook out for writing. The sheet is extended as far
/// as the cell needs, as a batch of one update would extend it.
///
/// Where no sheet has the name, the workbook is laid out as it was read.
pub fn update_excel_cell(
    listed: Vec<ParsedSheet>,
    sheet_name: &str,
    row: usize,
    column: usize,
    value: DataValue,
) -> (layouts: Vec<SheetLayout>)
    requires
        lists_read_sheet(parsed_model(listed@), sheet_name@) && row >= 1 ==> column < usize::MAX,
    ensures
        layouts_model(layouts@) == workbook_layout(
            edit_sheets_cell(
                sheets_of_parsed(parsed_model(listed@)),
                sheet_name@,
                row as nat,
                column as nat,
                value@,
            ),
        ),
{
    proof {
        sheet_names_are_listed_names(parsed_model(listed@), sheet_name@);
    }
    let mut sheets = read_excel_file(listed);
    apply_cell_update(&mut sheets, sheet_name, row, column, &value);
    write_excel_file(sheets)
}

} // verus!
