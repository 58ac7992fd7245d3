//! Reading a workbook: from what a parser found in a container, sheet by
//! sheet, to the sheets of the workbook.
//!
//! The container itself is opened and parsed by the caller. This module
//! takes what was found as plain values: the names the container lists, in
//! the order of the file, and for each the rows that were read.

use vstd::prelude::*;
use crate::edit::sheets_model;
use crate::headers::{build_sheet, sheet_from_raw};
use crate::sheet::{ExcelData, SheetModel};
use crate::text::lowercase_of;
use crate::value::{raw_rows_model, RawCell, RawModel};

verus! {

/// One sheet as a container lists it: its name, and its rows where they
/// could be read. `rows` is nothing where the parser failed on the sheet.
#[derive(Debug)]
pub struct ParsedSheet {
    pub sheet_name: String,
    pub rows: Option<Vec<Vec<RawCell>>>,
}

/// What a `ParsedSheet` stands for.
pub struct ParsedModel {
    pub sheet_name: Seq<char>,
    pub rows: Option<Seq<Seq<RawModel>>>,
}

/// The rows of `rows`, as values.
pub open spec fn rows_read(rows: Option<Vec<Vec<RawCell>>>) -> Option<Seq<Seq<RawModel>>> {
    match rows {
        Some(rows) => Some(raw_rows_model(rows@)),
        None => None,
    }
}

impl View for ParsedSheet {
    type V = ParsedModel;

    open spec fn view(&self) -> ParsedModel {
        ParsedModel { sheet_name: self.sheet_name@, rows: rows_read(self.rows) }
    }
}

/// The listed sheets that `listed` holds.
pub open spec fn parsed_model(listed: Seq<ParsedSheet>) -> Seq<ParsedModel> {
    Seq::new(listed.len(), |i: int| listed[i]@)
}

/// `sheets` with the sheet `sheet_name` behind them where its rows were
/// read, and `sheets` alone where they were not.
pub open spec fn add_parsed(
    sheets: Seq<SheetModel>,
    sheet_name: Seq<char>,
    rows: Option<Seq<Seq<RawModel>>>,
) -> Seq<SheetModel> {
    match rows {
        Some(rows) => sheets.push(sheet_from_raw(sheet_name, lowercase_of(sheet_name), rows)),
        None => sheets,
    }
}

/// The sheets of the workbook whose container lists `listed`: one for each
/// listed sheet that could be read, in the order of the list. A sheet that
/// could not be read is left out.
pub open spec fn sheets_of_parsed(listed: Seq<ParsedModel>) -> Seq<SheetModel>
    decreases listed.len(),
{
    if listed.len() == 0 {
        Seq::empty()
    } else {
        add_parsed(
            sheets_of_parsed(listed.drop_last()),
            listed.last().sheet_name,
            listed.last().rows,
        )
    }
}

/// Whether the container lists a sheet named `sheet_name` that could be
/// read.
pub open spec fn lists_read_sheet(listed: Seq<ParsedModel>, sheet_name: Seq<char>) -> bool {
    exists|i: int|
        0 <= i < listed.len() && (#[trigger] listed[i]).rows is Some && listed[i].sheet_name
            == sheet_name
}

/// Adds the sheet `sheet_name` to `sheets` where its rows were read, and
/// skips it where they were not.
pub fn add_parsed_sheet(
    sheets: &mut Vec<ExcelData>,
    sheet_name: String,
    rows: Option<Vec<Vec<RawCell>>>,
)
    ensures
        sheets_model(final(sheets)@) == add_parsed(
            sheets_model(old(sheets)@),
            sheet_name@,
            rows_read(rows),
        ),
{
    match rows {
        Some(rows) => {
            let sheet = build_sheet(sheet_name, rows);
            sheets.push(sheet);
        },
        None => {},
    }
}

/// Makes the workbook out of what its container lists: every sheet that
/// could be read, in the order of the file, each with its labels and all
/// of its rows. A sheet that is listed and could not be read is left out.
pub fn read_excel_file(listed: Vec<ParsedSheet>) -> (sheets: Vec<ExcelData>)
    ensures
        sheets_model(sheets@) == sheets_of_parsed(parsed_model(listed@)),
{
    let ghost all = parsed_model(listed@);
    let mut sheets: Vec<ExcelData> = Vec::new();
    for parsed in it: listed
        invariant
            it.seq() == listed@,
            all == parsed_model(listed@),
            sheets_model(sheets@) == sheets_of_parsed(all.take(it.index() as int)),
    {
        assert(all.take(it.index() + 1).drop_last() =~= all.take(it.index() as int));
        add_parsed_sheet(&mut sheets, parsed.sheet_name, parsed.rows);
    }
    assert(all.take(listed.len() as int) =~= all);
    sheets
}

/// No sheet is made up: there are at most as many sheets as the container
/// lists.
pub proof fn sheets_read_are_listed(listed: Seq<ParsedModel>)
    ensures
        sheets_of_parsed(listed).len() <= listed.len(),
    decreases listed.len(),
{
    if listed.len() > 0 {
        sheets_read_are_listed(listed.drop_last());
    }
}

/// Where every listed sheet could be read, the workbook has one sheet for
/// each, in the order of the list and under the listed names.
pub proof fn readable_sheets_keep_names_and_order(listed: Seq<ParsedModel>)
    requires
        forall|i: int| 0 <= i < listed.len() ==> (#[trigger] listed[i]).rows is Some,
    ensures
        sheets_of_parsed(listed).len() == listed.len(),
        forall|i: int|
            0 <= i < listed.len() ==> (#[trigger] sheets_of_parsed(listed)[i]).sheet_name
                == listed[i].sheet_name,
    decreases listed.len(),
{
    if listed.len() > 0 {
        readable_sheets_keep_names_and_order(listed.drop_last());
    }
}

/// Every sheet of the workbook carries the name of a listed sheet that
/// could be read; and every such name is the name of a sheet.
pub proof fn sheet_names_are_listed_names(listed: Seq<ParsedModel>, sheet_name: Seq<char>)
    ensures
        crate::edit::has_sheet(sheets_of_parsed(listed), sheet_name) <==> lists_read_sheet(
            listed,
            sheet_name,
        ),
    decreases listed.len(),
{
    let sheets = sheets_of_parsed(listed);
    if listed.len() > 0 {
        let earlier = listed.drop_last();
        sheet_names_are_listed_names(earlier, sheet_name);
        if lists_read_sheet(listed, sheet_name) {
            let i = choose|i: int|
                0 <= i < listed.len() && (#[trigger] listed[i]).rows is Some && listed[i].sheet_name
                    == sheet_name;
            if i < earlier.len() {
                assert(earlier[i] == listed[i]);
                let k = choose|k: int|
                    0 <= k < sheets_of_parsed(earlier).len() && (#[trigger] sheets_of_parsed(
                        earlier,
                    )[k]).sheet_name == sheet_name;
                assert(sheets[k].sheet_name == sheet_name);
            } else {
                assert(sheets[sheets.len() - 1].sheet_name == sheet_name);
            }
        }
    }
}

} // verus!
