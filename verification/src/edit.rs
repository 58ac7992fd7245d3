//! Edits: one cell update, a batch of them on one sheet, and a batch on the
//! sheets of a workbook that carry a given name.

use vstd::prelude::*;
use crate::sheet::{write_cell_keeps, write_cell_sets, ExcelData, SheetModel};
use crate::text::lowercase_of;
use crate::value::{coerce_edit, coerced, CellModel, DataValue};

verus! {

/// One requested edit of a cell.
///
/// Rows count from 1, columns from 0. `value` is the string to coerce and
/// `number` what reading that string as a double gave: the bit pattern of
/// the double, or nothing where the string is no number. `header` is there
/// for the reader's sake and addresses nothing.
#[derive(Debug, PartialEq)]
pub struct CellUpdate {
    pub row: usize,
    pub column: usize,
    pub value: String,
    pub header: Option<String>,
    pub number: Option<u64>,
}

/// What a `CellUpdate` stands for.
pub struct UpdateModel {
    pub row: nat,
    pub column: nat,
    pub value: Seq<char>,
    pub header: Option<Seq<char>>,
    pub number: Option<u64>,
}

impl View for CellUpdate {
    type V = UpdateModel;

    open spec fn view(&self) -> UpdateModel {
        UpdateModel {
            row: self.row as nat,
            column: self.column as nat,
            value: self.value@,
            header: match self.header {
                Some(text) => Some(text@),
                None => None,
            },
            number: self.number,
        }
    }
}

/// The updates that `updates` holds.
pub open spec fn updates_model(updates: Seq<CellUpdate>) -> Seq<UpdateModel> {
    Seq::new(updates.len(), |i: int| updates[i]@)
}

/// The sheets that `sheets` holds.
pub open spec fn sheets_model(sheets: Seq<ExcelData>) -> Seq<SheetModel> {
    Seq::new(sheets.len(), |i: int| sheets[i]@)
}

/// The update names a column that a row can be extended to. An update at
/// row 0 extends nothing, so it fits whatever its column.
pub open spec fn update_fits(update: UpdateModel) -> bool {
    update.row >= 1 ==> update.column < usize::MAX
}

/// Every update of the batch fits.
pub open spec fn updates_fit(updates: Seq<UpdateModel>) -> bool {
    forall|i: int| 0 <= i < updates.len() ==> update_fits(#[trigger] updates[i])
}

/// Whether one of `sheets` is named `sheet_name`.
pub open spec fn has_sheet(sheets: Seq<SheetModel>, sheet_name: Seq<char>) -> bool {
    exists|i: int| 0 <= i < sheets.len() && (#[trigger] sheets[i]).sheet_name == sheet_name
}

/// The value that an update puts into its cell.
pub open spec fn update_value(update: UpdateModel) -> CellModel {
    coerced(update.value, lowercase_of(update.value), update.number)
}

impl SheetModel {
    /// The sheet after one update.
    pub open spec fn apply_update(self, update: UpdateModel) -> SheetModel {
        self.write_cell(update.row, update.column, update_value(update))
    }

    /// The sheet after the updates of a batch, applied in the order given.
    pub open spec fn apply_updates(self, updates: Seq<UpdateModel>) -> SheetModel
        decreases updates.len(),
    {
        if updates.len() == 0 {
            self
        } else {
            self.apply_updates(updates.drop_last()).apply_update(updates.last())
        }
    }
}

/// The workbook after a batch of updates on the sheets named `sheet_name`.
/// Names are compared exactly; the other sheets stay as they are.
pub open spec fn edit_sheets(
    sheets: Seq<SheetModel>,
    sheet_name: Seq<char>,
    updates: Seq<UpdateModel>,
) -> Seq<SheetModel> {
    Seq::new(
        sheets.len(),
        |i: int|
            if sheets[i].sheet_name == sheet_name {
                sheets[i].apply_updates(updates)
            } else {
                sheets[i]
            },
    )
}

/// The workbook after `value` was written to (`row`, `column`) on the
/// sheets named `sheet_name`.
pub open spec fn edit_sheets_cell(
    sheets: Seq<SheetModel>,
    sheet_name: Seq<char>,
    row: nat,
    column: nat,
    value: CellModel,
) -> Seq<SheetModel> {
    Seq::new(
        sheets.len(),
        |i: int|
            if sheets[i].sheet_name == sheet_name {
                sheets[i].write_cell(row, column, value)
            } else {
                sheets[i]
            },
    )
}

impl ExcelData {
    /// Applies one update: coerces its string and writes the value to its
    /// cell, extending the sheet as far as needed.
    pub fn apply_update(&mut self, update: &CellUpdate)
        requires
            update_fits(update@),
        ensures
            final(self)@ == old(self)@.apply_update(update@),
    {
        let value = coerce_edit(update.value.as_str(), update.number);
        self.write_cell(update.row, update.column, value);
    }

    /// Applies the updates of a batch in the order given.
    pub fn apply_updates(&mut self, updates: &Vec<CellUpdate>)
        requires
            updates_fit(updates_model(updates@)),
        ensures
            final(self)@ == old(self)@.apply_updates(updates_model(updates@)),
    {
        let ghost before = self@;
        let ghost all = updates_model(updates@);
        let mut i: usize = 0;
        while i < updates.len()
            invariant
                i <= updates.len(),
                all == updates_model(updates@),
                updates_fit(all),
                self@ == before.apply_updates(all.take(i as int)),
            decreases updates.len() - i,
        {
            assert(update_fits(all[i as int]));
            self.apply_update(&updates[i]);
            assert(all.take(i + 1).drop_last() =~= all.take(i as int));
            i += 1;
        }
        assert(all.take(updates.len() as int) =~= all);
    }
}

/// The place of the first sheet named `sheet_name`, or nothing where no
/// sheet has that name. Names are compared exactly, case and all.
pub fn find_sheet(sheets: &Vec<ExcelData>, sheet_name: &str) -> (found: Option<usize>)
    ensures
        match found {
            Some(at) => {
                &&& at < sheets.len()
                &&& sheets@[at as int]@.sheet_name == sheet_name@
                &&& forall|k: int| 0 <= k < at ==> (#[trigger] sheets@[k])@.sheet_name != sheet_name@
            },
            None => forall|k: int|
                0 <= k < sheets.len() ==> (#[trigger] sheets@[k])@.sheet_name != sheet_name@,
        },
{
    let wanted = sheet_name.to_owned();
    let mut i: usize = 0;
    while i < sheets.len()
        invariant
            i <= sheets.len(),
            wanted@ == sheet_name@,
            forall|k: int| 0 <= k < i ==> (#[trigger] sheets@[k])@.sheet_name != sheet_name@,
        decreases sheets.len() - i,
    {
        if sheets[i].sheet_name == wanted {
            return Some(i);
        }
        i += 1;
    }
    None
}

/// Whether every update of the batch fits.
pub fn batch_fits(updates: &Vec<CellUpdate>) -> (fits: bool)
    ensures
        fits == updates_fit(updates_model(updates@)),
{
    let mut i: usize = 0;
    while i < updates.len()
        invariant
            i <= updates.len(),
            forall|k: int| 0 <= k < i ==> update_fits(#[trigger] updates_model(updates@)[k]),
        decreases updates.len() - i,
    {
        if updates[i].row >= 1 && updates[i].column == usize::MAX {
            assert(!update_fits(updates_model(updates@)[i as int]));
            return false;
        }
        i += 1;
    }
    true
}

/// Applies a batch of updates to every sheet of `sheets` that is named
/// `sheet_name`. Where no sheet has that name, nothing changes, and the
/// updates may be any.
pub fn apply_cell_updates(sheets: &mut Vec<ExcelData>, sheet_name: &str, updates: &Vec<CellUpdate>)
    requires
        has_sheet(sheets_model(old(sheets)@), sheet_name@) ==> updates_fit(updates_model(updates@)),
    ensures
        final(sheets).len() == old(sheets).len(),
        sheets_model(final(sheets)@) == edit_sheets(
            sheets_model(old(sheets)@),
            sheet_name@,
            updates_model(updates@),
        ),
{
    let ghost before = sheets_model(sheets@);
    let wanted = sheet_name.to_owned();
    let mut i: usize = 0;
    while i < sheets.len()
        invariant
            i <= sheets.len(),
            sheets.len() == before.len(),
            wanted@ == sheet_name@,
            has_sheet(before, sheet_name@) ==> updates_fit(updates_model(updates@)),
            forall|k: int| 0 <= k < i ==> (#[trigger] sheets@[k])@ == edit_sheets(
                before,
                sheet_name@,
                updates_model(updates@),
            )[k],
            forall|k: int| i <= k < sheets.len() ==> (#[trigger] sheets@[k])@ == before[k],
        decreases sheets.len() - i,
    {
        if sheets[i].sheet_name == wanted {
            sheets[i].apply_updates(updates);
        }
        i += 1;
    }
}

/// Writes `value` to (`row`, `column`) on every sheet of `sheets` that is
/// named `sheet_name`, extending the sheet as a batch of one update would.
/// Where no sheet has that name, nothing changes.
pub fn apply_cell_update(
    sheets: &mut Vec<ExcelData>,
    sheet_name: &str,
    row: usize,
    column: usize,
    value: &DataValue,
)
    requires
        has_sheet(sheets_model(old(sheets)@), sheet_name@) && row >= 1 ==> column < usize::MAX,
    ensures
        final(sheets).len() == old(sheets).len(),
        sheets_model(final(sheets)@) == edit_sheets_cell(
            sheets_model(old(sheets)@),
            sheet_name@,
            row as nat,
            column as nat,
            value@,
        ),
{
    let ghost before = sheets_model(sheets@);
    let wanted = sheet_name.to_owned();
    let mut i: usize = 0;
    while i < sheets.len()
        invariant
            i <= sheets.len(),
            sheets.len() == before.len(),
            wanted@ == sheet_name@,
            has_sheet(before, sheet_name@) && row >= 1 ==> column < usize::MAX,
            forall|k: int| 0 <= k < i ==> (#[trigger] sheets@[k])@ == edit_sheets_cell(
                before,
                sheet_name@,
                row as nat,
                column as nat,
                value@,
            )[k],
            forall|k: int| i <= k < sheets.len() ==> (#[trigger] sheets@[k])@ == before[k],
        decreases sheets.len() - i,
    {
        if sheets[i].sheet_name == wanted {
            sheets[i].write_cell(row, column, value.clone());
        }
        i += 1;
    }
}

/// Whether an update addresses the cell at (`row`, `column`).
pub open spec fn targets(update: UpdateModel, row: nat, column: nat) -> bool {
    update.row == row && update.column == column
}

/// In a batch the last write to a cell wins: where `updates[at]` addresses
/// a cell from row 1 on and no later update of the batch addresses the
/// same cell, the sheet holds that update's value in the cell afterwards.
pub proof fn last_update_wins(sheet: SheetModel, updates: Seq<UpdateModel>, at: int)
    requires
        0 <= at < updates.len(),
        updates[at].row >= 1,
        forall|later: int|
            at < later < updates.len() ==> !targets(
                #[trigger] updates[later],
                updates[at].row,
                updates[at].column,
            ),
    ensures
        updates[at].row <= sheet.apply_updates(updates).rows.len(),
        updates[at].column < sheet.apply_updates(updates).rows[updates[at].row - 1].len(),
        sheet.apply_updates(updates).rows[updates[at].row - 1][updates[at].column as int]
            == update_value(updates[at]),
    decreases updates.len(),
{
    let earlier = sheet.apply_updates(updates.drop_last());
    let last = updates.last();
    if at == updates.len() - 1 {
        write_cell_sets(earlier, last.row, last.column, update_value(last));
    } else {
        last_update_wins(sheet, updates.drop_last(), at);
        write_cell_keeps(
            earlier,
            last.row,
            last.column,
            update_value(last),
            updates[at].row,
            updates[at].column,
        );
    }
}

/// Of two updates of one batch that address the same cell, from row 1 on,
/// the later one decides the cell, where no update after it addresses the
/// cell again.
pub proof fn later_update_overrides(
    sheet: SheetModel,
    updates: Seq<UpdateModel>,
    first: int,
    second: int,
)
    requires
        0 <= first < second < updates.len(),
        updates[first].row >= 1,
        targets(updates[second], updates[first].row, updates[first].column),
        forall|later: int|
            second < later < updates.len() ==> !targets(
                #[trigger] updates[later],
                updates[first].row,
                updates[first].column,
            ),
    ensures
        sheet.apply_updates(updates).rows[updates[first].row - 1][updates[first].column as int]
            == update_value(updates[second]),
{
    last_update_wins(sheet, updates, second);
}

/// An edit of a sheet that the workbook does not have changes nothing:
/// where no sheet is named `sheet_name`, every sheet stays as it is.
pub proof fn absent_sheet_changes_nothing(
    sheets: Seq<SheetModel>,
    sheet_name: Seq<char>,
    updates: Seq<UpdateModel>,
)
    requires
        forall|i: int| 0 <= i < sheets.len() ==> (#[trigger] sheets[i]).sheet_name != sheet_name,
    ensures
        edit_sheets(sheets, sheet_name, updates) == sheets,
{
}

/// Writing one cell of a sheet that the workbook does not have changes
/// nothing.
pub proof fn absent_sheet_keeps_cells(
    sheets: Seq<SheetModel>,
    sheet_name: Seq<char>,
    row: nat,
    column: nat,
    value: CellModel,
)
    requires
        forall|i: int| 0 <= i < sheets.len() ==> (#[trigger] sheets[i]).sheet_name != sheet_name,
    ensures
        edit_sheets_cell(sheets, sheet_name, row, column, value) == sheets,
{
}

/// Writing one cell is the batch of one update: a batch that holds a
/// single update does to the workbook what writing that update's value to
/// its cell does.
pub proof fn single_update_is_batch_of_one(
    sheets: Seq<SheetModel>,
    sheet_name: Seq<char>,
    update: UpdateModel,
)
    ensures
        edit_sheets(sheets, sheet_name, seq![update]) == edit_sheets_cell(
            sheets,
            sheet_name,
            update.row,
            update.column,
            update_value(update),
        ),
{
    assert forall|sheet: SheetModel| #[trigger]
        sheet.apply_updates(seq![update]) == sheet.apply_update(update) by {
        assert(sheet.apply_updates(seq![update].drop_last()) == sheet);
    }
}

/// Edits change cells and nothing else: after a batch the sheet has its
/// name and its labels as before, and no fewer rows.
pub proof fn edits_keep_name_and_labels(sheet: SheetModel, updates: Seq<UpdateModel>)
    ensures
        sheet.apply_updates(updates).sheet_name == sheet.sheet_name,
        sheet.apply_updates(updates).headers == sheet.headers,
        sheet.apply_updates(updates).rows.len() >= sheet.rows.len(),
    decreases updates.len(),
{
    if updates.len() > 0 {
        edits_keep_name_and_labels(sheet, updates.drop_last());
    }
}

} // verus!
