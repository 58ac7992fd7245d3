use calamine::{Data, Reader, Xlsx};
use excel_grid::reader::add_parsed_sheet;
use excel_grid::workbook::{batch_can_apply, cell_can_apply, names_read_sheet};
use excel_grid::{
    read_excel_file, update_excel_cell, update_excel_cells, write_excel_file, CellContent,
    CellUpdate, DataValue, ExcelData, ParsedSheet, RawCell, SheetLayout,
};
use rust_xlsxwriter::{Format, Workbook};
use std::io::Cursor;

fn raw_cell(cell: &Data) -> RawCell {
    match cell {
        Data::Int(i) => RawCell::Int(*i),
        Data::Float(f) => RawCell::Float { bits: f.to_bits(), text: f.to_string() },
        Data::String(s) => RawCell::String(s.clone()),
        Data::Bool(b) => RawCell::Bool(*b),
        Data::DateTime(d) => {
            RawCell::DateTime { bits: d.as_f64().to_bits(), text: d.as_f64().to_string() }
        }
        Data::DateTimeIso(s) => RawCell::DateTimeIso(s.clone()),
        Data::DurationIso(s) => RawCell::DurationIso(s.clone()),
        Data::Error(_) => RawCell::Error,
        Data::Empty => RawCell::Empty,
    }
}

/// Parses the container in `bytes` and lists its sheets with their rows.
fn parse(bytes: Vec<u8>) -> Vec<ParsedSheet> {
    let mut workbook: Xlsx<_> = Xlsx::new(Cursor::new(bytes)).unwrap();
    let mut listed = Vec::new();
    for sheet_name in workbook.sheet_names() {
        let rows = workbook
            .worksheet_range(&sheet_name)
            .ok()
            .map(|range| range.rows().map(|row| row.iter().map(raw_cell).collect()).collect());
        listed.push(ParsedSheet { sheet_name, rows });
    }
    listed
}

fn read(bytes: Vec<u8>) -> Vec<ExcelData> {
    read_excel_file(parse(bytes))
}

fn listed_sheet(name: &str, rows: Option<Vec<Vec<RawCell>>>) -> ParsedSheet {
    ParsedSheet { sheet_name: name.to_string(), rows }
}

fn one_cell(text: &str) -> Option<Vec<Vec<RawCell>>> {
    Some(vec![vec![RawCell::String(text.to_string())]])
}

fn text(s: &str) -> DataValue {
    DataValue::Text(s.to_string())
}

fn number(x: f64) -> DataValue {
    DataValue::Number(x.to_bits())
}

fn update(row: usize, column: usize, value: &str) -> CellUpdate {
    CellUpdate {
        row,
        column,
        value: value.to_string(),
        header: None,
        number: value.parse::<f64>().ok().map(f64::to_bits),
    }
}

/// Writes layouts out with the xlsx writer, cell by cell in the order given.
fn emit(layouts: &[SheetLayout]) -> Vec<u8> {
    let mut workbook = Workbook::new();
    for layout in layouts {
        let worksheet = workbook.add_worksheet();
        worksheet.set_name(&layout.sheet_name).unwrap();
        for cell in &layout.cells {
            match &cell.content {
                CellContent::Text(s) => {
                    worksheet.write_string(cell.row, cell.column, s).unwrap();
                }
                CellContent::Number(bits) => {
                    worksheet.write_number(cell.row, cell.column, f64::from_bits(*bits)).unwrap();
                }
                CellContent::Integer(i) => {
                    worksheet.write_number(cell.row, cell.column, *i as f64).unwrap();
                }
                CellContent::Boolean(b) => {
                    worksheet.write_boolean(cell.row, cell.column, *b).unwrap();
                }
            }
        }
    }
    workbook.save_to_buffer().unwrap()
}

fn sample_book() -> Vec<u8> {
    let mut workbook = Workbook::new();
    let first = workbook.add_worksheet();
    first.set_name("Budget").unwrap();
    first.write_string(0, 0, "Name").unwrap();
    first.write_string(0, 1, "Hours").unwrap();
    first.write_string(0, 2, "Billed").unwrap();
    first.write_string(1, 0, "ann").unwrap();
    first.write_number(1, 1, 7.5).unwrap();
    first.write_boolean(1, 2, true).unwrap();
    first.write_string(2, 0, "bob").unwrap();
    first.write_number(2, 1, 8).unwrap();
    let second = workbook.add_worksheet();
    second.set_name("Actuals").unwrap();
    second.write_string(0, 0, "Task").unwrap();
    second.write_string(1, 0, "design").unwrap();
    workbook.save_to_buffer().unwrap()
}

fn column_of_texts(name: &str, count: u32) -> Vec<u8> {
    let mut workbook = Workbook::new();
    let sheet = workbook.add_worksheet();
    sheet.set_name(name).unwrap();
    for row in 0..count {
        sheet.write_string(row, 0, format!("a{}", row)).unwrap();
        sheet.write_string(row, 1, format!("b{}", row)).unwrap();
    }
    workbook.save_to_buffer().unwrap()
}

#[test]
fn sheets_come_in_file_order_with_their_cells() {
    let sheets = read(sample_book());
    assert_eq!(sheets.len(), 2);
    assert_eq!(sheets[0].sheet_name, "Budget");
    assert_eq!(sheets[1].sheet_name, "Actuals");
    assert_eq!(sheets[0].headers, vec!["Name", "Hours", "Billed"]);
    assert_eq!(
        sheets[0].rows,
        vec![
            vec![text("Name"), text("Hours"), text("Billed")],
            vec![text("ann"), number(7.5), DataValue::Boolean(true)],
            vec![text("bob"), number(8.0), DataValue::Empty],
        ]
    );
    assert_eq!(sheets[1].headers, vec!["Task"]);
    assert_eq!(sheets[1].rows, vec![vec![text("Task")], vec![text("design")]]);
}

#[test]
fn number_in_the_label_row_is_labelled_by_its_text() {
    let mut workbook = Workbook::new();
    let sheet = workbook.add_worksheet();
    sheet.write_string(0, 0, "Year").unwrap();
    sheet.write_number(0, 1, 2024).unwrap();
    sheet.write_number(0, 2, 0.25).unwrap();
    sheet.write_boolean(0, 3, true).unwrap();
    let sheets = read(workbook.save_to_buffer().unwrap());
    assert_eq!(sheets[0].headers, vec!["Year", "2024", "0.25", ""]);
    assert_eq!(sheets[0].sheet_name, "Sheet1");
}

#[test]
fn date_cell_is_read_as_its_serial_number() {
    let mut workbook = Workbook::new();
    let sheet = workbook.add_worksheet();
    let date = Format::new().set_num_format("yyyy-mm-dd");
    sheet.write_string(0, 0, "When").unwrap();
    sheet.write_number_with_format(1, 0, 45000.5, &date).unwrap();
    let sheets = read(workbook.save_to_buffer().unwrap());
    assert_eq!(sheets[0].rows[1], vec![number(45000.5)]);
}

#[test]
fn program_sheet_read_from_a_file_has_labels_from_its_third_row() {
    let sheets = read(column_of_texts("Program Management", 5));
    assert_eq!(sheets[0].headers, vec!["a2", "b2"]);
    assert_eq!(sheets[0].rows.len(), 5);
    assert_eq!(sheets[0].rows[0], vec![text("a0"), text("b0")]);
}

#[test]
fn pipeline_sheet_read_from_a_file_has_labels_from_its_eleventh_row() {
    let sheets = read(column_of_texts("Resource Pipeline", 12));
    assert_eq!(sheets[0].headers, vec!["a10", "b10"]);
    assert_eq!(sheets[0].rows.len(), 12);
}

#[test]
fn vacation_sheet_read_from_a_file_has_positional_labels() {
    let sheets = read(column_of_texts("Vacation Tracker", 3));
    assert_eq!(sheets[0].headers, vec!["Col0", "Col1"]);
    assert_eq!(sheets[0].rows.len(), 3);
}

#[test]
fn sheet_without_cells_is_read_as_an_empty_sheet() {
    let mut workbook = Workbook::new();
    workbook.add_worksheet().set_name("Blank").unwrap();
    let sheets = read(workbook.save_to_buffer().unwrap());
    assert_eq!(
        sheets,
        vec![ExcelData { headers: vec![], rows: vec![], sheet_name: "Blank".to_string() }]
    );
}

#[test]
fn parsed_sheet_is_added_and_unread_sheet_is_skipped() {
    let mut sheets: Vec<ExcelData> = Vec::new();
    add_parsed_sheet(&mut sheets, "Gone".to_string(), None);
    assert!(sheets.is_empty());
    add_parsed_sheet(
        &mut sheets,
        "Here".to_string(),
        Some(vec![vec![RawCell::String("h".to_string())], vec![RawCell::Int(1)]]),
    );
    add_parsed_sheet(&mut sheets, "Gone".to_string(), None);
    assert_eq!(
        sheets,
        vec![ExcelData {
            headers: vec!["h".to_string()],
            rows: vec![vec![text("h")], vec![DataValue::Integer(1)]],
            sheet_name: "Here".to_string(),
        }]
    );
}

#[test]
fn batch_update_of_a_file_lays_out_the_edited_workbook() {
    let batch = vec![update(2, 1, "9"), update(2, 1, "9.5"), update(5, 0, "new")];
    let layouts = update_excel_cells(parse(sample_book()), "Budget", batch);
    let mut expected = read(sample_book());
    expected[0].rows[1][1] = number(9.5);
    expected[0].rows.push(vec![DataValue::Empty, DataValue::Empty, DataValue::Empty]);
    expected[0].rows.push(vec![text("new"), DataValue::Empty, DataValue::Empty]);
    assert_eq!(layouts, write_excel_file(expected));
}

#[test]
fn batch_update_of_an_absent_sheet_leaves_the_workbook_as_read() {
    let layouts = update_excel_cells(parse(sample_book()), "Missing", vec![update(1, 0, "x")]);
    assert_eq!(layouts, write_excel_file(read(sample_book())));
}

#[test]
fn single_update_of_an_absent_sheet_leaves_the_workbook_as_read() {
    let layouts = update_excel_cell(parse(sample_book()), "Missing", 1, 0, text("x"));
    assert_eq!(layouts, write_excel_file(read(sample_book())));
}

#[test]
fn single_update_of_a_file_behaves_as_the_batch_of_one() {
    let by_cell =
        update_excel_cell(parse(sample_book()), "Actuals", 4, 2, DataValue::Boolean(false));
    let by_batch =
        update_excel_cells(parse(sample_book()), "Actuals", vec![update(4, 2, "false")]);
    assert_eq!(by_cell, by_batch);
}

#[test]
fn written_workbook_reads_back_with_its_names_and_labels() {
    let first = read(sample_book());
    let names: Vec<String> = first.iter().map(|s| s.sheet_name.clone()).collect();
    let headers: Vec<Vec<String>> = first.iter().map(|s| s.headers.clone()).collect();
    let saved = emit(&write_excel_file(first));
    let second = read(saved);
    assert_eq!(second.iter().map(|s| s.sheet_name.clone()).collect::<Vec<_>>(), names);
    assert_eq!(second.iter().map(|s| s.headers.clone()).collect::<Vec<_>>(), headers);
}

#[test]
fn each_save_puts_the_labels_above_the_rows_that_were_read() {
    let first = read(sample_book());
    let rows_before = first[0].rows.len();
    let second = read(emit(&write_excel_file(first)));
    assert_eq!(second[0].rows.len(), rows_before + 1);
    assert_eq!(second[0].rows[0], second[0].rows[1]);
    assert_eq!(second[0].rows[2], vec![text("ann"), number(7.5), DataValue::Boolean(true)]);
}

#[test]
fn integer_value_is_written_as_a_number() {
    let sheet = ExcelData {
        headers: vec!["n".to_string()],
        rows: vec![vec![DataValue::Integer(12)]],
        sheet_name: "Ints".to_string(),
    };
    let read = read(emit(&write_excel_file(vec![sheet])));
    assert_eq!(read[0].rows, vec![vec![text("n")], vec![number(12.0)]]);
}

#[test]
fn listed_sheets_become_sheets_in_order_and_unread_ones_are_left_out() {
    let listed = vec![
        listed_sheet("One", one_cell("a")),
        listed_sheet("Broken", None),
        listed_sheet("Two", Some(vec![])),
        listed_sheet("Three", one_cell("c")),
    ];
    let sheets = read_excel_file(listed);
    assert_eq!(
        sheets,
        vec![
            ExcelData {
                headers: vec!["a".to_string()],
                rows: vec![vec![text("a")]],
                sheet_name: "One".to_string(),
            },
            ExcelData { headers: vec![], rows: vec![], sheet_name: "Two".to_string() },
            ExcelData {
                headers: vec!["c".to_string()],
                rows: vec![vec![text("c")]],
                sheet_name: "Three".to_string(),
            },
        ]
    );
    assert!(read_excel_file(vec![]).is_empty());
    assert!(read_excel_file(vec![listed_sheet("Broken", None)]).is_empty());
}

#[test]
fn update_of_an_unread_sheet_changes_nothing() {
    let listed = vec![listed_sheet("One", one_cell("a")), listed_sheet("Broken", None)];
    let same = vec![listed_sheet("One", one_cell("a")), listed_sheet("Broken", None)];
    let layouts = update_excel_cells(listed, "Broken", vec![update(3, 3, "x")]);
    assert_eq!(layouts, write_excel_file(read_excel_file(same)));
    assert_eq!(layouts.len(), 1);
}

#[test]
fn only_sheets_that_were_read_count_as_named() {
    let listed = vec![listed_sheet("One", one_cell("a")), listed_sheet("Broken", None)];
    assert!(names_read_sheet(&listed, "One"));
    assert!(!names_read_sheet(&listed, "Broken"));
    assert!(!names_read_sheet(&listed, "one"));
    assert!(!names_read_sheet(&Vec::new(), "One"));
}

#[test]
fn batch_can_apply_unless_a_named_sheet_would_need_an_unreachable_column() {
    let listed = vec![listed_sheet("One", one_cell("a")), listed_sheet("Broken", None)];
    let fine = vec![update(1, 0, "x"), update(2, 70000, "y")];
    let too_far = vec![update(1, 0, "x"), update(2, usize::MAX, "y")];
    let at_row_zero = vec![update(0, usize::MAX, "y")];
    assert!(batch_can_apply(&listed, "One", &fine));
    assert!(!batch_can_apply(&listed, "One", &too_far));
    assert!(batch_can_apply(&listed, "One", &at_row_zero));
    assert!(batch_can_apply(&listed, "Missing", &too_far));
    assert!(batch_can_apply(&listed, "Broken", &too_far));
    assert!(batch_can_apply(&listed, "One", &vec![]));
}

#[test]
fn cell_can_apply_unless_a_named_sheet_would_need_an_unreachable_column() {
    let listed = vec![listed_sheet("One", one_cell("a"))];
    assert!(cell_can_apply(&listed, "One", 1, 0));
    assert!(cell_can_apply(&listed, "One", 1, usize::MAX - 1));
    assert!(!cell_can_apply(&listed, "One", 1, usize::MAX));
    assert!(cell_can_apply(&listed, "One", 0, usize::MAX));
    assert!(cell_can_apply(&listed, "Missing", 1, usize::MAX));
}

#[test]
fn update_that_extends_nothing_may_name_any_column() {
    let listed = vec![listed_sheet("One", one_cell("a"))];
    let same = vec![listed_sheet("One", one_cell("a"))];
    let untouched = write_excel_file(read_excel_file(same));
    let layouts = update_excel_cells(listed, "One", vec![update(0, usize::MAX, "x")]);
    assert_eq!(layouts, untouched);
    let listed = vec![listed_sheet("One", one_cell("a"))];
    let layouts = update_excel_cells(listed, "Missing", vec![update(5, usize::MAX, "x")]);
    assert_eq!(layouts, untouched);
    let listed = vec![listed_sheet("One", one_cell("a"))];
    let layouts = update_excel_cell(listed, "One", 0, usize::MAX, text("x"));
    assert_eq!(layouts, untouched);
}
