//! An in-memory model of spreadsheet workbooks: typed cells, sheets with a
//! header row, batches of cell edits, and the layout in which a workbook is
//! written out again.

pub mod edit;
pub mod headers;
pub mod layout;
pub mod notes;
pub mod reader;
pub mod sheet;
pub mod text;
pub mod value;
pub mod workbook;

pub use edit::CellUpdate;
pub use layout::{write_excel_file, CellContent, CellWrite, SheetLayout};
pub use reader::{read_excel_file, ParsedSheet};
pub use sheet::ExcelData;
pub use value::{DataValue, RawCell};
pub use workbook::{update_excel_cell, update_excel_cells};
