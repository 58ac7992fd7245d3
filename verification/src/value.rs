//! Cell values: what a parsed workbook hands out, what a sheet holds, and
//! what an edit string becomes.

use vstd::prelude::*;
use vstd::std_specs::cmp::PartialEqSpecImpl;
use vstd::std_specs::convert::{FromSpec, FromSpecImpl};
use crate::text::{lowercase_of, text_eq};

verus! {

/// One cell of a sheet.
///
/// A number is held as the bit pattern of its IEEE-754 double: this
/// library carries such numbers and compares them, and never computes
/// with them.
#[derive(Debug)]
pub enum DataValue {
    Text(String),
    Number(u64),
    Integer(i64),
    Boolean(bool),
    Empty,
}

/// What a `DataValue` stands for.
pub enum CellModel {
    Text(Seq<char>),
    Number(u64),
    Integer(i64),
    Boolean(bool),
    Empty,
}

impl View for DataValue {
    type V = CellModel;

    open spec fn view(&self) -> CellModel {
        match self {
            DataValue::Text(text) => CellModel::Text(text@),
            DataValue::Number(bits) => CellModel::Number(*bits),
            DataValue::Integer(i) => CellModel::Integer(*i),
            DataValue::Boolean(b) => CellModel::Boolean(*b),
            DataValue::Empty => CellModel::Empty,
        }
    }
}

impl Clone for DataValue {
    fn clone(&self) -> (r: Self)
        ensures
            r@ == self@,
    {
        match self {
            DataValue::Text(text) => DataValue::Text(text.clone()),
            DataValue::Number(bits) => DataValue::Number(*bits),
            DataValue::Integer(i) => DataValue::Integer(*i),
            DataValue::Boolean(b) => DataValue::Boolean(*b),
            DataValue::Empty => DataValue::Empty,
        }
    }
}

impl PartialEq for DataValue {
    fn eq(&self, other: &Self) -> (r: bool) {
        match self {
            DataValue::Text(a) => match other {
                DataValue::Text(b) => *a == *b,
                _ => false,
            },
            DataValue::Number(a) => match other {
                DataValue::Number(b) => *a == *b,
                _ => false,
            },
            DataValue::Integer(a) => match other {
                DataValue::Integer(b) => *a == *b,
                _ => false,
            },
            DataValue::Boolean(a) => match other {
                DataValue::Boolean(b) => *a == *b,
                _ => false,
            },
            DataValue::Empty => match other {
                DataValue::Empty => true,
                _ => false,
            },
        }
    }
}

impl PartialEqSpecImpl for DataValue {
    open spec fn obeys_eq_spec() -> bool {
        true
    }

    open spec fn eq_spec(&self, other: &Self) -> bool {
        self@ == other@
    }
}

/// One cell as the workbook parser hands it out, variant for variant.
///
/// A floating-point cell comes with the bit pattern of its double and with
/// the decimal text that the double prints as; header labels are made from
/// the text.
#[derive(Debug)]
pub enum RawCell {
    Int(i64),
    Float { bits: u64, text: String },
    String(String),
    Bool(bool),
    DateTime { bits: u64, text: String },
    DateTimeIso(String),
    DurationIso(String),
    Error,
    Empty,
}

/// What a `RawCell` stands for.
pub enum RawModel {
    Int(i64),
    Float { bits: u64, text: Seq<char> },
    String(Seq<char>),
    Bool(bool),
    DateTime { bits: u64, text: Seq<char> },
    DateTimeIso(Seq<char>),
    DurationIso(Seq<char>),
    Error,
    Empty,
}

impl View for RawCell {
    type V = RawModel;

    open spec fn view(&self) -> RawModel {
        match self {
            RawCell::Int(i) => RawModel::Int(*i),
            RawCell::Float { bits, text } => RawModel::Float { bits: *bits, text: text@ },
            RawCell::String(text) => RawModel::String(text@),
            RawCell::Bool(b) => RawModel::Bool(*b),
            RawCell::DateTime { bits, text } => RawModel::DateTime { bits: *bits, text: text@ },
            RawCell::DateTimeIso(text) => RawModel::DateTimeIso(text@),
            RawCell::DurationIso(text) => RawModel::DurationIso(text@),
            RawCell::Error => RawModel::Error,
            RawCell::Empty => RawModel::Empty,
        }
    }
}

/// The parsed cells that `row` holds.
pub open spec fn raw_row_model(row: Seq<RawCell>) -> Seq<RawModel> {
    Seq::new(row.len(), |i: int| row[i]@)
}

/// The rows of parsed cells that `rows` holds.
pub open spec fn raw_rows_model(rows: Seq<Vec<RawCell>>) -> Seq<Seq<RawModel>> {
    Seq::new(rows.len(), |i: int| raw_row_model(rows[i]@))
}

/// The cell value that a parsed cell becomes.
///
/// Strings stay text and numbers stay numbers. A serial date is the number
/// it is stored as; a date or a duration in ISO form is its text. An error
/// cell is empty.
pub open spec fn cell_of_raw(raw: RawModel) -> CellModel {
    match raw {
        RawModel::Int(i) => CellModel::Integer(i),
        RawModel::Float { bits, text } => CellModel::Number(bits),
        RawModel::String(text) => CellModel::Text(text),
        RawModel::Bool(b) => CellModel::Boolean(b),
        RawModel::DateTime { bits, text } => CellModel::Number(bits),
        RawModel::DateTimeIso(text) => CellModel::Text(text),
        RawModel::DurationIso(text) => CellModel::Text(text),
        RawModel::Error => CellModel::Empty,
        RawModel::Empty => CellModel::Empty,
    }
}

impl From<RawCell> for DataValue {
    fn from(raw: RawCell) -> (r: Self) {
        match raw {
            RawCell::Int(i) => DataValue::Integer(i),
            RawCell::Float { bits, text } => DataValue::Number(bits),
            RawCell::String(text) => DataValue::Text(text),
            RawCell::Bool(b) => DataValue::Boolean(b),
            RawCell::DateTime { bits, text } => DataValue::Number(bits),
            RawCell::DateTimeIso(text) => DataValue::Text(text),
            RawCell::DurationIso(text) => DataValue::Text(text),
            RawCell::Error => DataValue::Empty,
            RawCell::Empty => DataValue::Empty,
        }
    }
}

impl FromSpecImpl<RawCell> for DataValue {
    open spec fn obeys_from_spec() -> bool {
        true
    }

    open spec fn from_spec(raw: RawCell) -> Self {
        match raw {
            RawCell::Int(i) => DataValue::Integer(i),
            RawCell::Float { bits, text } => DataValue::Number(bits),
            RawCell::String(text) => DataValue::Text(text),
            RawCell::Bool(b) => DataValue::Boolean(b),
            RawCell::DateTime { bits, text } => DataValue::Number(bits),
            RawCell::DateTimeIso(text) => DataValue::Text(text),
            RawCell::DurationIso(text) => DataValue::Text(text),
            RawCell::Error => DataValue::Empty,
            RawCell::Empty => DataValue::Empty,
        }
    }
}

/// `DataValue::from` yields the value that `cell_of_raw` gives.
pub proof fn from_raw_is_cell_of_raw(raw: RawCell)
    ensures
        <DataValue as FromSpec<RawCell>>::from_spec(raw)@ == cell_of_raw(raw@),
{
}

/// The value that an edit string becomes, given its lowercase form and
/// what reading it as a double gave (the bits of the double, or nothing).
///
/// A string that reads as a number is that number, whatever else it looks
/// like; then come `true` and `false` in any case, the empty string, and
/// last the string itself as text. No string becomes an integer.
pub open spec fn coerced(value: Seq<char>, lowered: Seq<char>, number: Option<u64>) -> CellModel {
    match number {
        Some(bits) => CellModel::Number(bits),
        None => if lowered == "true"@ {
            CellModel::Boolean(true)
        } else if lowered == "false"@ {
            CellModel::Boolean(false)
        } else if value.len() == 0 {
            CellModel::Empty
        } else {
            CellModel::Text(value)
        },
    }
}

/// The value that the edit string `value` becomes, where `lowered` is its
/// lowercase form and `number` what reading it as a double gave.
pub fn coerce_lowered(value: &str, lowered: &str, number: Option<u64>) -> (r: DataValue)
    ensures
        r@ == coerced(value@, lowered@, number),
{
    match number {
        Some(bits) => DataValue::Number(bits),
        None => {
            if text_eq(lowered, "true") {
                DataValue::Boolean(true)
            } else if text_eq(lowered, "false") {
                DataValue::Boolean(false)
            } else if value.is_empty() {
                DataValue::Empty
            } else {
                DataValue::Text(value.to_owned())
            }
        },
    }
}

/// The value that the edit string `value` becomes, where `number` is what
/// reading it as a double gave: the bits of the double, or nothing.
///
/// Coercion never fails: every string has exactly one value.
pub fn coerce_edit(value: &str, number: Option<u64>) -> (r: DataValue)
    ensures
        r@ == coerced(value@, lowercase_of(value@), number),
{
    match number {
        Some(bits) => DataValue::Number(bits),
        None => {
            let lowered = value.to_lowercase();
            coerce_lowered(value, lowered.as_str(), None)
        },
    }
}

} // verus!
