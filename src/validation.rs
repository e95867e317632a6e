//! Turning the editors' text into validated quantities, with field-attributed errors.

use vstd::prelude::*;
use crate::decimal::{decimal_value, format_quantity, parse_decimal, quantity_text};

verus! {

broadcast use vstd::string::group_string_axioms;

/// Bounds of a sheet dimension, in micrometres (0.1 mm to 10000 mm).
pub const MIN_SHEET_DIMENSION_UM: i64 = 100;
pub const MAX_SHEET_DIMENSION_UM: i64 = 10_000_000;
/// Bounds of a bend's inner radius, in micrometres (0 mm, a sharp bend, to 500 mm).
pub const MIN_BEND_RADIUS_UM: i64 = 0;
pub const MAX_BEND_RADIUS_UM: i64 = 500_000;
/// Bounds of a bend's target angle, in thousandths of a degree (1 to 179 degrees).
pub const MIN_BEND_ANGLE_MDEG: i64 = 1_000;
pub const MAX_BEND_ANGLE_MDEG: i64 = 179_000;

/// The edited field that an error is about.
#[derive(Debug, Clone, Copy, PartialEq, Eq, Structural)]
pub enum Field {
    Length,
    Thickness,
    Width,
    Position,
    Angle,
    Radius,
}

pub open spec fn field_label(f: Field) -> Seq<char> {
    match f {
        Field::Length => "Length"@,
        Field::Thickness => "Thickness"@,
        Field::Width => "Width"@,
        Field::Position => "Bend position"@,
        Field::Angle => "Bend angle"@,
        Field::Radius => "Bend radius"@,
    }
}

impl Field {
    pub fn label(&self) -> (r: &'static str)
        ensures
            r@ == field_label(*self),
    {
        match self {
            Field::Length => "Length",
            Field::Thickness => "Thickness",
            Field::Width => "Width",
            Field::Position => "Bend position",
            Field::Angle => "Bend angle",
            Field::Radius => "Bend radius",
        }
    }
}

/// A refused edit. Values and bounds are in thousandths (of a millimetre or a degree).
#[derive(Debug, Clone)]
pub enum ValidationError {
    InvalidNumber { field: Field, raw_text: String },
    OutOfRange { field: Field, value: i64, min: i64, max: i64 },
}

pub open spec fn validation_message(e: ValidationError) -> Seq<char> {
    match e {
        ValidationError::InvalidNumber { field, raw_text } => "Invalid "@ + field_label(field) + ": '"@
            + raw_text@ + "' is not a valid number."@,
        ValidationError::OutOfRange { field, value, min, max } => field_label(field) + " "@
            + quantity_text(value as int) + " is out of range ("@ + quantity_text(min as int) + "-"@
            + quantity_text(max as int) + ")."@,
    }
}

impl ValidationError {
    /// A message that names the field and says what was wrong with it.
    pub fn message(&self) -> (r: String)
        ensures
            r@ == validation_message(*self),
    {
        match self {
            ValidationError::InvalidNumber { field, raw_text } => {
                let mut s = String::from_str("Invalid ");
                s.append(field.label());
                s.append(": '");
                s.append(raw_text.as_str());
                s.append("' is not a valid number.");
                s
            },
            ValidationError::OutOfRange { field, value, min, max } => {
                let mut s = String::from_str(field.label());
                s.append(" ");
                s.append(format_quantity(*value).as_str());
                s.append(" is out of range (");
                s.append(format_quantity(*min).as_str());
                s.append("-");
                s.append(format_quantity(*max).as_str());
                s.append(").");
                s
            },
        }
    }
}

pub open spec fn within(v: int, min: int, max: int, exclusive: bool) -> bool {
    if exclusive {
        min < v < max
    } else {
        min <= v <= max
    }
}

/// The text of a field parses to a value within the bounds.
pub open spec fn field_accepts(raw: Seq<char>, min: int, max: int, exclusive: bool) -> bool {
    match decimal_value(raw) {
        Some(v) => within(v, min, max, exclusive),
        None => false,
    }
}

/// `e` is the error for a field whose text is refused: the text itself where it
/// is no number, else the value with the bounds it broke.
pub open spec fn field_error(e: ValidationError, field: Field, raw: Seq<char>, min: int, max: int) -> bool {
    match decimal_value(raw) {
        None => e matches ValidationError::InvalidNumber { field: f, raw_text } && f == field
            && raw_text@ == raw,
        Some(v) => e matches ValidationError::OutOfRange { field: f, value, min: lo, max: hi }
            && f == field && value == v && lo == min && hi == max,
    }
}

/// Parses the text of one field and checks it against its bounds (exclusive
/// at both ends, or inclusive at both).
pub fn check_field(field: Field, raw: &String, min: i64, max: i64, exclusive: bool) -> (r: Result<
    i64,
    ValidationError,
>)
    ensures
        r is Ok <==> field_accepts(raw@, min as int, max as int, exclusive),
        r matches Ok(v) ==> v as int == decimal_value(raw@).unwrap(),
        r matches Err(e) ==> field_error(e, field, raw@, min as int, max as int),
{
    match parse_decimal(raw.as_str()) {
        None => Err(ValidationError::InvalidNumber { field, raw_text: raw.clone() }),
        Some(v) => {
            let ok = if exclusive {
                min < v && v < max
            } else {
                min <= v && v <= max
            };
            if ok {
                Ok(v)
            } else {
                Err(ValidationError::OutOfRange { field, value: v, min, max })
            }
        },
    }
}

} // verus!
