//! The ways in which decoding one row can fail.

use vstd::prelude::*;
use vstd::string::StringExecFns;
use crate::text::debug_list;
use crate::text::debug_list_text;
use crate::text::decimal_string;
use crate::text::decimal_text;
use crate::text::strings_view;

verus! {

/// Why a row, or one value of it, could not be decoded.
#[derive(Debug, Clone, PartialEq, Eq)]
pub enum DecodeError {
    /// The backend could not convert a raw value to the representation that
    /// the chosen branch asks for.
    Decode { target: String, cause: String },
    /// As `Decode`, for a JSON column that was to stand in for a record.
    JsonColumn { target: String, cause: String },
    /// A decimal has no floating-point value of the wider width.
    LossyDecimal,
    /// A JSON object lacks a field of a record with several fields.
    MissingKeys { expected: Vec<String>, found: Vec<String> },
    /// An array element is null where the element type takes no null.
    NullElement,
    /// A column index at or beyond the number of columns.
    ColumnIndex { index: usize, len: usize },
}

/// `DecodeError`, with its texts as sequences of characters.
pub enum DecodeErrorView {
    Decode { target: Seq<char>, cause: Seq<char> },
    JsonColumn { target: Seq<char>, cause: Seq<char> },
    LossyDecimal,
    MissingKeys { expected: Seq<Seq<char>>, found: Seq<Seq<char>> },
    NullElement,
    ColumnIndex { index: usize, len: usize },
}

impl View for DecodeError {
    type V = DecodeErrorView;

    open spec fn view(&self) -> DecodeErrorView {
        match *self {
            DecodeError::Decode { target, cause } => DecodeErrorView::Decode {
                target: target@,
                cause: cause@,
            },
            DecodeError::JsonColumn { target, cause } => DecodeErrorView::JsonColumn {
                target: target@,
                cause: cause@,
            },
            DecodeError::LossyDecimal => DecodeErrorView::LossyDecimal,
            DecodeError::MissingKeys { expected, found } => DecodeErrorView::MissingKeys {
                expected: strings_view(expected@),
                found: strings_view(found@),
            },
            DecodeError::NullElement => DecodeErrorView::NullElement,
            DecodeError::ColumnIndex { index, len } => DecodeErrorView::ColumnIndex { index, len },
        }
    }
}

impl DecodeErrorView {
    /// The text that a failed decode reports: the representation asked for,
    /// then the backend's cause.
    pub open spec fn decode_message(target: Seq<char>, cause: Seq<char>) -> Seq<char> {
        "Failed to decode "@ + target + " value: "@ + cause
    }

    /// The text that a missing field is reported with: the fields expected
    /// and the keys found, each list as text.
    pub open spec fn missing_message(expected: Seq<char>, found: Seq<char>) -> Seq<char> {
        "JSON object missing expected keys: expected "@ + expected + ", found keys "@ + found
    }

    /// The message that the error is reported with.
    pub open spec fn message(self) -> Seq<char> {
        match self {
            DecodeErrorView::Decode { target, cause } => Self::decode_message(target, cause),
            DecodeErrorView::JsonColumn { target, cause } => "Failed to decode JSON/JSONB: "@
                + Self::decode_message(target, cause),
            DecodeErrorView::LossyDecimal => "Failed to parse Decimal as f64"@,
            DecodeErrorView::MissingKeys { expected, found } => Self::missing_message(
                debug_list_text(expected),
                debug_list_text(found),
            ),
            DecodeErrorView::NullElement => "unexpected null in non-optional array element"@,
            DecodeErrorView::ColumnIndex { index, len } =>
                "column index out of bounds: the len is "@ + decimal_text(len as nat)
                + ", but the index is "@ + decimal_text(index as nat),
        }
    }
}

fn decode_message(target: &String, cause: &String) -> (text: String)
    ensures
        text@ == DecodeErrorView::decode_message(target@, cause@),
{
    let mut text = String::from_str("Failed to decode ");
    text.append(target.as_str());
    text.append(" value: ");
    text.append(cause.as_str());
    text
}

/// The text that a missing field is reported with, from the two lists as
/// text.
pub fn missing_keys_message(expected: &str, found: &str) -> (text: String)
    ensures
        text@ == DecodeErrorView::missing_message(expected@, found@),
{
    let mut text = String::from_str("JSON object missing expected keys: expected ");
    text.append(expected);
    text.append(", found keys ");
    text.append(found);
    text
}

impl DecodeError {
    /// The message that the error is reported with.
    pub fn message(&self) -> (text: String)
        ensures
            text@ == self@.message(),
    {
        match self {
            DecodeError::Decode { target, cause } => decode_message(target, cause),
            DecodeError::JsonColumn { target, cause } => {
                let mut text = String::from_str("Failed to decode JSON/JSONB: ");
                let inner = decode_message(target, cause);
                text.append(inner.as_str());
                text
            },
            DecodeError::LossyDecimal => String::from_str("Failed to parse Decimal as f64"),
            DecodeError::MissingKeys { expected, found } => {
                let wanted = debug_list(expected);
                let present = debug_list(found);
                missing_keys_message(wanted.as_str(), present.as_str())
            },
            DecodeError::NullElement => String::from_str(
                "unexpected null in non-optional array element",
            ),
            DecodeError::ColumnIndex { index, len } => {
                let mut text = String::from_str("column index out of bounds: the len is ");
                let count = decimal_string(*len);
                text.append(count.as_str());
                text.append(", but the index is ");
                let place = decimal_string(*index);
                text.append(place.as_str());
                text
            },
        }
    }
}

} // verus!
