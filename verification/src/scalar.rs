//! One decoded column value, and what the consumer is handed for it.

use vstd::prelude::*;
use vstd::string::StringExecFns;
use crate::error::DecodeError;
use crate::error::DecodeErrorView;
use crate::temporal::date_string;
use crate::temporal::date_text;
use crate::temporal::datetime_string;
use crate::temporal::datetime_text;
use crate::temporal::time_string;
use crate::temporal::time_text;
use crate::temporal::timestamp_string;
use crate::temporal::timestamp_text;
use crate::temporal::duration_text;
use crate::temporal::uuid_string;
use crate::temporal::uuid_text;
use crate::temporal::Date;
use crate::temporal::DateTime;
use crate::temporal::Interval;
use crate::temporal::Time;
use crate::temporal::Timestamp;

verus! {

/// The representation that a column is decoded to, and with it the way the
/// decoded value is handed on.
#[derive(Debug, Clone, Copy, PartialEq, Eq, Structural)]
pub enum ScalarKind {
    /// Text, handed on as the tag of an enum.
    Enum,
    Bool,
    I8,
    U8,
    I16,
    U16,
    I32,
    U32,
    I64,
    U64,
    /// A float of the narrow width.
    F32,
    /// A float of the wide width.
    F64,
    /// A decimal of arbitrary precision, handed on as a wide float.
    Decimal,
    Text,
    Bytes,
    Date,
    Time,
    /// Date and time without a zone, handed on with six fractional digits.
    DateTime,
    /// Date and time in a zone, handed on as RFC 3339.
    Timestamp,
    Uuid,
    Interval,
    Json,
}

/// What the backend made of one raw value. Floats travel as their bits.
#[derive(Debug, PartialEq, Eq)]
pub enum Decoded {
    Bool(bool),
    I8(i8),
    U8(u8),
    I16(i16),
    U16(u16),
    I32(i32),
    U32(u32),
    I64(i64),
    U64(u64),
    F32(u32),
    F64(u64),
    /// The bits of the wide float that equals the decimal, if there is one.
    Decimal(Option<u64>),
    Text(String),
    Bytes(Vec<u8>),
    Date(Date),
    Time(Time),
    DateTime(DateTime),
    Timestamp(Timestamp),
    Uuid(u128),
    Interval(Interval),
    Json(serde_json::Value),
}

/// `Decoded`, with texts and bytes as sequences.
pub enum DecodedView {
    Bool(bool),
    I8(i8),
    U8(u8),
    I16(i16),
    U16(u16),
    I32(i32),
    U32(u32),
    I64(i64),
    U64(u64),
    F32(u32),
    F64(u64),
    Decimal(Option<u64>),
    Text(Seq<char>),
    Bytes(Seq<u8>),
    Date(Date),
    Time(Time),
    DateTime(DateTime),
    Timestamp(Timestamp),
    Uuid(u128),
    Interval(Interval),
    Json(serde_json::Value),
}

impl View for Decoded {
    type V = DecodedView;

    open spec fn view(&self) -> DecodedView {
        match *self {
            Decoded::Bool(v) => DecodedView::Bool(v),
            Decoded::I8(v) => DecodedView::I8(v),
            Decoded::U8(v) => DecodedView::U8(v),
            Decoded::I16(v) => DecodedView::I16(v),
            Decoded::U16(v) => DecodedView::U16(v),
            Decoded::I32(v) => DecodedView::I32(v),
            Decoded::U32(v) => DecodedView::U32(v),
            Decoded::I64(v) => DecodedView::I64(v),
            Decoded::U64(v) => DecodedView::U64(v),
            Decoded::F32(bits) => DecodedView::F32(bits),
            Decoded::F64(bits) => DecodedView::F64(bits),
            Decoded::Decimal(bits) => DecodedView::Decimal(bits),
            Decoded::Text(text) => DecodedView::Text(text@),
            Decoded::Bytes(bytes) => DecodedView::Bytes(bytes@),
            Decoded::Date(v) => DecodedView::Date(v),
            Decoded::Time(v) => DecodedView::Time(v),
            Decoded::DateTime(v) => DecodedView::DateTime(v),
            Decoded::Timestamp(v) => DecodedView::Timestamp(v),
            Decoded::Uuid(v) => DecodedView::Uuid(v),
            Decoded::Interval(v) => DecodedView::Interval(v),
            Decoded::Json(doc) => DecodedView::Json(doc),
        }
    }
}

/// What the consumer is handed for one value. Floats travel as their bits.
#[derive(Debug, PartialEq, Eq)]
pub enum Visit {
    /// The explicit signal that there is no value.
    Null,
    Bool(bool),
    I8(i8),
    U8(u8),
    I16(i16),
    U16(u16),
    I32(i32),
    U32(u32),
    I64(i64),
    U64(u64),
    F32(u32),
    F64(u64),
    Text(String),
    Bytes(Vec<u8>),
    /// Text to be read as the tag of an enum.
    Enum(String),
    /// A parsed document, to be walked by the consumer in its turn.
    Json(serde_json::Value),
}

/// `Visit`, with texts and bytes as sequences.
pub enum VisitView {
    Null,
    Bool(bool),
    I8(i8),
    U8(u8),
    I16(i16),
    U16(u16),
    I32(i32),
    U32(u32),
    I64(i64),
    U64(u64),
    F32(u32),
    F64(u64),
    Text(Seq<char>),
    Bytes(Seq<u8>),
    Enum(Seq<char>),
    Json(serde_json::Value),
}

impl View for Visit {
    type V = VisitView;

    open spec fn view(&self) -> VisitView {
        match *self {
            Visit::Null => VisitView::Null,
            Visit::Bool(v) => VisitView::Bool(v),
            Visit::I8(v) => VisitView::I8(v),
            Visit::U8(v) => VisitView::U8(v),
            Visit::I16(v) => VisitView::I16(v),
            Visit::U16(v) => VisitView::U16(v),
            Visit::I32(v) => VisitView::I32(v),
            Visit::U32(v) => VisitView::U32(v),
            Visit::I64(v) => VisitView::I64(v),
            Visit::U64(v) => VisitView::U64(v),
            Visit::F32(bits) => VisitView::F32(bits),
            Visit::F64(bits) => VisitView::F64(bits),
            Visit::Text(text) => VisitView::Text(text@),
            Visit::Bytes(bytes) => VisitView::Bytes(bytes@),
            Visit::Enum(tag) => VisitView::Enum(tag@),
            Visit::Json(doc) => VisitView::Json(doc),
        }
    }
}

/// What a backend reports of one decode: the value, or the cause of failure.
pub open spec fn outcome_view(outcome: Result<Decoded, String>) -> Result<DecodedView, Seq<char>> {
    match outcome {
        Ok(decoded) => Ok(decoded@),
        Err(cause) => Err(cause@),
    }
}

/// The view of what a value dispatch returns.
pub open spec fn visit_view(result: Result<Visit, DecodeError>) -> Result<
    VisitView,
    DecodeErrorView,
> {
    match result {
        Ok(visit) => Ok(visit@),
        Err(error) => Err(error@),
    }
}

/// The format that a date and time without a zone is written in: ISO 8601
/// with six fractional digits.
pub open spec fn datetime_format() -> Seq<char> {
    "%Y-%m-%dT%H:%M:%S%.6f"@
}

/// The cause reported where a decoded value has no text.
pub open spec fn no_text_cause() -> Seq<char> {
    "value out of range"@
}

/// The cause reported where the backend hands a value of another
/// representation than the one asked for.
pub open spec fn mismatch_cause() -> Seq<char> {
    "value of another representation"@
}

impl ScalarKind {
    /// The name of the representation that the backend is asked for.
    pub open spec fn target(self) -> Seq<char> {
        match self {
            ScalarKind::Enum => "alloc::string::String"@,
            ScalarKind::Bool => "bool"@,
            ScalarKind::I8 => "i8"@,
            ScalarKind::U8 => "u8"@,
            ScalarKind::I16 => "i16"@,
            ScalarKind::U16 => "u16"@,
            ScalarKind::I32 => "i32"@,
            ScalarKind::U32 => "u32"@,
            ScalarKind::I64 => "i64"@,
            ScalarKind::U64 => "u64"@,
            ScalarKind::F32 => "f32"@,
            ScalarKind::F64 => "f64"@,
            ScalarKind::Decimal => "rust_decimal::decimal::Decimal"@,
            ScalarKind::Text => "alloc::string::String"@,
            ScalarKind::Bytes => "&[u8]"@,
            ScalarKind::Date => "chrono::naive::date::NaiveDate"@,
            ScalarKind::Time => "chrono::naive::time::NaiveTime"@,
            ScalarKind::DateTime => "chrono::naive::datetime::NaiveDateTime"@,
            ScalarKind::Timestamp =>
                "chrono::datetime::DateTime<chrono::offset::fixed::FixedOffset>"@,
            ScalarKind::Uuid => "uuid::Uuid"@,
            ScalarKind::Interval => "sqlx_postgres::types::interval::PgInterval"@,
            ScalarKind::Json => "serde_json::value::Value"@,
        }
    }

    /// Whether a decoded value has the representation that the kind asks for.
    pub open spec fn accepts(self, decoded: DecodedView) -> bool {
        match self {
            ScalarKind::Enum => decoded is Text,
            ScalarKind::Bool => decoded is Bool,
            ScalarKind::I8 => decoded is I8,
            ScalarKind::U8 => decoded is U8,
            ScalarKind::I16 => decoded is I16,
            ScalarKind::U16 => decoded is U16,
            ScalarKind::I32 => decoded is I32,
            ScalarKind::U32 => decoded is U32,
            ScalarKind::I64 => decoded is I64,
            ScalarKind::U64 => decoded is U64,
            ScalarKind::F32 => decoded is F32,
            ScalarKind::F64 => decoded is F64,
            ScalarKind::Decimal => decoded is Decimal,
            ScalarKind::Text => decoded is Text,
            ScalarKind::Bytes => decoded is Bytes,
            ScalarKind::Date => decoded is Date,
            ScalarKind::Time => decoded is Time,
            ScalarKind::DateTime => decoded is DateTime,
            ScalarKind::Timestamp => decoded is Timestamp,
            ScalarKind::Uuid => decoded is Uuid,
            ScalarKind::Interval => decoded is Interval,
            ScalarKind::Json => decoded is Json,
        }
    }

    /// The failure of a decode for this kind, with its cause.
    pub open spec fn failure(self, cause: Seq<char>) -> DecodeErrorView {
        DecodeErrorView::Decode { target: self.target(), cause }
    }

    /// What is handed on for a text that may be absent.
    pub open spec fn visit_text(self, text: Option<Seq<char>>) -> Result<
        VisitView,
        DecodeErrorView,
    > {
        match text {
            Some(text) => Ok(VisitView::Text(text)),
            None => Err(self.failure(no_text_cause())),
        }
    }

    /// What is handed on for a decoded value: the value itself, unchanged,
    /// in the kind's own representation; for dates, times, intervals and
    /// identifiers their text; for a decimal the float that equals it.
    pub open spec fn visit_of(self, decoded: DecodedView) -> Result<VisitView, DecodeErrorView> {
        match (self, decoded) {
            (ScalarKind::Enum, DecodedView::Text(tag)) => Ok(VisitView::Enum(tag)),
            (ScalarKind::Bool, DecodedView::Bool(v)) => Ok(VisitView::Bool(v)),
            (ScalarKind::I8, DecodedView::I8(v)) => Ok(VisitView::I8(v)),
            (ScalarKind::U8, DecodedView::U8(v)) => Ok(VisitView::U8(v)),
            (ScalarKind::I16, DecodedView::I16(v)) => Ok(VisitView::I16(v)),
            (ScalarKind::U16, DecodedView::U16(v)) => Ok(VisitView::U16(v)),
            (ScalarKind::I32, DecodedView::I32(v)) => Ok(VisitView::I32(v)),
            (ScalarKind::U32, DecodedView::U32(v)) => Ok(VisitView::U32(v)),
            (ScalarKind::I64, DecodedView::I64(v)) => Ok(VisitView::I64(v)),
            (ScalarKind::U64, DecodedView::U64(v)) => Ok(VisitView::U64(v)),
            (ScalarKind::F32, DecodedView::F32(bits)) => Ok(VisitView::F32(bits)),
            (ScalarKind::F64, DecodedView::F64(bits)) => Ok(VisitView::F64(bits)),
            (ScalarKind::Decimal, DecodedView::Decimal(Some(bits))) => Ok(VisitView::F64(bits)),
            (ScalarKind::Decimal, DecodedView::Decimal(None)) => Err(
                DecodeErrorView::LossyDecimal,
            ),
            (ScalarKind::Text, DecodedView::Text(text)) => Ok(VisitView::Text(text)),
            (ScalarKind::Bytes, DecodedView::Bytes(bytes)) => Ok(VisitView::Bytes(bytes)),
            (ScalarKind::Date, DecodedView::Date(d)) => self.visit_text(
                date_text(d.year as int, d.month as int, d.day as int),
            ),
            (ScalarKind::Time, DecodedView::Time(t)) => self.visit_text(
                time_text(t.secs as int, t.nanos as int),
            ),
            (ScalarKind::DateTime, DecodedView::DateTime(dt)) => self.visit_text(
                datetime_text(
                    datetime_format(),
                    dt.date.year as int,
                    dt.date.month as int,
                    dt.date.day as int,
                    dt.time.secs as int,
                    dt.time.nanos as int,
                ),
            ),
            (ScalarKind::Timestamp, DecodedView::Timestamp(ts)) => self.visit_text(
                timestamp_text(
                    ts.utc.date.year as int,
                    ts.utc.date.month as int,
                    ts.utc.date.day as int,
                    ts.utc.time.secs as int,
                    ts.utc.time.nanos as int,
                    ts.offset as int,
                ),
            ),
            (ScalarKind::Uuid, DecodedView::Uuid(value)) => self.visit_text(
                Some(uuid_text(value)),
            ),
            (ScalarKind::Interval, DecodedView::Interval(span)) => self.visit_text(
                duration_text(span.whole_secs(), span.sub_nanos()),
            ),
            (ScalarKind::Json, DecodedView::Json(doc)) => Ok(VisitView::Json(doc)),
            _ => Err(self.failure(mismatch_cause())),
        }
    }

    /// What is handed on for the outcome of a decode: for a value, what
    /// `visit_of` says; for a failure, the error that carries the name of
    /// the representation and the backend's cause.
    pub open spec fn visit_outcome(self, outcome: Result<DecodedView, Seq<char>>) -> Result<
        VisitView,
        DecodeErrorView,
    > {
        match outcome {
            Ok(decoded) => self.visit_of(decoded),
            Err(cause) => Err(self.failure(cause)),
        }
    }

    /// The name of the representation that the backend is asked for.
    pub fn target_name(&self) -> (name: &'static str)
        ensures
            name@ == self.target(),
    {
        match self {
            ScalarKind::Enum => "alloc::string::String",
            ScalarKind::Bool => "bool",
            ScalarKind::I8 => "i8",
            ScalarKind::U8 => "u8",
            ScalarKind::I16 => "i16",
            ScalarKind::U16 => "u16",
            ScalarKind::I32 => "i32",
            ScalarKind::U32 => "u32",
            ScalarKind::I64 => "i64",
            ScalarKind::U64 => "u64",
            ScalarKind::F32 => "f32",
            ScalarKind::F64 => "f64",
            ScalarKind::Decimal => "rust_decimal::decimal::Decimal",
            ScalarKind::Text => "alloc::string::String",
            ScalarKind::Bytes => "&[u8]",
            ScalarKind::Date => "chrono::naive::date::NaiveDate",
            ScalarKind::Time => "chrono::naive::time::NaiveTime",
            ScalarKind::DateTime => "chrono::naive::datetime::NaiveDateTime",
            ScalarKind::Timestamp => "chrono::datetime::DateTime<chrono::offset::fixed::FixedOffset>",
            ScalarKind::Uuid => "uuid::Uuid",
            ScalarKind::Interval => "sqlx_postgres::types::interval::PgInterval",
            ScalarKind::Json => "serde_json::value::Value",
        }
    }

    /// The failure of a decode for this kind, with its cause.
    pub fn decode_failure(&self, cause: String) -> (error: DecodeError)
        ensures
            error@ == self.failure(cause@),
    {
        DecodeError::Decode { target: String::from_str(self.target_name()), cause }
    }

    /// What is handed on for a text that may be absent: the text, or the
    /// failure of the decode where there is none.
    pub fn text_visit(&self, text: Option<String>) -> (result: Result<Visit, DecodeError>)
        ensures
            visit_view(result) == self.visit_text(crate::temporal::text_view(text)),
    {
        match text {
            Some(text) => Ok(Visit::Text(text)),
            None => Err(self.decode_failure(String::from_str("value out of range"))),
        }
    }

    /// What is handed on for a decoded value. An interval always has its
    /// text.
    pub fn visit_decoded(&self, decoded: Decoded) -> (result: Result<Visit, DecodeError>)
        ensures
            visit_view(result) == self.visit_of(decoded@),
            *self == ScalarKind::Interval && decoded@ is Interval ==> result is Ok,
    {
        match (self, decoded) {
            (ScalarKind::Enum, Decoded::Text(tag)) => Ok(Visit::Enum(tag)),
            (ScalarKind::Bool, Decoded::Bool(v)) => Ok(Visit::Bool(v)),
            (ScalarKind::I8, Decoded::I8(v)) => Ok(Visit::I8(v)),
            (ScalarKind::U8, Decoded::U8(v)) => Ok(Visit::U8(v)),
            (ScalarKind::I16, Decoded::I16(v)) => Ok(Visit::I16(v)),
            (ScalarKind::U16, Decoded::U16(v)) => Ok(Visit::U16(v)),
            (ScalarKind::I32, Decoded::I32(v)) => Ok(Visit::I32(v)),
            (ScalarKind::U32, Decoded::U32(v)) => Ok(Visit::U32(v)),
            (ScalarKind::I64, Decoded::I64(v)) => Ok(Visit::I64(v)),
            (ScalarKind::U64, Decoded::U64(v)) => Ok(Visit::U64(v)),
            (ScalarKind::F32, Decoded::F32(bits)) => Ok(Visit::F32(bits)),
            (ScalarKind::F64, Decoded::F64(bits)) => Ok(Visit::F64(bits)),
            (ScalarKind::Decimal, Decoded::Decimal(Some(bits))) => Ok(Visit::F64(bits)),
            (ScalarKind::Decimal, Decoded::Decimal(None)) => Err(DecodeError::LossyDecimal),
            (ScalarKind::Text, Decoded::Text(text)) => Ok(Visit::Text(text)),
            (ScalarKind::Bytes, Decoded::Bytes(bytes)) => Ok(Visit::Bytes(bytes)),
            (ScalarKind::Date, Decoded::Date(d)) => self.text_visit(
                date_string(d.year, d.month, d.day),
            ),
            (ScalarKind::Time, Decoded::Time(t)) => self.text_visit(time_string(t.secs, t.nanos)),
            (ScalarKind::DateTime, Decoded::DateTime(dt)) => self.text_visit(
                datetime_string("%Y-%m-%dT%H:%M:%S%.6f", dt.date, dt.time),
            ),
            (ScalarKind::Timestamp, Decoded::Timestamp(ts)) => self.text_visit(
                timestamp_string(ts.utc, ts.offset),
            ),
            (ScalarKind::Uuid, Decoded::Uuid(value)) => self.text_visit(Some(uuid_string(value))),
            (ScalarKind::Interval, Decoded::Interval(span)) => self.text_visit(span.to_text()),
            (ScalarKind::Json, Decoded::Json(doc)) => Ok(Visit::Json(doc)),
            _ => Err(self.decode_failure(String::from_str("value of another representation"))),
        }
    }
}

/// What is handed on for the outcome of decoding one raw value as `kind`: a
/// value goes on as `ScalarKind::visit_of` says, a failure becomes the
/// error that names the representation and carries the backend's cause.
pub fn decode_raw(kind: ScalarKind, outcome: Result<Decoded, String>) -> (result: Result<
    Visit,
    DecodeError,
>)
    ensures
        visit_view(result) == kind.visit_outcome(outcome_view(outcome)),
{
    match outcome {
        Ok(decoded) => kind.visit_decoded(decoded),
        Err(cause) => Err(kind.decode_failure(cause)),
    }
}

/// Whether the consumer is handed exactly the decoded value, in the same
/// representation.
pub open spec fn carries(visit: VisitView, decoded: DecodedView) -> bool {
    match (visit, decoded) {
        (VisitView::Bool(a), DecodedView::Bool(b)) => a == b,
        (VisitView::I8(a), DecodedView::I8(b)) => a == b,
        (VisitView::U8(a), DecodedView::U8(b)) => a == b,
        (VisitView::I16(a), DecodedView::I16(b)) => a == b,
        (VisitView::U16(a), DecodedView::U16(b)) => a == b,
        (VisitView::I32(a), DecodedView::I32(b)) => a == b,
        (VisitView::U32(a), DecodedView::U32(b)) => a == b,
        (VisitView::I64(a), DecodedView::I64(b)) => a == b,
        (VisitView::U64(a), DecodedView::U64(b)) => a == b,
        (VisitView::F32(a), DecodedView::F32(b)) => a == b,
        (VisitView::F64(a), DecodedView::F64(b)) => a == b,
        (VisitView::Text(a), DecodedView::Text(b)) => a == b,
        (VisitView::Bytes(a), DecodedView::Bytes(b)) => a == b,
        (VisitView::Json(a), DecodedView::Json(b)) => a == b,
        _ => false,
    }
}

impl ScalarKind {
    /// The kinds whose values are handed on as they were decoded: booleans,
    /// integers and floats of every width, text, bytes and documents.
    pub open spec fn plain(self) -> bool {
        match self {
            ScalarKind::Enum => false,
            ScalarKind::Decimal => false,
            ScalarKind::Date => false,
            ScalarKind::Time => false,
            ScalarKind::DateTime => false,
            ScalarKind::Timestamp => false,
            ScalarKind::Uuid => false,
            ScalarKind::Interval => false,
            _ => true,
        }
    }
}

/// A value of a plain kind goes through unchanged: what the consumer is
/// handed is exactly what the backend decoded, in the same representation.
pub proof fn plain_value_unchanged(kind: ScalarKind, decoded: DecodedView)
    requires
        kind.plain(),
        kind.accepts(decoded),
    ensures
        kind.visit_of(decoded) is Ok,
        carries(kind.visit_of(decoded)->Ok_0, decoded),
{
}

/// Text decoded under an enum hint goes through unchanged, as the tag; and
/// a decimal that has a float goes through as that float.
pub proof fn tag_and_decimal_unchanged(tag: Seq<char>, bits: u64)
    ensures
        ScalarKind::Enum.visit_of(DecodedView::Text(tag)) == Ok::<VisitView, DecodeErrorView>(
            VisitView::Enum(tag),
        ),
        ScalarKind::Decimal.visit_of(DecodedView::Decimal(Some(bits))) == Ok::<
            VisitView,
            DecodeErrorView,
        >(VisitView::F64(bits)),
        ScalarKind::Decimal.visit_of(DecodedView::Decimal(None)) == Err::<
            VisitView,
            DecodeErrorView,
        >(DecodeErrorView::LossyDecimal),
{
}

/// A value of another representation than the kind asks for is refused,
/// whatever it holds.
pub proof fn other_representation_is_refused(kind: ScalarKind, decoded: DecodedView)
    requires
        !kind.accepts(decoded),
    ensures
        kind.visit_of(decoded) == Err::<VisitView, DecodeErrorView>(
            kind.failure(mismatch_cause()),
        ),
{
}

/// A failed decode never yields a value: whatever the kind, the error names
/// the kind's representation and carries the backend's cause unchanged.
pub proof fn failure_carries_cause(kind: ScalarKind, cause: Seq<char>)
    ensures
        kind.visit_outcome(Err(cause)) == Err::<VisitView, DecodeErrorView>(
            DecodeErrorView::Decode { target: kind.target(), cause },
        ),
{
}

} // verus!
