//! The errors of the legend builder.

use vstd::prelude::*;

verus! {

/// What went wrong while a legend was built.
#[derive(Clone, Copy, Debug, PartialEq, Eq, Structural)]
pub enum ErrorKind {
    /// The sprite image could not be fetched.
    PngFetch,
    /// The body of the sprite image could not be read.
    PngRead,
    /// The sprite image could not be decoded or encoded.
    ImageLoad,
    /// The sprite index could not be fetched.
    JsonFetch,
    /// The sprite index is not valid JSON.
    JsonParse,
    /// Some other resource could not be fetched.
    Fetch,
    /// A JSON value has the wrong shape.
    InvalidJson,
    /// A style expression is malformed.
    InvalidExpression,
    /// The style document could not be read as a style.
    Deserialization,
}

/// An error of the legend builder; each variant carries its detail text.
#[derive(Debug, PartialEq, Eq)]
pub enum LegendError {
    PngFetch(String),
    PngRead(String),
    ImageLoad(String),
    JsonFetch(String),
    JsonParse(String),
    Fetch(String),
    InvalidJson(String),
    InvalidExpression(String),
    Deserialization(String),
}

/// An error as a kind and a detail text.
pub struct ErrorView {
    pub kind: ErrorKind,
    pub detail: Seq<char>,
}

/// The error that reports a JSON value of the wrong shape.
pub open spec fn invalid_json(detail: Seq<char>) -> ErrorView {
    ErrorView { kind: ErrorKind::InvalidJson, detail }
}

/// The error that reports a malformed expression.
pub open spec fn invalid_expression(detail: Seq<char>) -> ErrorView {
    ErrorView { kind: ErrorKind::InvalidExpression, detail }
}

/// The words that open the message of an error of the given kind.
pub open spec fn kind_prefix(kind: ErrorKind) -> Seq<char> {
    match kind {
        ErrorKind::PngFetch => "Failed to fetch sprite PNG: "@,
        ErrorKind::PngRead => "Failed to read sprite PNG: "@,
        ErrorKind::ImageLoad => "Failed to load sprite image: "@,
        ErrorKind::JsonFetch => "Failed to fetch sprite JSON: "@,
        ErrorKind::JsonParse => "Failed to parse sprite JSON: "@,
        ErrorKind::Fetch => "Failed to fetch url: "@,
        ErrorKind::InvalidJson => "Invalid JSON object: "@,
        ErrorKind::InvalidExpression => "Invalid expression: "@,
        ErrorKind::Deserialization => "JSON deserialization failed: "@,
    }
}

/// The full message of an error: the words of its kind, then its detail.
pub open spec fn message_of(error: ErrorView) -> Seq<char> {
    kind_prefix(error.kind) + error.detail
}

impl View for LegendError {
    type V = ErrorView;

    open spec fn view(&self) -> ErrorView {
        match self {
            LegendError::PngFetch(d) => ErrorView { kind: ErrorKind::PngFetch, detail: d@ },
            LegendError::PngRead(d) => ErrorView { kind: ErrorKind::PngRead, detail: d@ },
            LegendError::ImageLoad(d) => ErrorView { kind: ErrorKind::ImageLoad, detail: d@ },
            LegendError::JsonFetch(d) => ErrorView { kind: ErrorKind::JsonFetch, detail: d@ },
            LegendError::JsonParse(d) => ErrorView { kind: ErrorKind::JsonParse, detail: d@ },
            LegendError::Fetch(d) => ErrorView { kind: ErrorKind::Fetch, detail: d@ },
            LegendError::InvalidJson(d) => ErrorView { kind: ErrorKind::InvalidJson, detail: d@ },
            LegendError::InvalidExpression(d) => ErrorView {
                kind: ErrorKind::InvalidExpression,
                detail: d@,
            },
            LegendError::Deserialization(d) => ErrorView {
                kind: ErrorKind::Deserialization,
                detail: d@,
            },
        }
    }
}

impl LegendError {
    /// The kind of this error.
    pub fn kind(&self) -> (k: ErrorKind)
        ensures
            k == self@.kind,
    {
        match self {
            LegendError::PngFetch(_) => ErrorKind::PngFetch,
            LegendError::PngRead(_) => ErrorKind::PngRead,
            LegendError::ImageLoad(_) => ErrorKind::ImageLoad,
            LegendError::JsonFetch(_) => ErrorKind::JsonFetch,
            LegendError::JsonParse(_) => ErrorKind::JsonParse,
            LegendError::Fetch(_) => ErrorKind::Fetch,
            LegendError::InvalidJson(_) => ErrorKind::InvalidJson,
            LegendError::InvalidExpression(_) => ErrorKind::InvalidExpression,
            LegendError::Deserialization(_) => ErrorKind::Deserialization,
        }
    }

    /// The detail text of this error, without the words of its kind.
    pub fn detail(&self) -> (d: &str)
        ensures
            d@ == self@.detail,
    {
        match self {
            LegendError::PngFetch(d) => d.as_str(),
            LegendError::PngRead(d) => d.as_str(),
            LegendError::ImageLoad(d) => d.as_str(),
            LegendError::JsonFetch(d) => d.as_str(),
            LegendError::JsonParse(d) => d.as_str(),
            LegendError::Fetch(d) => d.as_str(),
            LegendError::InvalidJson(d) => d.as_str(),
            LegendError::InvalidExpression(d) => d.as_str(),
            LegendError::Deserialization(d) => d.as_str(),
        }
    }

    /// The full message of this error.
    pub fn message(&self) -> (m: String)
        ensures
            m@ == message_of(self@),
    {
        let prefix = match self {
            LegendError::PngFetch(_) => "Failed to fetch sprite PNG: ",
            LegendError::PngRead(_) => "Failed to read sprite PNG: ",
            LegendError::ImageLoad(_) => "Failed to load sprite image: ",
            LegendError::JsonFetch(_) => "Failed to fetch sprite JSON: ",
            LegendError::JsonParse(_) => "Failed to parse sprite JSON: ",
            LegendError::Fetch(_) => "Failed to fetch url: ",
            LegendError::InvalidJson(_) => "Invalid JSON object: ",
            LegendError::InvalidExpression(_) => "Invalid expression: ",
            LegendError::Deserialization(_) => "JSON deserialization failed: ",
        };
        String::from_str(prefix).concat(self.detail())
    }
}

/// Builds the error that reports a JSON value of the wrong shape.
pub(crate) fn json_error(detail: &str) -> (e: LegendError)
    ensures
        e@ == invalid_json(detail@),
{
    LegendError::InvalidJson(String::from_str(detail))
}

/// Builds the error that reports a malformed expression.
pub(crate) fn expression_error(detail: &str) -> (e: LegendError)
    ensures
        e@ == invalid_expression(detail@),
{
    LegendError::InvalidExpression(String::from_str(detail))
}

} // verus!
