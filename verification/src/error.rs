//! The failures that a query or an attribute lookup can end in.

use vstd::prelude::*;
use vstd::string::*;

verus! {

/// Why a query or an attribute lookup did not produce a value.
#[derive(Debug, PartialEq, Eq)]
pub enum MetadataError {
    /// The data store could not be reached; holds the reason as text.
    Disconnect(String),
    /// The data for this key is withheld.
    Redaction(String),
    /// The path did not resolve to an indexed item.
    NullItem { item: String },
    /// The item exists but does not carry the attribute.
    NullAttribute { attr: String },
    /// The attribute is stored under another type than the one asked for;
    /// `real_type` names the type it is stored under.
    ConversionError { attr: String, real_type: String },
    /// The driver answered a request with a response of another kind.
    Unknown,
    /// The index refused to create a query for the predicate.
    QueryCreationFailed,
    /// The index could not run the query.
    QueryExecutionFailed,
}

/// The mathematical content of a [`MetadataError`].
pub enum ErrorView {
    Disconnect(Seq<char>),
    Redaction(Seq<char>),
    NullItem { item: Seq<char> },
    NullAttribute { attr: Seq<char> },
    ConversionError { attr: Seq<char>, real_type: Seq<char> },
    Unknown,
    QueryCreationFailed,
    QueryExecutionFailed,
}

impl View for MetadataError {
    type V = ErrorView;

    open spec fn view(&self) -> ErrorView {
        match self {
            MetadataError::Disconnect(reason) => ErrorView::Disconnect(reason@),
            MetadataError::Redaction(key) => ErrorView::Redaction(key@),
            MetadataError::NullItem { item } => ErrorView::NullItem { item: item@ },
            MetadataError::NullAttribute { attr } => ErrorView::NullAttribute { attr: attr@ },
            MetadataError::ConversionError { attr, real_type } => ErrorView::ConversionError {
                attr: attr@,
                real_type: real_type@,
            },
            MetadataError::Unknown => ErrorView::Unknown,
            MetadataError::QueryCreationFailed => ErrorView::QueryCreationFailed,
            MetadataError::QueryExecutionFailed => ErrorView::QueryExecutionFailed,
        }
    }
}

impl ErrorView {
    /// The text shown to a person for this error.
    pub open spec fn message(self) -> Seq<char> {
        match self {
            ErrorView::Disconnect(_) => "data store disconnected"@,
            ErrorView::Redaction(key) => "the data for key `"@ + key + "` is not available"@,
            ErrorView::NullItem { item } => "item ("@ + item + ") is null"@,
            ErrorView::NullAttribute { attr } => "attribute ("@ + attr + ") is null"@,
            ErrorView::ConversionError { attr, real_type } => "failed to get ("@ + attr
                + ") as (desired_type). value is of type ("@ + real_type + ")"@,
            ErrorView::Unknown => "unknown data store error"@,
            ErrorView::QueryCreationFailed => "failed to create query"@,
            ErrorView::QueryExecutionFailed => "failed to execute query"@,
        }
    }
}

impl MetadataError {
    /// Renders the error as a sentence.
    pub fn message(&self) -> (text: String)
        ensures
            text@ == self@.message(),
    {
        match self {
            MetadataError::Disconnect(_) => String::from_str("data store disconnected"),
            MetadataError::Redaction(key) => {
                let mut text = String::from_str("the data for key `");
                text.append(key.as_str());
                text.append("` is not available");
                text
            },
            MetadataError::NullItem { item } => {
                let mut text = String::from_str("item (");
                text.append(item.as_str());
                text.append(") is null");
                text
            },
            MetadataError::NullAttribute { attr } => {
                let mut text = String::from_str("attribute (");
                text.append(attr.as_str());
                text.append(") is null");
                text
            },
            MetadataError::ConversionError { attr, real_type } => {
                let mut text = String::from_str("failed to get (");
                text.append(attr.as_str());
                text.append(") as (desired_type). value is of type (");
                text.append(real_type.as_str());
                text.append(")");
                text
            },
            MetadataError::Unknown => String::from_str("unknown data store error"),
            MetadataError::QueryCreationFailed => String::from_str("failed to create query"),
            MetadataError::QueryExecutionFailed => String::from_str("failed to execute query"),
        }
    }
}

} // verus!
