//! The boundary to the metadata index: what a session may ask of it and
//! what the index may answer. The index is a service outside this crate;
//! whoever drives a session performs each request and reports the response.

use crate::value::{RawValue, Value};
use vstd::prelude::*;

verus! {

/// One operation that a session asks its driver to perform on the index.
#[derive(Debug, PartialEq, Eq)]
pub enum Request {
    /// Open a query for the predicate, which is handed on as it is. The
    /// query is to gather the values of `value_list_attrs` and to order its
    /// results by `sorting_attrs`; either list may be empty.
    CreateQuery { predicate: String, value_list_attrs: Vec<String>, sorting_attrs: Vec<String> },
    /// Run the open query to completion, synchronously.
    ExecuteQuery,
    /// Read how many results the executed query has.
    ResultCount,
    /// Fetch the item at this position of the result set.
    ResultAt { index: usize },
    /// Resolve a file-system path to an item.
    ResolveItem { path: String },
    /// Copy the named attribute of the item fetched or resolved last.
    CopyAttribute { name: String },
    /// Release the raw value copied last.
    ReleaseValue,
    /// Release the query.
    ReleaseQuery,
    /// Nothing is left to do; no handle of this session may be used again.
    Finish,
}

/// What the index answered to one request.
#[derive(Debug, PartialEq, Eq)]
pub enum Response {
    /// Whether the index handed out a query.
    QueryCreated { ok: bool },
    /// Whether the index ran the query.
    QueryExecuted { ok: bool },
    /// The number of results, as the index reports it.
    ResultCount { count: isize },
    /// Whether the index handed out an item.
    Item { present: bool },
    /// The attribute's value, or `None` where the item does not carry it.
    Attribute { value: Option<RawValue> },
    /// The release was carried out.
    Released,
}

/// The mathematical content of a [`Request`].
pub enum RequestView {
    CreateQuery {
        predicate: Seq<char>,
        value_list_attrs: Seq<Seq<char>>,
        sorting_attrs: Seq<Seq<char>>,
    },
    ExecuteQuery,
    ResultCount,
    ResultAt { index: nat },
    ResolveItem { path: Seq<char> },
    CopyAttribute { name: Seq<char> },
    ReleaseValue,
    ReleaseQuery,
    Finish,
}

/// The mathematical content of a [`Response`].
pub enum ResponseView {
    QueryCreated { ok: bool },
    QueryExecuted { ok: bool },
    ResultCount { count: int },
    Item { present: bool },
    Attribute { value: Option<Value> },
    Released,
}

impl View for Request {
    type V = RequestView;

    open spec fn view(&self) -> RequestView {
        match self {
            Request::CreateQuery {
                predicate,
                value_list_attrs,
                sorting_attrs,
            } => RequestView::CreateQuery {
                predicate: predicate@,
                value_list_attrs: value_list_attrs.deep_view(),
                sorting_attrs: sorting_attrs.deep_view(),
            },
            Request::ExecuteQuery => RequestView::ExecuteQuery,
            Request::ResultCount => RequestView::ResultCount,
            Request::ResultAt { index } => RequestView::ResultAt { index: *index as nat },
            Request::ResolveItem { path } => RequestView::ResolveItem { path: path@ },
            Request::CopyAttribute { name } => RequestView::CopyAttribute { name: name@ },
            Request::ReleaseValue => RequestView::ReleaseValue,
            Request::ReleaseQuery => RequestView::ReleaseQuery,
            Request::Finish => RequestView::Finish,
        }
    }
}

impl View for Response {
    type V = ResponseView;

    open spec fn view(&self) -> ResponseView {
        match self {
            Response::QueryCreated { ok } => ResponseView::QueryCreated { ok: *ok },
            Response::QueryExecuted { ok } => ResponseView::QueryExecuted { ok: *ok },
            Response::ResultCount { count } => ResponseView::ResultCount { count: *count as int },
            Response::Item { present } => ResponseView::Item { present: *present },
            Response::Attribute { value } => ResponseView::Attribute {
                value: match value {
                    Some(raw) => Some(raw@),
                    None => None,
                },
            },
            Response::Released => ResponseView::Released,
        }
    }
}

impl RequestView {
    /// Whether `response` is of the kind that this request is answered with.
    pub open spec fn answered_by(self, response: ResponseView) -> bool {
        match self {
            RequestView::CreateQuery { .. } => response is QueryCreated,
            RequestView::ExecuteQuery => response is QueryExecuted,
            RequestView::ResultCount => response is ResultCount,
            RequestView::ResultAt { .. } => response is Item,
            RequestView::ResolveItem { .. } => response is Item,
            RequestView::CopyAttribute { .. } => response is Attribute,
            RequestView::ReleaseValue => response is Released,
            RequestView::ReleaseQuery => response is Released,
            RequestView::Finish => false,
        }
    }

    /// Whether this request, answered by `response`, left the driver with a
    /// raw value that it did not hold before.
    pub open spec fn acquires_value(self, response: ResponseView) -> bool {
        self is CopyAttribute && response matches ResponseView::Attribute { value: Some(_) }
    }

    /// Whether this request, answered by `response`, left the driver with a
    /// query that it did not hold before.
    pub open spec fn acquires_query(self, response: ResponseView) -> bool {
        self is CreateQuery && response == (ResponseView::QueryCreated { ok: true })
    }

    /// Whether this request, answered by `response`, gave up the raw value.
    pub open spec fn releases_value(self, response: ResponseView) -> bool {
        self is ReleaseValue && response is Released
    }

    /// Whether this request, answered by `response`, gave up the query.
    pub open spec fn releases_query(self, response: ResponseView) -> bool {
        self is ReleaseQuery && response is Released
    }
}

} // verus!
