//! Running a query against the index: one session per query, from the
//! creation of the query to its release.
//!
//! A [`QueryRun`] never touches the index. It names the next operation
//! ([`QueryRun::request`]) and takes what the index answered
//! ([`QueryRun::step`]) until it asks for [`Request::Finish`]. For each item
//! of the result set it collects the selected attribute as bounded text, in
//! the order in which the index enumerates the items.

use crate::error::{ErrorView, MetadataError};
use crate::index::{Request, RequestView, Response, ResponseView};
use crate::prelude::KMDItemTypes;
use crate::text::{bounded_prefix, truncate_to_bytes, TEXT_LIMIT};
use crate::value::{RawValue, Value};
use vstd::prelude::*;
use vstd::string::*;

verus! {

/// Where a query session stands.
#[derive(Clone, Copy, Debug, PartialEq, Eq, Structural)]
pub enum Phase {
    /// Nothing has been asked of the index yet.
    Start,
    /// The query exists and has not run.
    Created,
    /// The query has run; its result count is not known yet.
    Executed,
    /// The next item of the result set is to be fetched.
    Fetching,
    /// An item was fetched; its attribute is to be copied.
    ItemReady,
    /// A raw value was copied and examined; it is to be released.
    ValueHeld,
    /// The result set is done with, or the session failed; the query is to
    /// be released.
    Closing,
    /// The session holds nothing and has its outcome.
    Done,
}

/// Why a query session fails.
#[derive(Clone, Copy, Debug, PartialEq, Eq, Structural)]
pub enum Failure {
    /// The index handed out no query.
    Creation,
    /// The index did not run the query.
    Execution,
    /// A response did not answer the request that was pending.
    Protocol,
}

/// What a finished session hands to its caller.
pub type Outcome = Result<Seq<Seq<char>>, ErrorView>;

/// The mathematical state of a [`QueryRun`].
pub struct QueryRunView {
    pub predicate: Seq<char>,
    /// The attributes whose values the query is to gather.
    pub value_list_attrs: Seq<Seq<char>>,
    /// The attributes by which the query is to order its results.
    pub sorting_attrs: Seq<Seq<char>>,
    pub selector: Seq<char>,
    pub phase: Phase,
    /// The number of results of the query, once known.
    pub count: nat,
    /// The position in the result set of the item in hand, or to fetch next.
    pub next: nat,
    /// The texts collected so far.
    pub found: Seq<Seq<char>>,
    pub failure: Option<Failure>,
}

/// The text that a query collects from a raw value. Text is kept up to the
/// byte limit of the extraction buffer: a longer text is cut to its longest
/// prefix that fits, and is no failure. A value that is not text yields
/// nothing.
pub open spec fn extracted_text(value: Value) -> Option<Seq<char>> {
    match value {
        Value::Text(text) => Some(bounded_prefix(text, TEXT_LIMIT as int)),
        _ => None,
    }
}

/// The predicate that finds the items whose display name contains `keyword`.
pub open spec fn display_name_predicate(keyword: Seq<char>) -> Seq<char> {
    "kMDItemDisplayName = '*"@ + keyword + "*'"@
}

impl QueryRunView {
    /// The state in which a session for `predicate` and `selector` begins,
    /// with no attributes to gather or to order by.
    pub open spec fn initial(predicate: Seq<char>, selector: Seq<char>) -> QueryRunView {
        QueryRunView::initial_with(predicate, selector, Seq::empty(), Seq::empty())
    }

    /// The state in which a session for `predicate` and `selector` begins.
    pub open spec fn initial_with(
        predicate: Seq<char>,
        selector: Seq<char>,
        value_list_attrs: Seq<Seq<char>>,
        sorting_attrs: Seq<Seq<char>>,
    ) -> QueryRunView {
        QueryRunView {
            predicate,
            value_list_attrs,
            sorting_attrs,
            selector,
            phase: Phase::Start,
            count: 0,
            next: 0,
            found: Seq::empty(),
            failure: None,
        }
    }

    /// Whether this is a state in which a session begins.
    pub open spec fn begins(self) -> bool {
        self == QueryRunView::initial_with(
            self.predicate,
            self.selector,
            self.value_list_attrs,
            self.sorting_attrs,
        )
    }

    /// While an item is being looked at, its position lies in the result set.
    pub open spec fn wf(self) -> bool {
        &&& self.count <= usize::MAX
        &&& self.next <= self.count
        &&& (self.phase is Fetching || self.phase is ItemReady || self.phase is ValueHeld)
            ==> self.next < self.count
    }

    /// Whether the driver holds a query on behalf of this session.
    pub open spec fn holds_query(self) -> bool {
        !(self.phase is Start) && !(self.phase is Done)
    }

    /// Whether the driver holds a raw value on behalf of this session.
    pub open spec fn holds_value(self) -> bool {
        self.phase is ValueHeld
    }

    /// Whether the session is over.
    pub open spec fn finished(self) -> bool {
        self.phase is Done
    }

    /// The operation that the session is waiting for.
    pub open spec fn request(self) -> RequestView {
        match self.phase {
            Phase::Start => RequestView::CreateQuery {
                predicate: self.predicate,
                value_list_attrs: self.value_list_attrs,
                sorting_attrs: self.sorting_attrs,
            },
            Phase::Created => RequestView::ExecuteQuery,
            Phase::Executed => RequestView::ResultCount,
            Phase::Fetching => RequestView::ResultAt { index: self.next },
            Phase::ItemReady => RequestView::CopyAttribute { name: self.selector },
            Phase::ValueHeld => RequestView::ReleaseValue,
            Phase::Closing => RequestView::ReleaseQuery,
            Phase::Done => RequestView::Finish,
        }
    }

    /// The state in which the positions before `row` are done with: `row`
    /// is fetched next if the result set reaches that far, else the query
    /// is released.
    pub open spec fn at_row(self, row: nat) -> QueryRunView {
        QueryRunView {
            phase: if row < self.count {
                Phase::Fetching
            } else {
                Phase::Closing
            },
            next: row,
            ..self
        }
    }

    /// The state after a response that does not answer the pending request:
    /// the session fails, and goes on only to release what is held.
    pub open spec fn derailed(self) -> QueryRunView {
        QueryRunView {
            phase: match self.phase {
                Phase::Start => Phase::Done,
                Phase::Done => Phase::Done,
                Phase::ValueHeld => Phase::ValueHeld,
                _ => Phase::Closing,
            },
            failure: match self.failure {
                Some(failure) => Some(failure),
                None => if self.phase is Done {
                    None
                } else {
                    Some(Failure::Protocol)
                },
            },
            ..self
        }
    }

    /// The state after the index answered the pending request by `response`.
    pub open spec fn step(self, response: ResponseView) -> QueryRunView {
        match (self.phase, response) {
            (Phase::Start, ResponseView::QueryCreated { ok }) => if ok {
                QueryRunView { phase: Phase::Created, ..self }
            } else {
                QueryRunView { phase: Phase::Done, failure: Some(Failure::Creation), ..self }
            },
            (Phase::Created, ResponseView::QueryExecuted { ok }) => if ok {
                QueryRunView { phase: Phase::Executed, ..self }
            } else {
                QueryRunView { phase: Phase::Closing, failure: Some(Failure::Execution), ..self }
            },
            (Phase::Executed, ResponseView::ResultCount { count }) => QueryRunView {
                count: if 0 < count <= usize::MAX {
                    count as nat
                } else {
                    0
                },
                ..self
            }.at_row(0),
            (Phase::Fetching, ResponseView::Item { present }) => if present {
                QueryRunView { phase: Phase::ItemReady, ..self }
            } else {
                self.at_row(self.next + 1)
            },
            (Phase::ItemReady, ResponseView::Attribute { value }) => match value {
                None => self.at_row(self.next + 1),
                Some(raw) => QueryRunView {
                    phase: Phase::ValueHeld,
                    found: match extracted_text(raw) {
                        Some(text) => self.found.push(text),
                        None => self.found,
                    },
                    ..self
                },
            },
            (Phase::ValueHeld, ResponseView::Released) => if self.failure is Some {
                QueryRunView { phase: Phase::Closing, ..self }
            } else {
                self.at_row(self.next + 1)
            },
            (Phase::Closing, ResponseView::Released) => QueryRunView { phase: Phase::Done, ..self },
            _ => self.derailed(),
        }
    }

    /// What the session hands to its caller: nothing before it is over, then
    /// the collected texts, or the error it failed with.
    pub open spec fn outcome(self) -> Option<Outcome> {
        if self.phase is Done {
            Some(
                match self.failure {
                    None => Ok(self.found),
                    Some(Failure::Creation) => Err(ErrorView::QueryCreationFailed),
                    Some(Failure::Execution) => Err(ErrorView::QueryExecutionFailed),
                    Some(Failure::Protocol) => Err(ErrorView::Unknown),
                },
            )
        } else {
            None
        }
    }
}

/// A query session: the predicate, the attribute to collect, and how far
/// the session has come.
#[derive(Debug)]
pub struct QueryRun {
    predicate: String,
    value_list_attrs: Vec<String>,
    sorting_attrs: Vec<String>,
    selector: String,
    phase: Phase,
    count: usize,
    next: usize,
    found: Vec<String>,
    failure: Option<Failure>,
}

impl View for QueryRun {
    type V = QueryRunView;

    closed spec fn view(&self) -> QueryRunView {
        QueryRunView {
            predicate: self.predicate@,
            value_list_attrs: self.value_list_attrs.deep_view(),
            sorting_attrs: self.sorting_attrs.deep_view(),
            selector: self.selector@,
            phase: self.phase,
            count: self.count as nat,
            next: self.next as nat,
            found: self.found.deep_view(),
            failure: self.failure,
        }
    }
}

/// The mathematical content of what [`QueryRun::outcome`] returns.
pub open spec fn outcome_view(outcome: Option<Result<Vec<String>, MetadataError>>) -> Option<
    Outcome,
> {
    match outcome {
        None => None,
        Some(Ok(found)) => Some(Ok(found.deep_view())),
        Some(Err(error)) => Some(Err(error@)),
    }
}

/// Extracts the text that a query collects from a raw value: the value must
/// be tagged as text, and is kept up to the byte limit of the extraction
/// buffer. A longer text is cut between two characters, not refused.
pub fn bounded_text(value: &RawValue) -> (text: Option<String>)
    ensures
        text.deep_view() == extracted_text(value@),
{
    match value {
        RawValue::Text(text) => Some(truncate_to_bytes(text.as_str(), TEXT_LIMIT)),
        _ => None,
    }
}

/// Copies a list of attribute names.
fn copy_of(names: &Vec<String>) -> (copy: Vec<String>)
    ensures
        copy.deep_view() == names.deep_view(),
{
    let mut copy: Vec<String> = Vec::new();
    let mut i: usize = 0;
    while i < names.len()
        invariant
            i <= names.len(),
            copy.len() == i,
            forall|j: int| 0 <= j < i ==> (#[trigger] copy@[j])@ == names@[j]@,
        decreases names.len() - i,
    {
        copy.push(names[i].clone());
        i = i + 1;
    }
    assert(copy.deep_view() =~= names.deep_view());
    copy
}

impl QueryRun {
    #[verifier::type_invariant]
    spec fn inv(self) -> bool {
        self@.wf()
    }

    /// Begins a session that collects the attribute `selector` of the items
    /// that match `predicate`.
    pub fn begin(predicate: &str, selector: &str) -> (run: QueryRun)
        ensures
            run@ == QueryRunView::initial(predicate@, selector@),
    {
        let value_list_attrs: Vec<String> = Vec::new();
        let sorting_attrs: Vec<String> = Vec::new();
        assert(value_list_attrs.deep_view() =~= Seq::<Seq<char>>::empty());
        assert(sorting_attrs.deep_view() =~= Seq::<Seq<char>>::empty());
        QueryRun::begin_with(predicate, selector, value_list_attrs, sorting_attrs)
    }

    /// Begins a session that collects the attribute `selector` of the items
    /// that match `predicate`, for a query that gathers the values of
    /// `value_list_attrs` and orders its results by `sorting_attrs`.
    pub fn begin_with(
        predicate: &str,
        selector: &str,
        value_list_attrs: Vec<String>,
        sorting_attrs: Vec<String>,
    ) -> (run: QueryRun)
        ensures
            run@ == QueryRunView::initial_with(
                predicate@,
                selector@,
                value_list_attrs.deep_view(),
                sorting_attrs.deep_view(),
            ),
    {
        let run = QueryRun {
            predicate: String::from_str(predicate),
            value_list_attrs,
            sorting_attrs,
            selector: String::from_str(selector),
            phase: Phase::Start,
            count: 0,
            next: 0,
            found: Vec::new(),
            failure: None,
        };
        assert(run.found.deep_view() =~= Seq::<Seq<char>>::empty());
        run
    }

    /// The operation that the driver is to perform next.
    pub fn request(&self) -> (request: Request)
        ensures
            request@ == self@.request(),
    {
        match self.phase {
            Phase::Start => Request::CreateQuery {
                predicate: self.predicate.clone(),
                value_list_attrs: copy_of(&self.value_list_attrs),
                sorting_attrs: copy_of(&self.sorting_attrs),
            },
            Phase::Created => Request::ExecuteQuery,
            Phase::Executed => Request::ResultCount,
            Phase::Fetching => Request::ResultAt { index: self.next },
            Phase::ItemReady => Request::CopyAttribute { name: self.selector.clone() },
            Phase::ValueHeld => Request::ReleaseValue,
            Phase::Closing => Request::ReleaseQuery,
            Phase::Done => Request::Finish,
        }
    }

    /// Whether the session is over, so that its outcome can be taken.
    pub fn is_finished(&self) -> (finished: bool)
        ensures
            finished == self@.finished(),
    {
        match self.phase {
            Phase::Done => true,
            _ => false,
        }
    }

    fn at_row(self, row: usize) -> (run: QueryRun)
        requires
            row <= self.count,
        ensures
            run@ == self@.at_row(row as nat),
    {
        let phase = if row < self.count {
            Phase::Fetching
        } else {
            Phase::Closing
        };
        QueryRun {
            predicate: self.predicate,
            value_list_attrs: self.value_list_attrs,
            sorting_attrs: self.sorting_attrs,
            selector: self.selector,
            phase,
            count: self.count,
            next: row,
            found: self.found,
            failure: self.failure,
        }
    }

    fn derailed(self) -> (run: QueryRun)
        ensures
            run@ == self@.derailed(),
    {
        proof {
            use_type_invariant(&self);
        }
        let phase = match self.phase {
            Phase::Start => Phase::Done,
            Phase::Done => Phase::Done,
            Phase::ValueHeld => Phase::ValueHeld,
            _ => Phase::Closing,
        };
        let failure = match self.failure {
            Some(failure) => Some(failure),
            None => match self.phase {
                Phase::Done => None,
                _ => Some(Failure::Protocol),
            },
        };
        QueryRun {
            predicate: self.predicate,
            value_list_attrs: self.value_list_attrs,
            sorting_attrs: self.sorting_attrs,
            selector: self.selector,
            phase,
            count: self.count,
            next: self.next,
            found: self.found,
            failure,
        }
    }

    fn in_phase(self, phase: Phase, failure: Option<Failure>) -> (run: QueryRun)
        requires
            (phase is Fetching || phase is ItemReady || phase is ValueHeld) ==> self.next
                < self.count,
        ensures
            run@ == (QueryRunView { phase, failure, ..self@ }),
    {
        proof {
            use_type_invariant(&self);
        }
        QueryRun {
            predicate: self.predicate,
            value_list_attrs: self.value_list_attrs,
            sorting_attrs: self.sorting_attrs,
            selector: self.selector,
            phase,
            count: self.count,
            next: self.next,
            found: self.found,
            failure,
        }
    }

    /// Takes the index's answer to the pending request and moves on.
    pub fn step(self, response: Response) -> (run: QueryRun)
        ensures
            run@ == self@.step(response@),
            run@.wf(),
    {
        proof {
            use_type_invariant(&self);
        }
        let failure = self.failure;
        match (self.phase, response) {
            (Phase::Start, Response::QueryCreated { ok }) => {
                if ok {
                    self.in_phase(Phase::Created, failure)
                } else {
                    self.in_phase(Phase::Done, Some(Failure::Creation))
                }
            },
            (Phase::Created, Response::QueryExecuted { ok }) => {
                if ok {
                    self.in_phase(Phase::Executed, failure)
                } else {
                    self.in_phase(Phase::Closing, Some(Failure::Execution))
                }
            },
            (Phase::Executed, Response::ResultCount { count }) => {
                let count: usize = if count > 0 {
                    count as usize
                } else {
                    0
                };
                let counted = QueryRun {
                    predicate: self.predicate,
                    value_list_attrs: self.value_list_attrs,
                    sorting_attrs: self.sorting_attrs,
                    selector: self.selector,
                    phase: Phase::Executed,
                    count,
                    next: 0,
                    found: self.found,
                    failure: self.failure,
                };
                counted.at_row(0)
            },
            (Phase::Fetching, Response::Item { present }) => {
                if present {
                    self.in_phase(Phase::ItemReady, failure)
                } else {
                    let following = self.next + 1;
                    self.at_row(following)
                }
            },
            (Phase::ItemReady, Response::Attribute { value }) => {
                match value {
                    None => {
                        let following = self.next + 1;
                        self.at_row(following)
                    },
                    Some(raw) => {
                        let ghost before = self.found.deep_view();
                        let mut found = self.found;
                        match bounded_text(&raw) {
                            Some(text) => {
                                found.push(text);
                                assert(found.deep_view() =~= before.push(text@));
                            },
                            None => {},
                        }
                        QueryRun {
                            predicate: self.predicate,
                            value_list_attrs: self.value_list_attrs,
                            sorting_attrs: self.sorting_attrs,
                            selector: self.selector,
                            phase: Phase::ValueHeld,
                            count: self.count,
                            next: self.next,
                            found,
                            failure: self.failure,
                        }
                    },
                }
            },
            (Phase::ValueHeld, Response::Released) => {
                if failure.is_some() {
                    self.in_phase(Phase::Closing, failure)
                } else {
                    let following = self.next + 1;
                    self.at_row(following)
                }
            },
            (Phase::Closing, Response::Released) => self.in_phase(Phase::Done, failure),
            _ => self.derailed(),
        }
    }

    /// Ends the session: `None` while it is not over, else the texts
    /// collected in the order of the result set, or the error.
    pub fn outcome(self) -> (outcome: Option<Result<Vec<String>, MetadataError>>)
        ensures
            outcome_view(outcome) == self@.outcome(),
    {
        match self.phase {
            Phase::Done => Some(
                match self.failure {
                    None => Ok(self.found),
                    Some(Failure::Creation) => Err(MetadataError::QueryCreationFailed),
                    Some(Failure::Execution) => Err(MetadataError::QueryExecutionFailed),
                    Some(Failure::Protocol) => Err(MetadataError::Unknown),
                },
            ),
            _ => None,
        }
    }
}

/// The entry points for queries against the index.
pub struct SpotlightApi;

impl SpotlightApi {
    /// Begins a query for `query_string`, which is handed to the index as it
    /// is, collecting the attribute `item_type` of each item found.
    pub fn raw_query(query_string: &str, item_type: KMDItemTypes) -> (run: QueryRun)
        ensures
            run@ == QueryRunView::initial(query_string@, item_type.name()),
    {
        QueryRun::begin(query_string, item_type.into_ref())
    }

    /// Begins a query for the paths of the items whose display name contains
    /// `search_keyword`.
    pub fn search(search_keyword: &str) -> (run: QueryRun)
        ensures
            run@ == QueryRunView::initial(
                display_name_predicate(search_keyword@),
                KMDItemTypes::Path.name(),
            ),
    {
        let mut predicate = String::from_str("kMDItemDisplayName = '*");
        predicate.append(search_keyword);
        predicate.append("*'");
        QueryRun::begin(predicate.as_str(), KMDItemTypes::Path.into_ref())
    }
}

} // verus!
