//! Reading one attribute of an item as a statically typed value, from the
//! path of the item or from an item that the driver already holds.
//!
//! An [`AttrQuery`] never touches the index. It names the next operation
//! ([`AttrQuery::request`]) and takes what the index answered
//! ([`AttrQuery::step`]) until it asks for [`Request::Finish`]. The raw value
//! is converted only after its tag was checked against the type asked for,
//! and is released whether or not it converted.

use crate::error::{ErrorView, MetadataError};
use crate::from_objc::FromObjC;
use crate::index::{Request, RequestView, Response, ResponseView};
use crate::value::RawValue;
use vstd::prelude::*;
use vstd::string::*;

verus! {

/// Where an attribute lookup stands.
#[derive(Clone, Copy, Debug, PartialEq, Eq, Structural)]
pub enum Stage {
    /// The path is to be resolved to an item.
    Unresolved,
    /// The item exists; its attribute is to be copied.
    ItemResolved,
    /// The raw value was copied, its tag checked and the result decided;
    /// the raw value is to be released.
    AttributeFetched,
    /// The lookup holds nothing and has its result.
    Finished,
}

/// The mathematical state of an [`AttrQuery`] whose results have the
/// content `V`.
pub struct AttrQueryView<V> {
    pub file_name: Seq<char>,
    pub attr_name: Seq<char>,
    pub stage: Stage,
    /// The result, once it is decided.
    pub result: Option<Result<V, ErrorView>>,
}

impl<V> AttrQueryView<V> {
    /// The state in which a lookup of `attr_name` at `file_name` begins.
    pub open spec fn initial(file_name: Seq<char>, attr_name: Seq<char>) -> AttrQueryView<V> {
        AttrQueryView { file_name, attr_name, stage: Stage::Unresolved, result: None }
    }

    /// The state in which a lookup of `attr_name` begins on an item that the
    /// driver already holds: the item that it fetched or resolved last.
    pub open spec fn on_item(attr_name: Seq<char>) -> AttrQueryView<V> {
        AttrQueryView {
            file_name: Seq::empty(),
            attr_name,
            stage: Stage::ItemResolved,
            result: None,
        }
    }

    /// Whether this is a state in which a lookup begins.
    pub open spec fn begins(self) -> bool {
        self.result is None && (self.stage is Unresolved || self.stage is ItemResolved)
    }

    /// The result is decided exactly from the moment the raw value is
    /// examined, or the lookup ends without one.
    pub open spec fn wf(self) -> bool {
        self.result is Some <==> (self.stage is AttributeFetched || self.stage is Finished)
    }

    /// Whether the driver holds a raw value on behalf of this lookup.
    pub open spec fn holds_value(self) -> bool {
        self.stage is AttributeFetched
    }

    /// Whether the lookup is over.
    pub open spec fn finished(self) -> bool {
        self.stage is Finished
    }

    /// The operation that the lookup is waiting for.
    pub open spec fn request(self) -> RequestView {
        match self.stage {
            Stage::Unresolved => RequestView::ResolveItem { path: self.file_name },
            Stage::ItemResolved => RequestView::CopyAttribute { name: self.attr_name },
            Stage::AttributeFetched => RequestView::ReleaseValue,
            Stage::Finished => RequestView::Finish,
        }
    }

    /// The state after a response that does not answer the pending request:
    /// the lookup fails, and goes on only to release what is held.
    pub open spec fn derailed(self) -> AttrQueryView<V> {
        match self.stage {
            Stage::Finished => self,
            Stage::AttributeFetched => AttrQueryView {
                result: Some(Err(ErrorView::Unknown)),
                ..self
            },
            _ => AttrQueryView {
                stage: Stage::Finished,
                result: Some(Err(ErrorView::Unknown)),
                ..self
            },
        }
    }

    /// What the lookup hands to its caller: nothing before it is over, then
    /// its result.
    pub open spec fn outcome(self) -> Option<Result<V, ErrorView>> {
        if self.stage is Finished {
            self.result
        } else {
            None
        }
    }
}

/// The state of a lookup of a `T` after the index answered the pending
/// request by `response`.
pub open spec fn lookup_step<T: FromObjC>(
    state: AttrQueryView<T::V>,
    response: ResponseView,
) -> AttrQueryView<T::V> {
    match (state.stage, response) {
        (Stage::Unresolved, ResponseView::Item { present }) => if present {
            AttrQueryView { stage: Stage::ItemResolved, ..state }
        } else {
            AttrQueryView {
                stage: Stage::Finished,
                result: Some(Err(ErrorView::NullItem { item: state.file_name })),
                ..state
            }
        },
        (Stage::ItemResolved, ResponseView::Attribute { value }) => match value {
            None => AttrQueryView {
                stage: Stage::Finished,
                result: Some(Err(ErrorView::NullAttribute { attr: state.attr_name })),
                ..state
            },
            Some(raw) => AttrQueryView {
                stage: Stage::AttributeFetched,
                result: Some(
                    match T::converted(raw) {
                        Some(typed) => Ok(typed),
                        None => Err(
                            ErrorView::ConversionError {
                                attr: state.attr_name,
                                real_type: raw.tag().label(),
                            },
                        ),
                    },
                ),
                ..state
            },
        },
        (Stage::AttributeFetched, ResponseView::Released) => AttrQueryView {
            stage: Stage::Finished,
            ..state
        },
        _ => state.derailed(),
    }
}

/// The mathematical content of the result of a lookup.
pub open spec fn result_view<T: DeepView>(result: Option<Result<T, MetadataError>>) -> Option<
    Result<T::V, ErrorView>,
> {
    match result {
        None => None,
        Some(Ok(typed)) => Some(Ok(typed.deep_view())),
        Some(Err(error)) => Some(Err(error@)),
    }
}

/// The lookup of one attribute of an item, as a `T`.
pub struct AttrQuery<T: FromObjC> {
    file_name: String,
    attr_name: String,
    stage: Stage,
    result: Option<Result<T, MetadataError>>,
}

impl<T: FromObjC> View for AttrQuery<T> {
    type V = AttrQueryView<T::V>;

    closed spec fn view(&self) -> AttrQueryView<T::V> {
        AttrQueryView {
            file_name: self.file_name@,
            attr_name: self.attr_name@,
            stage: self.stage,
            result: result_view(self.result),
        }
    }
}

/// The name under which an error reports the type of a raw value.
pub fn trace_type_id(value: &RawValue) -> (name: &'static str)
    ensures
        name@ == value@.tag().label(),
{
    value.tag().name()
}

/// Begins the lookup of the attribute `attr_name` of the item at
/// `file_name`, to be read as a `T`.
pub fn query_file_attr<T: FromObjC>(file_name: &str, attr_name: &str) -> (lookup: AttrQuery<T>)
    ensures
        lookup@ == AttrQueryView::<T::V>::initial(file_name@, attr_name@),
        lookup@.wf(),
{
    AttrQuery {
        file_name: String::from_str(file_name),
        attr_name: String::from_str(attr_name),
        stage: Stage::Unresolved,
        result: None,
    }
}

/// Begins the lookup of the attribute `attr_name` of an item that the
/// driver already holds, the item that it fetched or resolved last, to be
/// read as a `T`. The item must still be valid: a result of a query is so
/// only while the query is held.
pub fn query_item_attr<T: FromObjC>(attr_name: &str) -> (lookup: AttrQuery<T>)
    ensures
        lookup@ == AttrQueryView::<T::V>::on_item(attr_name@),
        lookup@.wf(),
{
    AttrQuery {
        file_name: String::new(),
        attr_name: String::from_str(attr_name),
        stage: Stage::ItemResolved,
        result: None,
    }
}

impl<T: FromObjC> AttrQuery<T> {
    #[verifier::type_invariant]
    spec fn inv(self) -> bool {
        self@.wf()
    }

    /// The operation that the driver is to perform next.
    pub fn request(&self) -> (request: Request)
        ensures
            request@ == self@.request(),
    {
        match self.stage {
            Stage::Unresolved => Request::ResolveItem { path: self.file_name.clone() },
            Stage::ItemResolved => Request::CopyAttribute { name: self.attr_name.clone() },
            Stage::AttributeFetched => Request::ReleaseValue,
            Stage::Finished => Request::Finish,
        }
    }

    /// Whether the lookup is over, so that its result can be taken.
    pub fn is_finished(&self) -> (finished: bool)
        ensures
            finished == self@.finished(),
    {
        match self.stage {
            Stage::Finished => true,
            _ => false,
        }
    }

    fn decided(self, stage: Stage, result: Result<T, MetadataError>) -> (lookup: AttrQuery<T>)
        requires
            stage is AttributeFetched || stage is Finished,
        ensures
            lookup@ == (AttrQueryView { stage, result: result_view(Some(result)), ..self@ }),
    {
        AttrQuery {
            file_name: self.file_name,
            attr_name: self.attr_name,
            stage,
            result: Some(result),
        }
    }

    fn derailed(self) -> (lookup: AttrQuery<T>)
        ensures
            lookup@ == self@.derailed(),
    {
        proof {
            use_type_invariant(&self);
        }
        match self.stage {
            Stage::Finished => self,
            Stage::AttributeFetched => self.decided(
                Stage::AttributeFetched,
                Err(MetadataError::Unknown),
            ),
            _ => self.decided(Stage::Finished, Err(MetadataError::Unknown)),
        }
    }

    /// Takes the index's answer to the pending request and moves on.
    pub fn step(self, response: Response) -> (lookup: AttrQuery<T>)
        ensures
            lookup@ == lookup_step::<T>(self@, response@),
            lookup@.wf(),
    {
        proof {
            use_type_invariant(&self);
        }
        match (self.stage, response) {
            (Stage::Unresolved, Response::Item { present }) => {
                if present {
                    AttrQuery {
                        file_name: self.file_name,
                        attr_name: self.attr_name,
                        stage: Stage::ItemResolved,
                        result: None,
                    }
                } else {
                    let item = self.file_name.clone();
                    self.decided(Stage::Finished, Err(MetadataError::NullItem { item }))
                }
            },
            (Stage::ItemResolved, Response::Attribute { value }) => {
                match value {
                    None => {
                        let attr = self.attr_name.clone();
                        self.decided(Stage::Finished, Err(MetadataError::NullAttribute { attr }))
                    },
                    Some(raw) => {
                        match T::from_objc(&raw) {
                            Some(typed) => self.decided(Stage::AttributeFetched, Ok(typed)),
                            None => {
                                let attr = self.attr_name.clone();
                                let real_type = String::from_str(trace_type_id(&raw));
                                self.decided(
                                    Stage::AttributeFetched,
                                    Err(MetadataError::ConversionError { attr, real_type }),
                                )
                            },
                        }
                    },
                }
            },
            (Stage::AttributeFetched, Response::Released) => {
                AttrQuery {
                    file_name: self.file_name,
                    attr_name: self.attr_name,
                    stage: Stage::Finished,
                    result: self.result,
                }
            },
            _ => self.derailed(),
        }
    }

    /// Ends the lookup: `None` while it is not over, else the attribute as
    /// a `T`, or why there is none.
    pub fn outcome(self) -> (outcome: Option<Result<T, MetadataError>>)
        ensures
            result_view(outcome) == self@.outcome(),
    {
        match self.stage {
            Stage::Finished => self.result,
            _ => None,
        }
    }
}

} // verus!
