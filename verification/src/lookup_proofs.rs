//! What holds of every attribute lookup: the raw value it makes its driver
//! hold is given back, and against an index that answers faithfully it ends
//! with the attribute in the type asked for, or with the error that says
//! why not.

use crate::error::ErrorView;
use crate::from_objc::FromObjC;
use crate::index::ResponseView;
use crate::mds::{lookup_step, AttrQueryView, Stage};
use crate::query_proofs::count_if;
use crate::value::Value;
use vstd::prelude::*;

verus! {

/// A step of a lookup keeps its state well-formed.
pub proof fn lemma_lookup_step_keeps_wf<T: FromObjC>(
    state: AttrQueryView<T::V>,
    response: ResponseView,
)
    requires
        state.wf(),
    ensures
        lookup_step::<T>(state, response).wf(),
{
}

/// An attribute is only copied from an item that the index has just
/// resolved, and a lookup never asks for a query.
pub proof fn lemma_lookup_requests<V>(state: AttrQueryView<V>)
    ensures
        state.request() is CopyAttribute ==> state.stage is ItemResolved,
        state.request() is ReleaseValue <==> state.holds_value(),
        state.request() is ResolveItem || state.request() is CopyAttribute
            || state.request() is ReleaseValue || state.request() is Finish,
{
}

/// A response of another kind than the pending request is answered with
/// derails the lookup: it fails, and goes on only to release what is held.
pub proof fn lemma_wrong_response_derails_lookup<T: FromObjC>(
    state: AttrQueryView<T::V>,
    response: ResponseView,
)
    requires
        !state.request().answered_by(response),
    ensures
        lookup_step::<T>(state, response) == state.derailed(),
{
}

/// Over one step, the raw value that the driver holds changes by exactly
/// what the response handed out and what the request gave back.
pub proof fn lemma_lookup_step_accounts_for_value<T: FromObjC>(
    state: AttrQueryView<T::V>,
    response: ResponseView,
)
    ensures
        count_if(lookup_step::<T>(state, response).holds_value()) == count_if(state.holds_value())
            + count_if(state.request().acquires_value(response)) - count_if(
            state.request().releases_value(response),
        ),
{
}

/// The state that a lookup of a `T` reaches from `state` when its requests
/// are answered by `responses`, one after the other.
pub open spec fn lookup_after<T: FromObjC>(
    state: AttrQueryView<T::V>,
    responses: Seq<ResponseView>,
) -> AttrQueryView<T::V>
    decreases responses.len(),
{
    if responses.len() == 0 {
        state
    } else {
        lookup_step::<T>(lookup_after::<T>(state, responses.drop_last()), responses.last())
    }
}

/// How many raw values were handed out, less how many were given back,
/// while `responses` answered the requests of a lookup that started in
/// `state`.
pub open spec fn values_outstanding<T: FromObjC>(
    state: AttrQueryView<T::V>,
    responses: Seq<ResponseView>,
) -> int
    decreases responses.len(),
{
    if responses.len() == 0 {
        0
    } else {
        let request = lookup_after::<T>(state, responses.drop_last()).request();
        values_outstanding::<T>(state, responses.drop_last()) + count_if(
            request.acquires_value(responses.last()),
        ) - count_if(request.releases_value(responses.last()))
    }
}

/// Whatever the index answers, a lookup never has its driver hold more than
/// one raw value, and a lookup that is over has leaked none: the value that
/// was handed out has been released, on success, on a type mismatch and on
/// every other failure alike.
pub proof fn lemma_lookup_leaks_nothing<T: FromObjC>(
    start: AttrQueryView<T::V>,
    responses: Seq<ResponseView>,
)
    requires
        start.begins(),
    ensures
        values_outstanding::<T>(start, responses) == count_if(
            lookup_after::<T>(start, responses).holds_value(),
        ),
        lookup_after::<T>(start, responses).finished() ==> values_outstanding::<T>(
            start,
            responses,
        ) == 0,
    decreases responses.len(),
{
    if responses.len() > 0 {
        lemma_lookup_leaks_nothing::<T>(start, responses.drop_last());
        lemma_lookup_step_accounts_for_value::<T>(
            lookup_after::<T>(start, responses.drop_last()),
            responses.last(),
        );
    }
}

/// What the index holds for one path and one attribute name: whether the
/// path resolves to an item, and the value of the attribute if the item
/// carries it. For a lookup on an item that the driver already holds, only
/// the attribute counts.
pub struct Holding {
    pub item: bool,
    pub attribute: Option<Value>,
}

impl Holding {
    /// The response of this index to the request that `state` is waiting for.
    pub open spec fn reply<V>(self, state: AttrQueryView<V>) -> ResponseView {
        match state.stage {
            Stage::Unresolved => ResponseView::Item { present: self.item },
            Stage::ItemResolved => ResponseView::Attribute { value: self.attribute },
            Stage::AttributeFetched => ResponseView::Released,
            Stage::Finished => ResponseView::Released,
        }
    }

    /// What a lookup of a `T` that begins in `start` is to end with.
    pub open spec fn expected<T: FromObjC>(self, start: AttrQueryView<T::V>) -> Result<
        T::V,
        ErrorView,
    > {
        if start.stage is Unresolved && !self.item {
            Err(ErrorView::NullItem { item: start.file_name })
        } else {
            match self.attribute {
                None => Err(ErrorView::NullAttribute { attr: start.attr_name }),
                Some(raw) => match T::converted(raw) {
                    Some(typed) => Ok(typed),
                    None => Err(
                        ErrorView::ConversionError {
                            attr: start.attr_name,
                            real_type: raw.tag().label(),
                        },
                    ),
                },
            }
        }
    }
}

/// The state of a lookup of a `T` after `steps` requests, each answered by
/// the index `holding`.
pub open spec fn lookup_drive<T: FromObjC>(
    state: AttrQueryView<T::V>,
    holding: Holding,
    steps: nat,
) -> AttrQueryView<T::V>
    decreases steps,
{
    if steps == 0 {
        state
    } else {
        lookup_drive::<T>(
            lookup_step::<T>(state, holding.reply(state)),
            holding,
            (steps - 1) as nat,
        )
    }
}

proof fn lemma_lookup_drive_finished<T: FromObjC>(
    state: AttrQueryView<T::V>,
    holding: Holding,
    steps: nat,
)
    requires
        state.finished(),
    ensures
        lookup_drive::<T>(state, holding, steps) == state,
    decreases steps,
{
    if steps > 0 {
        assert(lookup_step::<T>(state, holding.reply(state)) == state);
        lemma_lookup_drive_finished::<T>(state, holding, (steps - 1) as nat);
    }
}

/// Against an index that answers each request faithfully, a lookup is over
/// after three requests at most and ends as the index's holding demands:
/// with `NullItem` where the path resolves to nothing, with `NullAttribute`
/// where the item does not carry the attribute, with the converted value
/// where the raw value converts to the type asked for, and else with a
/// `ConversionError` that names the type under which the value is stored.
pub proof fn lemma_lookup_ends_as_expected<T: FromObjC>(
    start: AttrQueryView<T::V>,
    holding: Holding,
    steps: nat,
)
    requires
        start.begins(),
        steps >= 3,
    ensures
        lookup_drive::<T>(start, holding, steps).outcome() == Some(holding.expected::<T>(start)),
        !lookup_drive::<T>(start, holding, steps).holds_value(),
{
    let first = lookup_step::<T>(start, holding.reply(start));
    let second = lookup_step::<T>(first, holding.reply(first));
    let third = lookup_step::<T>(second, holding.reply(second));
    assert(lookup_drive::<T>(start, holding, steps) == lookup_drive::<T>(
        first,
        holding,
        (steps - 1) as nat,
    ));
    assert(lookup_drive::<T>(first, holding, (steps - 1) as nat) == lookup_drive::<T>(
        second,
        holding,
        (steps - 2) as nat,
    ));
    assert(lookup_drive::<T>(second, holding, (steps - 2) as nat) == lookup_drive::<T>(
        third,
        holding,
        (steps - 3) as nat,
    ));
    assert(third.finished());
    lemma_lookup_drive_finished::<T>(third, holding, (steps - 3) as nat);
}

/// A lookup succeeds only with a value of the type asked for: the item
/// carries the attribute, the raw value bears the tag that the type wants,
/// and the result is that value converted.
pub proof fn lemma_success_has_wanted_tag<T: FromObjC>(
    start: AttrQueryView<T::V>,
    holding: Holding,
)
    requires
        start.begins(),
        holding.expected::<T>(start) is Ok,
    ensures
        start.stage is Unresolved ==> holding.item,
        holding.attribute is Some,
        holding.attribute->0.tag() == T::wanted(),
        Some(holding.expected::<T>(start)->Ok_0) == T::converted(holding.attribute->0),
{
    T::lemma_converts_only_wanted_tag(holding.attribute->0);
}

/// An attribute that the item does not carry is reported as
/// `NullAttribute`, whatever the type asked for; no value stands in for it.
pub proof fn lemma_absent_attribute_is_null_attribute<T: FromObjC>(
    start: AttrQueryView<T::V>,
    holding: Holding,
)
    requires
        start.begins(),
        holding.item,
        holding.attribute is None,
    ensures
        holding.expected::<T>(start) == Err::<T::V, ErrorView>(
            ErrorView::NullAttribute { attr: start.attr_name },
        ),
{
}

/// A raw value that bears another tag than the type asked for wants is
/// reported as a `ConversionError` that names the tag it bears.
pub proof fn lemma_mismatch_names_stored_type<T: FromObjC>(
    start: AttrQueryView<T::V>,
    holding: Holding,
)
    requires
        start.begins(),
        holding.item,
        holding.attribute is Some,
        holding.attribute->0.tag() != T::wanted(),
    ensures
        holding.expected::<T>(start) == Err::<T::V, ErrorView>(
            ErrorView::ConversionError {
                attr: start.attr_name,
                real_type: holding.attribute->0.tag().label(),
            },
        ),
{
    T::lemma_converts_only_wanted_tag(holding.attribute->0);
}

} // verus!
