//! What holds of every query session: the handles it makes its driver hold
//! are all given back, and against an index that answers faithfully it ends
//! with the texts of the result set in the index's order.

use crate::error::ErrorView;
use crate::index::ResponseView;
use crate::spotlight::{extracted_text, Outcome, Phase, QueryRunView};
use crate::value::Value;
use vstd::prelude::*;

verus! {

/// One for a condition that holds, zero for one that does not.
pub open spec fn count_if(condition: bool) -> int {
    if condition {
        1
    } else {
        0
    }
}

/// A step of a session keeps its state well-formed.
pub proof fn lemma_step_keeps_wf(state: QueryRunView, response: ResponseView)
    requires
        state.wf(),
    ensures
        state.step(response).wf(),
{
}

/// A session begins and ends with nothing held.
pub proof fn lemma_nothing_held_at_the_ends(state: QueryRunView)
    requires
        state.phase is Start || state.finished(),
    ensures
        !state.holds_query(),
        !state.holds_value(),
{
}

/// The index is only asked about a query, or about an item of its result
/// set, while the query is held; an attribute is only copied from an item
/// that the index has just handed out.
pub proof fn lemma_requests_need_a_live_query(state: QueryRunView)
    ensures
        state.request() is ExecuteQuery || state.request() is ResultCount || state.request() is ResultAt
            || state.request() is CopyAttribute || state.request() is ReleaseQuery
            ==> state.holds_query(),
        state.request() is CopyAttribute ==> state.phase is ItemReady,
        state.request() is ReleaseValue <==> state.holds_value(),
        !(state.request() is ResolveItem),
{
}

/// A response of another kind than the pending request is answered with
/// derails the session: it fails, and goes on only to release what is held.
pub proof fn lemma_wrong_response_derails(state: QueryRunView, response: ResponseView)
    requires
        !state.request().answered_by(response),
    ensures
        state.step(response) == state.derailed(),
{
}

/// Over one step, what the driver holds changes by exactly what the
/// response handed out and what the request gave back.
pub proof fn lemma_step_accounts_for_handles(state: QueryRunView, response: ResponseView)
    ensures
        count_if(state.step(response).holds_query()) == count_if(state.holds_query()) + count_if(
            state.request().acquires_query(response),
        ) - count_if(state.request().releases_query(response)),
        count_if(state.step(response).holds_value()) == count_if(state.holds_value()) + count_if(
            state.request().acquires_value(response),
        ) - count_if(state.request().releases_value(response)),
{
}

/// The state that a session reaches from `state` when its requests are
/// answered by `responses`, one after the other.
pub open spec fn after(state: QueryRunView, responses: Seq<ResponseView>) -> QueryRunView
    decreases responses.len(),
{
    if responses.len() == 0 {
        state
    } else {
        after(state, responses.drop_last()).step(responses.last())
    }
}

/// How many handles a driver was given and gave back over a session.
pub struct Ledger {
    pub queries_acquired: int,
    pub queries_released: int,
    pub values_acquired: int,
    pub values_released: int,
}

/// The handles given and given back while `responses` answered the requests
/// of a session that started in `state`.
pub open spec fn ledger(state: QueryRunView, responses: Seq<ResponseView>) -> Ledger
    decreases responses.len(),
{
    if responses.len() == 0 {
        Ledger { queries_acquired: 0, queries_released: 0, values_acquired: 0, values_released: 0 }
    } else {
        let earlier = ledger(state, responses.drop_last());
        let request = after(state, responses.drop_last()).request();
        let response = responses.last();
        Ledger {
            queries_acquired: earlier.queries_acquired + count_if(
                request.acquires_query(response),
            ),
            queries_released: earlier.queries_released + count_if(
                request.releases_query(response),
            ),
            values_acquired: earlier.values_acquired + count_if(request.acquires_value(response)),
            values_released: earlier.values_released + count_if(request.releases_value(response)),
        }
    }
}

/// Whatever the index answers, a session never has its driver hold more
/// than one query and one raw value, and what is held is what was handed
/// out and not yet given back.
pub proof fn lemma_ledger_balances(state: QueryRunView, responses: Seq<ResponseView>)
    ensures
        count_if(after(state, responses).holds_query()) == count_if(state.holds_query()) + ledger(
            state,
            responses,
        ).queries_acquired - ledger(state, responses).queries_released,
        count_if(after(state, responses).holds_value()) == count_if(state.holds_value()) + ledger(
            state,
            responses,
        ).values_acquired - ledger(state, responses).values_released,
    decreases responses.len(),
{
    if responses.len() > 0 {
        lemma_ledger_balances(state, responses.drop_last());
        lemma_step_accounts_for_handles(after(state, responses.drop_last()), responses.last());
    }
}

/// A session that is over has leaked nothing: whatever the index answered
/// on the way, and wherever the session failed, every query and every raw
/// value that was handed out has been released, once.
pub proof fn lemma_finished_session_leaks_nothing(
    start: QueryRunView,
    responses: Seq<ResponseView>,
)
    requires
        start.begins(),
        after(start, responses).finished(),
    ensures
        ledger(start, responses).queries_acquired == ledger(start, responses).queries_released,
        ledger(start, responses).values_acquired == ledger(start, responses).values_released,
{
    lemma_ledger_balances(start, responses);
}

/// What the index holds at one position of a result set: an item or none,
/// and for an item the value of the selected attribute, if it carries one.
pub struct Row {
    pub present: bool,
    pub value: Option<Value>,
}

impl Row {
    /// The text that a session collects from this position, if any.
    pub open spec fn text(self) -> Option<Seq<char>> {
        if self.present {
            match self.value {
                Some(value) => extracted_text(value),
                None => None,
            }
        } else {
            None
        }
    }

    /// The number of requests that a session spends on this position.
    pub open spec fn steps(self) -> nat {
        if !self.present {
            1
        } else if self.value is None {
            2
        } else {
            3
        }
    }
}

/// [`Row::text`] as a function value.
pub open spec fn row_text() -> spec_fn(Row) -> Option<Seq<char>> {
    |row: Row| row.text()
}

/// How an index answers one query: whether it creates it, whether it runs
/// it, and the result set.
pub struct Answers {
    pub created: bool,
    pub executed: bool,
    pub rows: Seq<Row>,
}

impl Answers {
    /// The response of this index to the request that `state` is waiting for.
    pub open spec fn reply(self, state: QueryRunView) -> ResponseView {
        match state.phase {
            Phase::Start => ResponseView::QueryCreated { ok: self.created },
            Phase::Created => ResponseView::QueryExecuted { ok: self.executed },
            Phase::Executed => ResponseView::ResultCount { count: self.rows.len() as int },
            Phase::Fetching => ResponseView::Item { present: self.rows[state.next as int].present },
            Phase::ItemReady => ResponseView::Attribute {
                value: self.rows[state.next as int].value,
            },
            Phase::ValueHeld => ResponseView::Released,
            Phase::Closing => ResponseView::Released,
            Phase::Done => ResponseView::Released,
        }
    }

    /// The texts of the result set, in its order: one for each position
    /// that holds an item whose attribute is text.
    pub open spec fn collected(self) -> Seq<Seq<char>> {
        self.rows.filter_map(row_text())
    }

    /// What a query against this index is to end with.
    pub open spec fn expected(self) -> Outcome {
        if !self.created {
            Err(ErrorView::QueryCreationFailed)
        } else if !self.executed {
            Err(ErrorView::QueryExecutionFailed)
        } else {
            Ok(self.collected())
        }
    }

    /// The number of requests after which a session against this index is
    /// over.
    pub open spec fn steps_needed(self) -> nat {
        if !self.created {
            1
        } else if !self.executed {
            3
        } else {
            3 + steps_from(self.rows, 0)
        }
    }
}

/// The number of requests that a session spends on the positions from
/// `from` on and on the release of the query.
pub open spec fn steps_from(rows: Seq<Row>, from: nat) -> nat
    decreases rows.len() - from,
{
    if from >= rows.len() {
        1
    } else {
        rows[from as int].steps() + steps_from(rows, from + 1)
    }
}

/// The state of a session after `steps` requests, each answered by the
/// index `answers`.
pub open spec fn drive(state: QueryRunView, answers: Answers, steps: nat) -> QueryRunView
    decreases steps,
{
    if steps == 0 {
        state
    } else {
        drive(state.step(answers.reply(state)), answers, (steps - 1) as nat)
    }
}

proof fn lemma_drive_finished(state: QueryRunView, answers: Answers, steps: nat)
    requires
        state.finished(),
    ensures
        drive(state, answers, steps) == state,
    decreases steps,
{
    if steps > 0 {
        assert(state.step(answers.reply(state)) == state);
        lemma_drive_finished(state, answers, (steps - 1) as nat);
    }
}

proof fn lemma_drive_split(state: QueryRunView, answers: Answers, first: nat, then: nat)
    ensures
        drive(state, answers, first + then) == drive(drive(state, answers, first), answers, then),
    decreases first,
{
    if first > 0 {
        lemma_drive_split(
            state.step(answers.reply(state)),
            answers,
            (first - 1) as nat,
            then,
        );
    }
}

proof fn lemma_drive_rows(state: QueryRunView, answers: Answers)
    requires
        state.wf(),
        state.failure is None,
        state.count == answers.rows.len(),
        state == state.at_row(state.next),
        state.found == answers.rows.take(state.next as int).filter_map(row_text()),
    ensures
        drive(state, answers, steps_from(answers.rows, state.next)) == (QueryRunView {
            phase: Phase::Done,
            next: state.count,
            found: answers.collected(),
            ..state
        }),
    decreases state.count - state.next,
{
    let rows = answers.rows;
    let at = state.next;
    if at >= rows.len() {
        assert(rows.take(at as int) =~= rows);
        let end = state.step(answers.reply(state));
        assert(drive(state, answers, 1) == drive(end, answers, 0));
    } else {
        let row = rows[at as int];
        rows.lemma_filter_map_take_succ(row_text(), at as int);
        let rest = steps_from(rows, at + 1);
        let first = state.step(answers.reply(state));
        assert(drive(state, answers, row.steps() + rest) == drive(
            first,
            answers,
            (row.steps() + rest - 1) as nat,
        ));
        if !row.present {
            lemma_drive_rows(first, answers);
        } else {
            let second = first.step(answers.reply(first));
            assert(drive(first, answers, (row.steps() + rest - 1) as nat) == drive(
                second,
                answers,
                (row.steps() + rest - 2) as nat,
            ));
            if row.value is None {
                lemma_drive_rows(second, answers);
            } else {
                let third = second.step(answers.reply(second));
                assert(drive(second, answers, (row.steps() + rest - 2) as nat) == drive(
                    third,
                    answers,
                    (row.steps() + rest - 3) as nat,
                ));
                assert(third.found =~= rows.take(at as int + 1).filter_map(row_text()));
                lemma_drive_rows(third, answers);
            }
        }
    }
}

/// Against an index that answers each request faithfully, a session is over
/// after a bounded number of requests and ends as the index's answers
/// demand: with the error of a query that was not created or did not run,
/// else with the texts of the result set in the order in which the index
/// enumerates it, the positions without an item, without the attribute or
/// with an attribute that is not text left out. The outcome depends on the
/// answers alone, so a second run against an unchanged index ends the same.
pub proof fn lemma_session_collects_in_order(start: QueryRunView, answers: Answers, steps: nat)
    requires
        start.begins(),
        answers.rows.len() <= isize::MAX,
        steps >= answers.steps_needed(),
    ensures
        drive(start, answers, steps).outcome() == Some(answers.expected()),
        !drive(start, answers, steps).holds_query(),
        !drive(start, answers, steps).holds_value(),
{
    let needed = answers.steps_needed();
    lemma_drive_split(start, answers, needed, (steps - needed) as nat);
    let created = start.step(answers.reply(start));
    assert(drive(start, answers, needed) == drive(created, answers, (needed - 1) as nat));
    if !answers.created {
        lemma_drive_finished(created, answers, (steps - needed) as nat);
    } else {
        let executed = created.step(answers.reply(created));
        assert(drive(created, answers, (needed - 1) as nat) == drive(
            executed,
            answers,
            (needed - 2) as nat,
        ));
        let counted = executed.step(answers.reply(executed));
        assert(drive(executed, answers, (needed - 2) as nat) == drive(
            counted,
            answers,
            (needed - 3) as nat,
        ));
        if !answers.executed {
            lemma_drive_finished(counted, answers, (steps - needed) as nat);
        } else {
            assert(answers.rows.take(0) =~= Seq::<Row>::empty());
            lemma_drive_rows(counted, answers);
            lemma_drive_finished(
                drive(counted, answers, (needed - 3) as nat),
                answers,
                (steps - needed) as nat,
            );
        }
    }
}

/// The positions of a result set from which a session collects a text, in
/// ascending order.
pub open spec fn collected_from(rows: Seq<Row>) -> Seq<int>
    decreases rows.len(),
{
    if rows.len() == 0 {
        Seq::empty()
    } else if rows.last().text() is Some {
        collected_from(rows.drop_last()).push(rows.len() - 1)
    } else {
        collected_from(rows.drop_last())
    }
}

/// The collected texts follow the result set: each comes from a position of
/// the result set, the positions ascend, so that two texts stand in the
/// order of the items they come from, and no position that yields a text
/// is passed over.
pub proof fn lemma_collected_keeps_index_order(rows: Seq<Row>)
    ensures
        rows.filter_map(row_text()).len() == collected_from(rows).len(),
        forall|i: int|
            0 <= i < collected_from(rows).len() ==> 0 <= (#[trigger] collected_from(rows)[i])
                < rows.len() && rows[collected_from(rows)[i]].text() == Some(
                rows.filter_map(row_text())[i],
            ),
        forall|i: int, j: int|
            0 <= i < j < collected_from(rows).len() ==> (#[trigger] collected_from(rows)[i]) < (
            #[trigger] collected_from(rows)[j]),
        forall|at: int|
            0 <= at < rows.len() && (#[trigger] rows[at]).text() is Some ==> collected_from(
                rows,
            ).contains(at),
    decreases rows.len(),
{
    if rows.len() > 0 {
        let shorter = rows.drop_last();
        lemma_collected_keeps_index_order(shorter);
        let earlier = collected_from(shorter);
        let whole = collected_from(rows);
        assert forall|at: int| 0 <= at < rows.len() && (#[trigger] rows[at]).text() is Some implies whole.contains(
            at,
        ) by {
            if at < shorter.len() {
                assert(shorter[at] == rows[at]);
                let i = choose|i: int| 0 <= i < earlier.len() && earlier[i] == at;
                assert(whole[i] == at);
            } else {
                assert(whole[whole.len() - 1] == at);
            }
        }
        assert forall|i: int| 0 <= i < whole.len() implies 0 <= (#[trigger] whole[i]) < rows.len()
            && rows[whole[i]].text() == Some(rows.filter_map(row_text())[i]) by {
            if i < earlier.len() {
                assert(shorter[earlier[i]] == rows[earlier[i]]);
            }
        }
    }
}

} // verus!
