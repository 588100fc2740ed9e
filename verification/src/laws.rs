//! What holds of the service in every state, stated over the models of the
//! slot and of the gateway's replies.

use vstd::prelude::*;
use crate::cache::{SlotView, WarmupOutcome};
use crate::gateway::{
    populated, readiness_of, tokenize_outcome, unavailable, ResponseView, Status,
};
use crate::resolver::{alias_of, resolved};
use crate::table::{encoding_of, model_table, Table};

verus! {

/// The slot after a history of writes: each entry stands for one call of
/// `apply`, so a loaded table for a `write_once`, a bypass for a
/// `mark_ready_without_resource`, and a failure for a warmup that wrote
/// nothing.
pub open spec fn after_all(slot: SlotView, history: Seq<WarmupOutcome>) -> SlotView
    decreases history.len(),
{
    if history.len() == 0 {
        slot
    } else {
        after_all(slot, history.drop_last()).applied(history.last())
    }
}

/// While the slot is not ready, the readiness probe answers unavailable, and
/// tokenize answers unavailable with no ids and no tokens, whatever the input.
pub proof fn lemma_not_ready_serves_nothing(slot: SlotView, input: Seq<char>)
    requires
        slot.wf(),
        !slot.ready,
    ensures
        readiness_of(slot.ready).0 == Status::ServiceUnavailable,
        readiness_of(slot.ready).0.spec_code() == 503,
        tokenize_outcome(slot.resource, input) == (Status::ServiceUnavailable, unavailable()),
        unavailable().ids.len() == 0,
        unavailable().tokens.len() == 0,
{
}

/// A slot at process start is well formed and not ready, and a warmup that
/// fails leaves it so.
pub proof fn lemma_fresh_slot(failure: crate::resolver::ResolutionFailure)
    ensures
        SlotView::fresh().wf(),
        !SlotView::fresh().ready,
        SlotView::fresh().applied(WarmupOutcome::Failed(failure)) == SlotView::fresh(),
{
}

/// Once a table has been written to a fresh slot, the readiness probe
/// answers 200 and tokenize is served from that table.
pub proof fn lemma_loaded_is_ready(table: Table, input: Seq<char>)
    ensures
        ({
            let slot = SlotView::fresh().written(table);
            &&& slot.wf()
            &&& slot.resource == Some(table)
            &&& readiness_of(slot.ready).0 == Status::Success
            &&& readiness_of(slot.ready).0.spec_code() == 200
            &&& tokenize_outcome(slot.resource, input) == (
                Status::Success,
                populated(encoding_of(table, input)),
            )
        }),
{
}

/// A warmup takes a fresh slot to one of three states and no other: loaded
/// and ready, empty and not ready, or empty and ready.
pub proof fn lemma_warmup_ends_in_one_of_three(outcome: WarmupOutcome)
    ensures
        ({
            let slot = SlotView::fresh().applied(outcome);
            match outcome {
                WarmupOutcome::Loaded(table) => slot == (SlotView {
                    resource: Some(table),
                    ready: true,
                }),
                WarmupOutcome::Failed(_) => slot == (SlotView { resource: None, ready: false }),
                WarmupOutcome::Bypassed => slot == (SlotView { resource: None, ready: true }),
            }
        }),
{
}

/// Every write keeps a slot well formed.
pub proof fn lemma_writes_keep_wf(slot: SlotView, history: Seq<WarmupOutcome>)
    requires
        slot.wf(),
    ensures
        after_all(slot, history).wf(),
    decreases history.len(),
{
    if history.len() > 0 {
        lemma_writes_keep_wf(slot, history.drop_last());
    }
}

/// Readiness never reverts: a slot that is ready stays ready through every
/// history of writes.
pub proof fn lemma_ready_is_stable(slot: SlotView, history: Seq<WarmupOutcome>)
    requires
        slot.ready,
    ensures
        after_all(slot, history).ready,
        readiness_of(after_all(slot, history).ready).0 == Status::Success,
    decreases history.len(),
{
    if history.len() > 0 {
        lemma_ready_is_stable(slot, history.drop_last());
    }
}

/// Single assignment: a table that the slot holds is never cleared or
/// replaced, through every history of writes.
pub proof fn lemma_resource_is_stable(slot: SlotView, history: Seq<WarmupOutcome>)
    requires
        slot.resource is Some,
    ensures
        after_all(slot, history).resource == slot.resource,
    decreases history.len(),
{
    if history.len() > 0 {
        lemma_resource_is_stable(slot, history.drop_last());
    }
}

/// Tokenize is a function of the table and the input: two replies to the
/// same input on the same table hold the same ids and the same tokens.
pub proof fn lemma_tokenize_is_deterministic(
    snapshot: Option<Table>,
    input: Seq<char>,
    first: (Status, ResponseView),
    second: (Status, ResponseView),
)
    requires
        first == tokenize_outcome(snapshot, input),
        second == tokenize_outcome(snapshot, input),
    ensures
        first.0 == second.0,
        first.1.ids == second.1.ids,
        first.1.tokens == second.1.tokens,
{
}

/// A reply holds as many tokens as ids.
pub proof fn lemma_tokenize_lengths(snapshot: Option<Table>, input: Seq<char>)
    ensures
        tokenize_outcome(snapshot, input).1.ids.len() == tokenize_outcome(
            snapshot,
            input,
        ).1.tokens.len(),
{
}

/// A scheme name of the alias table that is no model name itself resolves
/// wherever the model that stands for it loads, and to that model's table.
pub proof fn lemma_alias_resolves(name: Seq<char>)
    requires
        alias_of(name) is Some,
        model_table(name) is Err,
        model_table(alias_of(name).unwrap()) is Ok,
    ensures
        resolved(name) is Ok,
        resolved(name) == model_table(alias_of(name).unwrap()),
{
}

/// A name that loads resolves to its own table, whatever the alias table
/// holds for it.
pub proof fn lemma_direct_name_wins(name: Seq<char>)
    requires
        model_table(name) is Ok,
    ensures
        resolved(name) == model_table(name),
{
}

/// A name that does not load and has no alias fails, with the message of its
/// own load.
pub proof fn lemma_unknown_name_fails(name: Seq<char>)
    requires
        alias_of(name) is None,
        model_table(name) is Err,
    ensures
        resolved(name) is Err,
        resolved(name) == model_table(name),
{
}

/// A reply of tokenize is whole: either unavailable with nothing in it, or
/// served with every id of the input and the display form of each.
pub proof fn lemma_tokenize_all_or_nothing(
    snapshot: Option<Table>,
    input: Seq<char>,
)
    ensures
        ({
            let reply = tokenize_outcome(snapshot, input);
            ||| (snapshot is None && reply == (Status::ServiceUnavailable, unavailable()))
            ||| (snapshot is Some && reply == (
                Status::Success,
                populated(encoding_of(snapshot.unwrap(), input)),
            ))
        }),
{
}

/// The bypass: marking a fresh slot ready without a table makes the
/// readiness probe answer 200 while tokenize stays unavailable and empty,
/// and no later write changes that.
pub proof fn lemma_bypass_is_terminal(history: Seq<WarmupOutcome>, input: Seq<char>)
    ensures
        ({
            let bypassed = SlotView::fresh().applied(WarmupOutcome::Bypassed);
            let later = after_all(bypassed, history);
            &&& later == bypassed
            &&& readiness_of(later.ready).0 == Status::Success
            &&& tokenize_outcome(later.resource, input) == (
                Status::ServiceUnavailable,
                unavailable(),
            )
        }),
    decreases history.len(),
{
    if history.len() > 0 {
        lemma_bypass_is_terminal(history.drop_last(), input);
    }
}

} // verus!
