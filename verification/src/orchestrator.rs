//! The client-side batch: a fixed number of measurement calls issued under a
//! concurrency limit.
//!
//! The batch itself performs no I/O. It is a state machine: the driver asks
//! [`Batch::next_action`] what to do, performs it, and reports back with
//! [`Batch::record_issued`] or [`Batch::record_outcome`]. Every reachable
//! state satisfies [`Batch::wf`], which bounds the calls in flight by the
//! limit and accounts for every issued call.

use vstd::prelude::*;
use crate::response::{CallOutcome, ResponseStats};

verus! {

/// What the driver of a batch has to do next.
#[derive(Clone, Copy, Debug, PartialEq, Eq, Structural)]
pub enum Action {
    /// Start one more call, then report it with `record_issued`.
    Issue,
    /// Wait for any call in flight to end, then report it with `record_outcome`.
    Await,
    /// Every call has been issued and has ended.
    Finish,
}

/// The abstract state of a batch.
pub struct BatchView {
    /// Calls the batch is to make in all.
    pub requests: nat,
    /// Most calls that may be in flight at once.
    pub concurrency: nat,
    /// Calls started so far.
    pub issued: nat,
    /// Calls started and not yet ended.
    pub in_flight: nat,
    /// Calls that ended in a failure.
    pub errors: nat,
    /// Statistics of the calls that succeeded, in the order they ended.
    pub results: Seq<ResponseStats>,
}

impl BatchView {
    /// Calls that have ended, either way.
    pub open spec fn completed(self) -> nat {
        self.results.len() + self.errors
    }

    /// Every call has been issued and has ended.
    pub open spec fn finished(self) -> bool {
        self.issued == self.requests && self.in_flight == 0
    }

    /// A free slot exists and calls remain to be issued.
    pub open spec fn can_issue(self) -> bool {
        self.issued < self.requests && self.in_flight < self.concurrency
    }

    /// The action a driver must take in this state.
    pub open spec fn action(self) -> Action {
        if self.can_issue() {
            Action::Issue
        } else if self.in_flight > 0 {
            Action::Await
        } else {
            Action::Finish
        }
    }

    /// Accepted reports still to come before the batch is finished: one per
    /// call to issue and one per call to end.
    pub open spec fn remaining_steps(self) -> int {
        2 * self.requests - self.issued - self.completed()
    }

    /// The state after one more call has been started.
    pub open spec fn after_issue(self) -> BatchView {
        BatchView { issued: self.issued + 1, in_flight: self.in_flight + 1, ..self }
    }

    /// The state after a call in flight has ended with `outcome`.
    pub open spec fn after_outcome(self, outcome: CallOutcome) -> BatchView {
        match outcome {
            CallOutcome::Completed(stats) => BatchView {
                in_flight: (self.in_flight - 1) as nat,
                results: self.results.push(stats),
                ..self
            },
            CallOutcome::TransportFailure => BatchView {
                in_flight: (self.in_flight - 1) as nat,
                errors: self.errors + 1,
                ..self
            },
        }
    }

    /// The invariant of every reachable state.
    pub open spec fn inv(self) -> bool {
        &&& self.requests >= 1
        &&& self.concurrency >= 1
        &&& self.requests <= u32::MAX
        &&& self.issued <= self.requests
        &&& self.in_flight <= self.concurrency
        &&& self.completed() + self.in_flight == self.issued
    }
}

/// A batch of measurement calls against one endpoint.
pub struct Batch {
    requests: u32,
    concurrency: u32,
    issued: u32,
    in_flight: u32,
    errors: u32,
    results: Vec<ResponseStats>,
}

impl View for Batch {
    type V = BatchView;

    closed spec fn view(&self) -> BatchView {
        BatchView {
            requests: self.requests as nat,
            concurrency: self.concurrency as nat,
            issued: self.issued as nat,
            in_flight: self.in_flight as nat,
            errors: self.errors as nat,
            results: self.results@,
        }
    }
}

impl Batch {
    /// The state is one that `new` and the two reports can reach.
    pub open spec fn wf(&self) -> bool {
        self@.inv()
    }

    /// A batch of `requests` calls with at most `concurrency` in flight,
    /// none of them issued yet.
    pub fn new(requests: u32, concurrency: u32) -> (batch: Batch)
        requires
            requests >= 1,
            concurrency >= 1,
        ensures
            batch.wf(),
            batch@ == (BatchView {
                requests: requests as nat,
                concurrency: concurrency as nat,
                issued: 0,
                in_flight: 0,
                errors: 0,
                results: Seq::empty(),
            }),
    {
        Batch { requests, concurrency, issued: 0, in_flight: 0, errors: 0, results: Vec::new() }
    }

    /// Calls the batch is to make in all.
    pub fn requests(&self) -> (n: u32)
        ensures
            n == self@.requests,
    {
        self.requests
    }

    /// Most calls that may be in flight at once.
    pub fn concurrency(&self) -> (n: u32)
        ensures
            n == self@.concurrency,
    {
        self.concurrency
    }

    /// Calls started so far.
    pub fn issued(&self) -> (n: u32)
        ensures
            n == self@.issued,
    {
        self.issued
    }

    /// Calls started and not yet ended.
    pub fn in_flight(&self) -> (n: u32)
        ensures
            n == self@.in_flight,
    {
        self.in_flight
    }

    /// Calls that ended in a failure.
    pub fn error_count(&self) -> (n: u32)
        ensures
            n == self@.errors,
    {
        self.errors
    }

    /// Statistics of the calls that succeeded so far.
    pub fn results(&self) -> (results: &Vec<ResponseStats>)
        ensures
            results@ == self@.results,
    {
        &self.results
    }

    /// Whether every call has been issued and has ended.
    pub fn is_finished(&self) -> (done: bool)
        ensures
            done == self@.finished(),
    {
        self.issued == self.requests && self.in_flight == 0
    }

    /// What the driver has to do next: issue while a slot is free and calls
    /// remain, else wait for a call in flight, else finish.
    pub fn next_action(&self) -> (action: Action)
        ensures
            action == self@.action(),
    {
        if self.issued < self.requests && self.in_flight < self.concurrency {
            Action::Issue
        } else if self.in_flight > 0 {
            Action::Await
        } else {
            Action::Finish
        }
    }

    /// Reports that one more call has been started. The report is accepted
    /// exactly when the next action was `Issue`; otherwise the batch is left
    /// as it was.
    pub fn record_issued(&mut self) -> (accepted: bool)
        requires
            old(self).wf(),
        ensures
            final(self).wf(),
            accepted == old(self)@.can_issue(),
            accepted ==> final(self)@ == old(self)@.after_issue(),
            accepted ==> final(self)@.remaining_steps() == old(self)@.remaining_steps() - 1,
            !accepted ==> final(self)@ == old(self)@,
    {
        if self.issued < self.requests && self.in_flight < self.concurrency {
            self.issued = self.issued + 1;
            self.in_flight = self.in_flight + 1;
            true
        } else {
            false
        }
    }

    /// Reports that a call in flight has ended with `outcome`. The report is
    /// accepted exactly when a call was in flight; otherwise the batch is left
    /// as it was. An accepted report frees the call's slot, whichever way the
    /// call ended.
    pub fn record_outcome(&mut self, outcome: CallOutcome) -> (accepted: bool)
        requires
            old(self).wf(),
        ensures
            final(self).wf(),
            accepted == (old(self)@.in_flight > 0),
            accepted ==> final(self)@ == old(self)@.after_outcome(outcome),
            accepted ==> final(self)@.remaining_steps() == old(self)@.remaining_steps() - 1,
            !accepted ==> final(self)@ == old(self)@,
    {
        if self.in_flight == 0 {
            return false;
        }
        self.in_flight = self.in_flight - 1;
        match outcome {
            CallOutcome::Completed(stats) => {
                self.results.push(stats);
            },
            CallOutcome::TransportFailure => {
                self.errors = self.errors + 1;
            },
        }
        true
    }
}

/// The statistics of the calls in `outcomes` that succeeded, in order.
pub open spec fn successes(outcomes: Seq<CallOutcome>) -> Seq<ResponseStats>
    decreases outcomes.len(),
{
    if outcomes.len() == 0 {
        Seq::empty()
    } else {
        match outcomes.first() {
            CallOutcome::Completed(stats) => seq![stats] + successes(outcomes.drop_first()),
            CallOutcome::TransportFailure => successes(outcomes.drop_first()),
        }
    }
}

/// The number of calls in `outcomes` that failed.
pub open spec fn failures(outcomes: Seq<CallOutcome>) -> nat
    decreases outcomes.len(),
{
    if outcomes.len() == 0 {
        0
    } else {
        match outcomes.first() {
            CallOutcome::Completed(_) => failures(outcomes.drop_first()),
            CallOutcome::TransportFailure => 1 + failures(outcomes.drop_first()),
        }
    }
}

/// The state a driver reaches from `state` when it always takes the action
/// the state asks for and the calls end with `outcomes`, in that order. The
/// driver stops at `Finish`, or when it has to wait and no outcome is left.
pub open spec fn driven(state: BatchView, outcomes: Seq<CallOutcome>) -> BatchView
    decreases state.remaining_steps(),
{
    if !state.inv() {
        state
    } else if state.can_issue() {
        driven(state.after_issue(), outcomes)
    } else if state.in_flight > 0 && outcomes.len() > 0 {
        driven(state.after_outcome(outcomes.first()), outcomes.drop_first())
    } else {
        state
    }
}

/// Both reports keep the invariant: a call issued while a slot is free, and
/// a call in flight that ends, lead from a reachable state to a reachable
/// state, one step closer to the end.
pub proof fn lemma_steps_keep_invariant(state: BatchView, outcome: CallOutcome)
    requires
        state.inv(),
    ensures
        state.can_issue() ==> state.after_issue().inv(),
        state.can_issue() ==> state.after_issue().remaining_steps() == state.remaining_steps()
            - 1,
        state.in_flight > 0 ==> state.after_outcome(outcome).inv(),
        state.in_flight > 0 ==> state.after_outcome(outcome).remaining_steps()
            == state.remaining_steps() - 1,
{
}

/// A driver that follows the batch's actions through as many outcomes as
/// calls are still to end finishes the batch: every outcome is recorded,
/// successes in order and failures by count, and the successes and failures
/// together number exactly the calls asked for.
pub proof fn lemma_driven_to_the_end(state: BatchView, outcomes: Seq<CallOutcome>)
    requires
        state.inv(),
        outcomes.len() == state.requests - state.completed(),
    ensures
        driven(state, outcomes).inv(),
        driven(state, outcomes).finished(),
        driven(state, outcomes).requests == state.requests,
        driven(state, outcomes).concurrency == state.concurrency,
        driven(state, outcomes).results == state.results + successes(outcomes),
        driven(state, outcomes).errors == state.errors + failures(outcomes),
        driven(state, outcomes).results.len() + driven(state, outcomes).errors == state.requests,
    decreases state.remaining_steps(),
{
    if state.can_issue() {
        lemma_driven_to_the_end(state.after_issue(), outcomes);
    } else if state.in_flight > 0 {
        let next = state.after_outcome(outcomes.first());
        let rest = outcomes.drop_first();
        lemma_driven_to_the_end(next, rest);
    }
}

/// In every reachable state the calls in flight number at most the limit,
/// and every issued call is in flight, has succeeded or has failed.
pub proof fn lemma_in_flight_bounded(batch: Batch)
    requires
        batch.wf(),
    ensures
        batch@.in_flight <= batch@.concurrency,
        batch@.results.len() + batch@.errors + batch@.in_flight == batch@.issued,
        batch@.issued <= batch@.requests,
{
}

/// Once a batch is finished, its successes and failures together number
/// exactly the calls that were asked for.
pub proof fn lemma_finished_accounts_for_all(batch: Batch)
    requires
        batch.wf(),
        batch@.finished(),
    ensures
        batch@.results.len() + batch@.errors == batch@.requests,
        batch@.remaining_steps() == 0,
{
}

/// A batch is finished exactly when no accepted report remains to come, and
/// exactly when its next action is `Finish`.
pub proof fn lemma_finish_iff_no_steps_remain(batch: Batch)
    requires
        batch.wf(),
    ensures
        batch@.finished() <==> batch@.remaining_steps() == 0,
        batch@.finished() <==> batch@.action() == Action::Finish,
        batch@.remaining_steps() >= 0,
{
}

/// A fresh batch of `requests` calls takes exactly `2 * requests` accepted
/// reports to finish.
pub proof fn lemma_new_batch_steps(batch: Batch)
    requires
        batch.wf(),
        batch@.issued == 0,
    ensures
        batch@.remaining_steps() == 2 * batch@.requests,
        batch@.action() == Action::Issue,
{
}

} // verus!
