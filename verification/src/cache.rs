//! The shared slot that publishes the tokenization table, and the one-shot
//! warmup that fills it.
//!
//! The slot is written at most once. Its readiness flag never goes back to
//! false, and a table that it holds is never cleared or replaced. A caller
//! that shares the slot between tasks puts it behind a lock of its own; the
//! table is built before the lock is taken and published in one step.

use vstd::prelude::*;
use crate::config::Config;
use crate::resolver::{load_tokenizer, resolved, ResolutionFailure};
use crate::table::{copy_table, Table};

verus! {

/// What a slot holds, as a mathematical value.
pub struct SlotView {
    pub resource: Option<Table>,
    pub ready: bool,
}

impl SlotView {
    /// A slot as it is at process start: empty and not ready.
    pub open spec fn fresh() -> SlotView {
        SlotView { resource: None, ready: false }
    }

    /// A slot that holds a table is ready.
    pub open spec fn wf(self) -> bool {
        self.resource is Some ==> self.ready
    }

    /// Whether nothing has been written yet: no table and not ready.
    pub open spec fn is_fresh(self) -> bool {
        self.resource is None && !self.ready
    }

    /// The slot after `write_once`: a fresh slot takes the table and becomes
    /// ready; any other slot stays as it is.
    pub open spec fn written(self, table: Table) -> SlotView {
        if self.is_fresh() {
            SlotView { resource: Some(table), ready: true }
        } else {
            self
        }
    }

    /// The slot after `mark_ready_without_resource`: ready, with whatever it
    /// held.
    pub open spec fn marked(self) -> SlotView {
        SlotView { resource: self.resource, ready: true }
    }

    /// The slot after the outcome of a warmup has been applied to it.
    pub open spec fn applied(self, outcome: WarmupOutcome) -> SlotView {
        match outcome {
            WarmupOutcome::Loaded(table) => self.written(table),
            WarmupOutcome::Failed(_) => self,
            WarmupOutcome::Bypassed => self.marked(),
        }
    }
}

/// How a warmup ended.
pub enum WarmupOutcome {
    /// The table was built.
    Loaded(Table),
    /// The configured name could not be turned into a table.
    Failed(ResolutionFailure),
    /// Warmup is switched off: nothing was built.
    Bypassed,
}

/// The single shared slot: an optional table and a readiness flag.
pub struct ResourceSlot {
    resource: Option<Table>,
    ready: bool,
}

impl View for ResourceSlot {
    type V = SlotView;

    closed spec fn view(&self) -> SlotView {
        SlotView { resource: self.resource, ready: self.ready }
    }
}

impl ResourceSlot {
    #[verifier::type_invariant]
    spec fn inv(self) -> bool {
        self.resource is Some ==> self.ready
    }

    /// The slot at process start: empty and not ready.
    pub fn new() -> (slot: ResourceSlot)
        ensures
            slot@ == SlotView::fresh(),
    {
        ResourceSlot { resource: None, ready: false }
    }

    /// Installs the table and marks the slot ready, if nothing was written
    /// before. A slot that is already ready, with or without a table, stays
    /// as it is: a table is never overwritten. Returns whether the table was
    /// installed.
    pub fn write_once(&mut self, table: Table) -> (installed: bool)
        ensures
            final(self)@ == old(self)@.written(table),
            installed == old(self)@.is_fresh(),
            final(self)@.wf(),
    {
        proof {
            use_type_invariant(&*self);
        }
        if self.resource.is_none() && !self.ready {
            *self = ResourceSlot { resource: Some(table), ready: true };
            true
        } else {
            false
        }
    }

    /// Marks the slot ready and leaves the table, or its absence, as it is.
    pub fn mark_ready_without_resource(&mut self)
        ensures
            final(self)@ == old(self)@.marked(),
            final(self)@.wf(),
    {
        self.ready = true;
    }

    /// Applies the outcome of a warmup: a table is installed, a bypass marks
    /// the slot ready, a failure changes nothing.
    pub fn apply(&mut self, outcome: WarmupOutcome)
        ensures
            final(self)@ == old(self)@.applied(outcome),
            final(self)@.wf(),
    {
        match outcome {
            WarmupOutcome::Loaded(table) => {
                self.write_once(table);
            },
            WarmupOutcome::Failed(_) => {
                proof {
                    use_type_invariant(&*self);
                }
            },
            WarmupOutcome::Bypassed => {
                self.mark_ready_without_resource();
            },
        }
    }

    /// Whether the slot is ready.
    pub fn is_ready(&self) -> (ready: bool)
        ensures
            ready == self@.ready,
    {
        self.ready
    }

    /// Whether the slot holds a table.
    pub fn is_loaded(&self) -> (loaded: bool)
        ensures
            loaded == (self@.resource is Some),
            loaded ==> self@.ready,
    {
        proof {
            use_type_invariant(self);
        }
        self.resource.is_some()
    }

    /// The present state: a copy of the table, if there is one, and the
    /// readiness flag.
    pub fn snapshot(&self) -> (state: (Option<Table>, bool))
        ensures
            state.0 == self@.resource,
            state.1 == self@.ready,
            self@.wf(),
    {
        proof {
            use_type_invariant(self);
        }
        let table = match &self.resource {
            Some(table) => Some(copy_table(table)),
            None => None,
        };
        (table, self.ready)
    }
}

/// What a warmup owes for the two settings it reads: a bypass where warmup is
/// switched off, else the table that the default tokenizer resolves to, or
/// the failure of resolving it.
pub open spec fn warmup_matches(outcome: WarmupOutcome, preload: bool, name: Seq<char>) -> bool {
    match outcome {
        WarmupOutcome::Loaded(table) => preload && resolved(name) == Ok::<
            Table,
            Seq<char>,
        >(table),
        WarmupOutcome::Failed(failure) => preload && resolved(name) == Err::<
            Table,
            Seq<char>,
        >(failure@),
        WarmupOutcome::Bypassed => !preload,
    }
}

/// The one-shot warmup. With warmup switched on it loads the table of the
/// default tokenizer and reports the table or the failure; with warmup
/// switched off it builds nothing and reports the bypass.
pub fn run_warmup(config: &Config) -> (outcome: WarmupOutcome)
    ensures
        warmup_matches(outcome, config.preload, config.default_tokenizer@),
{
    if config.preload {
        match load_tokenizer(config.default_tokenizer.as_str()) {
            Ok(table) => WarmupOutcome::Loaded(table),
            Err(failure) => WarmupOutcome::Failed(failure),
        }
    } else {
        WarmupOutcome::Bypassed
    }
}

} // verus!
