//! Single calls and batches of calls: what to run, where, and when to
//! commit.
//!
//! A batch runs on one overlay of the state at its base block. The node
//! executes each call and applies its changes to the overlay when told
//! to; the `BatchTracer` decides the order and tells it.

use vstd::prelude::*;
use alloy_rpc_types_trace::parity;
use alloy_rpc_types_trace::parity::TraceResults;
use revm_inspectors::tracing::TracingInspectorConfig;
use crate::chain::{BlockId, BlockNumberOrTag};
use crate::parity::TraceType;
use crate::trace::TraceApi;

verus! {

/// `revm_inspectors::tracing::TracingInspectorConfig`, carried from where
/// it is made to the node that runs the inspector; nothing here reads it.
#[verifier::external_type_specification]
#[verifier::external_body]
pub struct ExTracingInspectorConfig(TracingInspectorConfig);

/// The inspector configuration that records what a set of trace types
/// asks for.
pub uninterp spec fn parity_config(trace_types: Set<TraceType>) -> TracingInspectorConfig;

/// `revm_inspectors::tracing::TracingInspectorConfig::from_parity_config`,
/// on the set of the trace types in `trace_types`. The outside function
/// reads of its argument only which types it contains.
#[verifier::external_body]
fn from_parity_config(trace_types: &Vec<TraceType>) -> (r: TracingInspectorConfig)
    ensures
        r == parity_config(trace_types@.to_set()),
{
    let set = trace_types.iter().map(
        |t| match t {
            TraceType::Trace => parity::TraceType::Trace,
            TraceType::VmTrace => parity::TraceType::VmTrace,
            TraceType::StateDiff => parity::TraceType::StateDiff,
        },
    ).collect();
    TracingInspectorConfig::from_parity_config(&set)
}

/// The block that a request names, or `fallback` where it names none.
pub open spec fn block_or(block_id: Option<BlockId>, fallback: BlockId) -> BlockId {
    match block_id {
        Some(id) => id,
        None => fallback,
    }
}

/// Where and how to run one traced execution.
#[derive(Debug, PartialEq, Eq)]
pub struct TracePlan {
    /// The block whose state the execution starts from.
    pub at: BlockId,
    /// What the inspector records.
    pub config: TracingInspectorConfig,
}

/// One step of a batch: which call to run next, and how.
#[derive(Debug, PartialEq, Eq)]
pub struct BatchStep {
    /// The call's position in the batch.
    pub index: usize,
    /// What the inspector records for this call.
    pub config: TracingInspectorConfig,
}

/// The progress of a batch of dependent calls on one overlay.
pub struct BatchTracer {
    trace_types: Vec<Vec<TraceType>>,
    results: Vec<TraceResults>,
}

/// How many calls have been committed to the overlay once `done` calls of
/// a batch of `total` have run: each but the last of the batch.
pub open spec fn committed_after(done: nat, total: nat) -> nat {
    if done < total {
        done
    } else if total == 0 {
        0
    } else {
        (total - 1) as nat
    }
}

impl BatchTracer {
    /// No more results than calls.
    #[verifier::type_invariant]
    spec fn in_step(self) -> bool {
        self.results@.len() <= self.trace_types@.len()
    }

    /// The trace types of each call of the batch, in order.
    pub closed spec fn requested(&self) -> Seq<Vec<TraceType>> {
        self.trace_types@
    }

    /// The results recorded so far, in order.
    pub closed spec fn recorded(&self) -> Seq<TraceResults> {
        self.results@
    }

    /// How many calls the node has been told to commit to the overlay.
    pub open spec fn commits(&self) -> nat {
        committed_after(self.recorded().len(), self.requested().len())
    }

    /// The position of the call to run next, or nothing where the batch
    /// is complete.
    pub open spec fn pending(&self) -> Option<nat> {
        if self.recorded().len() < self.requested().len() {
            Some(self.recorded().len())
        } else {
            None
        }
    }

    /// A batch of which nothing has run yet.
    pub fn new(trace_types: Vec<Vec<TraceType>>) -> (r: BatchTracer)
        ensures
            r.requested() == trace_types@,
            r.recorded() == Seq::<TraceResults>::empty(),
            r.commits() == 0,
    {
        BatchTracer { trace_types, results: Vec::new() }
    }

    /// The call to run next on the overlay, or nothing where every call
    /// has run. When call `k` is handed out, the overlay holds the changes
    /// of the calls before it, and of no other.
    pub fn next(&self) -> (r: Option<BatchStep>)
        ensures
            match self.pending() {
                Some(k) => r matches Some(step) && step.index == k && step.config == parity_config(
                    self.requested()[k as int]@.to_set(),
                ) && self.commits() == k,
                None => r is None,
            },
            self.recorded().len() <= self.requested().len(),
    {
        proof {
            use_type_invariant(self);
        }
        let index = self.results.len();
        if index < self.trace_types.len() {
            Some(BatchStep { index, config: from_parity_config(&self.trace_types[index]) })
        } else {
            None
        }
    }

    /// Records the results of the call that `next` handed out. Returns the
    /// batch as it stands then, and whether the node must now commit that
    /// call's changes to the overlay: it must unless the call was the last
    /// of the batch.
    pub fn record(self, results: TraceResults) -> (r: (BatchTracer, bool))
        requires
            self.pending() is Some,
        ensures
            r.0.requested() == self.requested(),
            r.0.recorded() == self.recorded().push(results),
            r.1 == (r.0.pending() is Some),
            r.0.commits() == self.commits() + if r.1 {
                1nat
            } else {
                0nat
            },
    {
        let BatchTracer { trace_types, results: mut recorded } = self;
        recorded.push(results);
        let commit = recorded.len() < trace_types.len();
        (BatchTracer { trace_types, results: recorded }, commit)
    }

    /// The results of the calls that have run, in the order of the batch.
    pub fn into_results(self) -> (r: Vec<TraceResults>)
        ensures
            r@ == self.recorded(),
    {
        self.results
    }
}

impl<Eth> TraceApi<Eth> {
    /// Where and how to run a single traced call: at the block that the
    /// request names, or at the latest block, recording what the trace
    /// types ask for.
    pub fn trace_call(&self, block_id: Option<BlockId>, trace_types: &Vec<TraceType>) -> (r:
        TracePlan)
        ensures
            r.at == block_or(block_id, BlockId::Number(BlockNumberOrTag::Latest)),
            r.config == parity_config(trace_types@.to_set()),
    {
        let at = match block_id {
            Some(id) => id,
            None => BlockId::latest(),
        };
        TracePlan { at, config: from_parity_config(trace_types) }
    }

    /// Starts a batch of calls, each with its own trace types, on top of
    /// the block that the request names, or of the pending block.
    pub fn trace_call_many(
        &self,
        trace_types: Vec<Vec<TraceType>>,
        block_id: Option<BlockId>,
    ) -> (r: (BlockId, BatchTracer))
        ensures
            r.0 == block_or(block_id, BlockId::Number(BlockNumberOrTag::Pending)),
            r.1.requested() == trace_types@,
            r.1.recorded() == Seq::<TraceResults>::empty(),
            r.1.commits() == 0,
    {
        let at = match block_id {
            Some(id) => id,
            None => BlockId::pending(),
        };
        (at, BatchTracer::new(trace_types))
    }
}

} // verus!
