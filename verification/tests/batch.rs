use alloy_rpc_types_trace::parity::TraceResults;
use parity_trace::batch::BatchTracer;
use parity_trace::chain::{BlockId, BlockNumberOrTag, ChainSpec};
use parity_trace::parity::TraceType;
use parity_trace::primitives::B256;
use parity_trace::trace::{EthConfig, TraceApi};
use revm_inspectors::tracing::{StackSnapshotType, TracingInspectorConfig};

fn batch_api() -> TraceApi<()> {
    TraceApi::new(
        (),
        ChainSpec::mainnet(),
        EthConfig { max_tracing_requests: 1, max_trace_filter_blocks: 100 },
    )
}

fn batch_results(output: u8) -> TraceResults {
    TraceResults { output: vec![output].into(), state_diff: None, trace: Vec::new(), vm_trace: None }
}

#[test]
fn trace_call_defaults_to_the_latest_block() {
    let plan = batch_api().trace_call(None, &vec![TraceType::Trace]);
    assert_eq!(plan.at, BlockId::Number(BlockNumberOrTag::Latest));
    assert_eq!(plan.at, BlockId::latest());
}

#[test]
fn trace_call_runs_at_the_block_that_was_asked_for() {
    let api = batch_api();
    let by_number = api.trace_call(Some(BlockId::number(17)), &vec![TraceType::Trace]);
    assert_eq!(by_number.at, BlockId::Number(BlockNumberOrTag::Number(17)));
    let hash = BlockId::Hash { block_hash: B256 { bytes: [3; 32] }, require_canonical: Some(true) };
    assert_eq!(api.trace_call(Some(hash), &vec![]).at, hash);
    let pending = api.trace_call(Some(BlockId::pending()), &vec![]);
    assert_eq!(pending.at, BlockId::Number(BlockNumberOrTag::Pending));
}

#[test]
fn call_tree_alone_records_no_steps() {
    let plan = batch_api().trace_call(None, &vec![TraceType::Trace]);
    assert_eq!(plan.config, TracingInspectorConfig::default_parity());
    assert!(plan.config.record_inputs);
    assert!(!plan.config.record_steps);
    assert_eq!(plan.config.record_stack_snapshots, StackSnapshotType::None);
    assert!(plan.config.exclude_precompile_calls);
}

#[test]
fn vm_trace_records_steps_and_pushes() {
    let plan = batch_api().trace_call(None, &vec![TraceType::Trace, TraceType::VmTrace]);
    assert!(plan.config.record_inputs);
    assert!(plan.config.record_steps);
    assert!(plan.config.record_bytecode);
    assert!(plan.config.record_step_deltas);
    assert_eq!(plan.config.record_stack_snapshots, StackSnapshotType::Pushes);
}

#[test]
fn state_diff_alone_needs_no_inputs() {
    let plan = batch_api().trace_call(None, &vec![TraceType::StateDiff]);
    assert!(!plan.config.record_inputs);
    assert!(!plan.config.record_steps);
}

#[test]
fn repeated_trace_types_configure_like_single_ones() {
    let api = batch_api();
    let once = api.trace_call(None, &vec![TraceType::VmTrace, TraceType::StateDiff]);
    let twice = api.trace_call(
        None,
        &vec![TraceType::StateDiff, TraceType::VmTrace, TraceType::VmTrace, TraceType::StateDiff],
    );
    assert_eq!(once.config, twice.config);
}

#[test]
fn batch_defaults_to_the_pending_block() {
    let (at, _) = batch_api().trace_call_many(vec![vec![TraceType::Trace]], None);
    assert_eq!(at, BlockId::Number(BlockNumberOrTag::Pending));
    let (at, _) = batch_api().trace_call_many(vec![], Some(BlockId::number(5)));
    assert_eq!(at, BlockId::Number(BlockNumberOrTag::Number(5)));
}

#[test]
fn empty_batch_has_nothing_to_run() {
    let (_, batch) = batch_api().trace_call_many(vec![], None);
    assert_eq!(batch.next(), None);
    assert_eq!(batch.into_results(), Vec::new());
}

#[test]
fn batch_of_two_commits_the_first_call_only() {
    let (_, batch) = batch_api()
        .trace_call_many(vec![vec![TraceType::Trace], vec![TraceType::StateDiff]], None);
    let first = batch.next().unwrap();
    assert_eq!(first.index, 0);
    assert!(first.config.record_inputs);
    // the second call must see the first call's writes
    let (batch, commit) = batch.record(batch_results(1));
    assert!(commit);
    let second = batch.next().unwrap();
    assert_eq!(second.index, 1);
    assert!(!second.config.record_inputs);
    // nothing runs after the last call: no commit
    let (batch, commit) = batch.record(batch_results(2));
    assert!(!commit);
    assert_eq!(batch.next(), None);
    assert_eq!(batch.into_results(), vec![batch_results(1), batch_results(2)]);
}

#[test]
fn batch_of_one_never_commits() {
    let batch = BatchTracer::new(vec![vec![TraceType::Trace]]);
    assert_eq!(batch.next().unwrap().index, 0);
    let (batch, commit) = batch.record(batch_results(9));
    assert!(!commit);
    assert_eq!(batch.next(), None);
    assert_eq!(batch.into_results(), vec![batch_results(9)]);
}

#[test]
fn batch_commits_every_call_but_the_last() {
    let n = 5usize;
    let mut batch = BatchTracer::new(vec![vec![TraceType::Trace]; n]);
    let mut commits = 0usize;
    for k in 0..n {
        let step = batch.next().unwrap();
        assert_eq!(step.index, k);
        // call k runs on top of exactly the k calls before it
        assert_eq!(commits, k);
        let (next, commit) = batch.record(batch_results(k as u8));
        batch = next;
        if commit {
            commits += 1;
        }
    }
    assert_eq!(commits, n - 1);
    assert_eq!(batch.next(), None);
    let results = batch.into_results();
    assert_eq!(results.len(), n);
    for (k, result) in results.iter().enumerate() {
        assert_eq!(*result, batch_results(k as u8));
    }
}
