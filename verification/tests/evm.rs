use alloy_primitives::map::HashSet;
use alloy_rpc_types_trace::parity as rpc;
use parity_trace::chain::ChainSpec;
use parity_trace::parity::{
    Action, CallAction, CallOutput, CallType, TraceOutput, TraceType, TransactionInfo,
    TransactionTrace,
};
use parity_trace::primitives::{Address, B256, U256};
use parity_trace::replay::{OpcodeGas, ReplayedTransaction};
use parity_trace::trace::{EthConfig, TraceApi, TracedTransaction};
use revm::context::TxEnv;
use revm::context_interface::result::ResultAndState;
use revm::database::CacheDB;
use revm::database_interface::EmptyDB;
use revm::primitives::TxKind;
use revm::state::{AccountInfo, Bytecode};
use revm::{DatabaseCommit, InspectEvm, MainBuilder, MainContext};
use revm_inspectors::opcode::OpcodeGasInspector;
use revm_inspectors::tracing::parity::populate_state_diff;
use revm_inspectors::tracing::{TracingInspector, TracingInspectorConfig};

type EvmDb = CacheDB<EmptyDB>;

fn evm_api() -> TraceApi<()> {
    TraceApi::new(
        (),
        ChainSpec::mainnet(),
        EthConfig { max_tracing_requests: 1, max_trace_filter_blocks: 100 },
    )
}

fn evm_address(byte: u8) -> alloy_primitives::Address {
    alloy_primitives::Address::repeat_byte(byte)
}

fn evm_tx(caller: u8, to: u8, data: Vec<u8>) -> TxEnv {
    TxEnv {
        caller: evm_address(caller),
        kind: TxKind::Call(evm_address(to)),
        data: data.into(),
        gas_limit: 1_000_000,
        ..Default::default()
    }
}

fn evm_trace(
    db: &mut EvmDb,
    tx: TxEnv,
    config: TracingInspectorConfig,
) -> (TracingInspector, ResultAndState) {
    let mut evm = revm::Context::mainnet()
        .with_db(db)
        .build_mainnet_with_inspector(TracingInspector::new(config));
    let result = evm.inspect_tx(tx).unwrap();
    (evm.inspector, result)
}

fn evm_types(types: &[rpc::TraceType]) -> HashSet<rpc::TraceType> {
    types.iter().copied().collect()
}

fn evm_deploy(db: &mut EvmDb, at: u8, code: Vec<u8>) {
    db.insert_account_info(
        evm_address(at),
        AccountInfo { code: Some(Bytecode::new_raw(code.into())), ..Default::default() },
    );
}

fn evm_amount(v: alloy_primitives::U256) -> U256 {
    let limbs = v.into_limbs();
    U256 {
        hi: (u128::from(limbs[3]) << 64) | u128::from(limbs[2]),
        lo: (u128::from(limbs[1]) << 64) | u128::from(limbs[0]),
    }
}

fn evm_frame(trace: rpc::TransactionTrace) -> TransactionTrace {
    let action = match trace.action {
        rpc::Action::Call(a) => Action::Call(CallAction {
            from: Address { bytes: a.from.into() },
            call_type: match a.call_type {
                rpc::CallType::Call => CallType::Call,
                rpc::CallType::StaticCall => CallType::StaticCall,
                rpc::CallType::DelegateCall => CallType::DelegateCall,
                rpc::CallType::CallCode => CallType::CallCode,
                rpc::CallType::AuthCall => CallType::AuthCall,
                rpc::CallType::None => CallType::Unspecified,
            },
            gas: a.gas,
            input: a.input.to_vec(),
            to: Address { bytes: a.to.into() },
            value: evm_amount(a.value),
        }),
        other => panic!("not a call: {:?}", other),
    };
    let result = trace.result.map(|output| match output {
        rpc::TraceOutput::Call(o) => {
            TraceOutput::Call(CallOutput { gas_used: o.gas_used, output: o.output.to_vec() })
        }
        other => panic!("not a call output: {:?}", other),
    });
    TransactionTrace {
        action,
        error: trace.error,
        result,
        subtraces: trace.subtraces,
        trace_address: trace.trace_address,
    }
}

// CALLDATASIZE PUSH1 0x0f JUMPI
// PUSH1 7 SLOAD PUSH1 0 MSTORE PUSH1 32 PUSH1 0 RETURN
// JUMPDEST PUSH1 7 SLOAD PUSH1 1 ADD PUSH1 7 SSTORE STOP
fn evm_counter_code() -> Vec<u8> {
    vec![
        0x36, 0x60, 0x0f, 0x57, 0x60, 0x07, 0x54, 0x60, 0x00, 0x52, 0x60, 0x20, 0x60, 0x00, 0xf3,
        0x5b, 0x60, 0x07, 0x54, 0x60, 0x01, 0x01, 0x60, 0x07, 0x55, 0x00,
    ]
}

fn evm_word(value: u8) -> Vec<u8> {
    let mut word = vec![0u8; 32];
    word[31] = value;
    word
}

#[test]
fn call_to_a_plain_account_is_one_successful_frame() {
    let api = evm_api();
    let plan = api.trace_call(None, &vec![TraceType::Trace]);
    let mut db = EvmDb::new(EmptyDB::default());
    let (inspector, result) = evm_trace(&mut db, evm_tx(0x01, 0xaa, Vec::new()), plan.config);
    assert!(result.result.is_success());

    let frames: Vec<TransactionTrace> = inspector
        .into_parity_builder()
        .into_transaction_traces()
        .into_iter()
        .map(evm_frame)
        .collect();
    assert_eq!(frames.len(), 1);
    let frame = &frames[0];
    assert_eq!(frame.subtraces, 0);
    assert_eq!(frame.trace_address, Vec::<usize>::new());
    assert_eq!(frame.error, None);
    assert!(matches!(frame.result, Some(TraceOutput::Call(_))));
    match &frame.action {
        Action::Call(call) => {
            assert_eq!(call.to, Address { bytes: [0xaa; 20] });
            assert_eq!(call.from, Address { bytes: [0x01; 20] });
            assert_eq!(call.value, U256::zero());
            assert_eq!(call.input, Vec::<u8>::new());
        }
        other => panic!("not a call: {:?}", other),
    }

    let info = TransactionInfo {
        hash: Some(B256 { bytes: [1; 32] }),
        index: Some(0),
        block_hash: Some(B256 { bytes: [2; 32] }),
        block_number: Some(3),
    };
    let localized =
        api.trace_transaction(Some(TracedTransaction { info, traces: frames.clone() })).unwrap();
    assert_eq!(localized.len(), 1);
    assert_eq!(localized[0].trace, frames[0]);
    assert_eq!(localized[0].transaction_hash, info.hash);
}

#[test]
fn second_call_of_a_batch_sees_the_first_calls_write() {
    let api = evm_api();
    let mut db = EvmDb::new(EmptyDB::default());
    evm_deploy(&mut db, 0xcc, evm_counter_code());
    let calls = vec![evm_tx(0x01, 0xcc, vec![1]), evm_tx(0x02, 0xcc, Vec::new())];
    let trace_types = evm_types(&[rpc::TraceType::Trace]);

    let (_, mut batch) = api
        .trace_call_many(vec![vec![TraceType::Trace], vec![TraceType::Trace]], None);
    let mut calls = calls.into_iter();
    let mut commits = 0;
    while let (Some(step), Some(tx)) = (batch.next(), calls.next()) {
        let (inspector, result) = evm_trace(&mut db, tx, step.config);
        let results = inspector
            .into_parity_builder()
            .into_trace_results_with_state(&result, &trace_types, &db)
            .unwrap();
        let (next, commit) = batch.record(results);
        batch = next;
        if commit {
            db.commit(result.state);
            commits += 1;
        }
    }
    assert_eq!(commits, 1);
    let results = batch.into_results();
    assert_eq!(results.len(), 2);
    assert_eq!(results[0].output.to_vec(), Vec::<u8>::new());
    assert_eq!(results[1].output.to_vec(), evm_word(1));
}

#[test]
fn call_that_is_not_committed_leaves_no_trace_in_the_state() {
    let mut db = EvmDb::new(EmptyDB::default());
    evm_deploy(&mut db, 0xcc, evm_counter_code());
    let config = TracingInspectorConfig::default_parity();
    let (_, _) = evm_trace(&mut db, evm_tx(0x01, 0xcc, vec![1]), config);
    let (_, read) = evm_trace(&mut db, evm_tx(0x02, 0xcc, Vec::new()), config);
    assert_eq!(read.result.output().unwrap().to_vec(), evm_word(0));
}

#[test]
fn replayed_block_has_one_result_with_state_diff_for_each_transaction() {
    let api = evm_api();
    let mut db = EvmDb::new(EmptyDB::default());
    evm_deploy(&mut db, 0xcc, evm_counter_code());
    let requested = vec![TraceType::StateDiff];
    let trace_types = evm_types(&[rpc::TraceType::StateDiff]);
    let config = api.trace_call(None, &requested).config;

    let mut replayed = Vec::new();
    for i in 0..3u8 {
        let (inspector, result) = evm_trace(&mut db, evm_tx(0x10 + i, 0xcc, vec![1]), config);
        let mut full_trace =
            inspector.into_parity_builder().into_trace_results(&result.result, &trace_types);
        if let Some(ref mut state_diff) = full_trace.state_diff {
            populate_state_diff(state_diff, &db, result.state.iter()).unwrap();
        }
        db.commit(result.state);
        replayed.push(ReplayedTransaction {
            info: TransactionInfo {
                hash: Some(B256 { bytes: [0xa0 + i; 32] }),
                index: Some(i as u64),
                block_hash: Some(B256 { bytes: [0xb0; 32] }),
                block_number: Some(1),
            },
            full_trace,
        });
    }

    let keyed = api.replay_block_transactions(Some(replayed)).unwrap();
    assert_eq!(keyed.len(), 3);
    for (i, entry) in keyed.iter().enumerate() {
        assert_eq!(entry.transaction_hash, B256 { bytes: [0xa0 + i as u8; 32] });
        let diff = entry.full_trace.state_diff.as_ref().unwrap();
        // the sender and the contract were touched
        assert!(diff.0.contains_key(&evm_address(0x10 + i as u8)));
        let contract = diff.0.get(&evm_address(0xcc)).unwrap();
        // slot 7 goes from i to i + 1
        let mut slot = [0u8; 32];
        slot[31] = 7;
        let change = contract.storage.get(&alloy_primitives::B256::from(slot)).unwrap();
        let mut expected_from = [0u8; 32];
        expected_from[31] = i as u8;
        let mut expected_to = [0u8; 32];
        expected_to[31] = i as u8 + 1;
        if i == 0 {
            assert!(
                change.is_changed() || change.is_added(),
                "slot 7 is written by the first transaction"
            );
        } else {
            let changed = change.as_changed().unwrap();
            assert_eq!(changed.from, alloy_primitives::B256::from(expected_from));
            assert_eq!(changed.to, alloy_primitives::B256::from(expected_to));
        }
    }
}

#[test]
fn opcode_gas_counts_each_opcode_and_its_gas() {
    let api = evm_api();
    let mut db = EvmDb::new(EmptyDB::default());
    // PUSH1 1 PUSH1 2 ADD PUSH1 3 ADD PUSH1 4 PUSH1 5 STOP
    evm_deploy(
        &mut db,
        0xdd,
        vec![0x60, 0x01, 0x60, 0x02, 0x01, 0x60, 0x03, 0x01, 0x60, 0x04, 0x60, 0x05, 0x00],
    );
    let mut evm = revm::Context::mainnet()
        .with_db(&mut db)
        .build_mainnet_with_inspector(OpcodeGasInspector::default());
    let result = evm.inspect_tx(evm_tx(0x01, 0xdd, Vec::new())).unwrap();
    assert!(result.result.is_success());
    let recorded: Vec<OpcodeGas> = evm
        .inspector
        .opcode_gas_iter()
        .map(|g| OpcodeGas { opcode: g.opcode, count: g.count, gas_used: g.gas_used })
        .collect();

    let hash = B256 { bytes: [9; 32] };
    let summary = api.trace_transaction_opcode_gas(hash, Some(recorded)).unwrap();
    assert_eq!(summary.transaction_hash, hash);
    let of = |name: &str| {
        summary.opcode_gas.iter().find(|g| g.opcode == name).map(|g| (g.count, g.gas_used))
    };
    assert_eq!(of("PUSH1"), Some((5, 15)));
    assert_eq!(of("ADD"), Some((2, 6)));
    assert_eq!(of("STOP"), Some((1, 0)));
    assert_eq!(of("MUL"), None);
}
