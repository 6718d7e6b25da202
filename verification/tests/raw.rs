use parity_trace::chain::{BlockId, BlockNumberOrTag, ChainSpec};
use parity_trace::error::EthApiError;
use parity_trace::parity::TraceType;
use parity_trace::primitives::Address;
use parity_trace::raw::{sender_of, Recovery};
use parity_trace::trace::{EthConfig, TraceApi};

const RAW_EIP1559: &str = "02f86f0102843b9aca0085029e7822d68298f094d9e1459a7a482635700cbc20bbaf52d495ab9c9680841b55ba3ac080a0c199674fcb29f353693dd779c017823b954b3c69dffa3cd6b2a6ff7888798039a028ca912de909e7e6cdef9cdcaf24c54dd8c1032946dfa1d85c206b32a9064fe8";

const RAW_EIP1559_SENDER: &str = "001e2b7dE757bA469a57bF6b23d982458a07eFcE";

fn raw_api() -> TraceApi<()> {
    TraceApi::new(
        (),
        ChainSpec::mainnet(),
        EthConfig { max_tracing_requests: 1, max_trace_filter_blocks: 100 },
    )
}

fn raw_address(hex: &str) -> Address {
    let bytes = alloy_primitives::hex::decode(hex).unwrap();
    let mut out = [0u8; 20];
    out.copy_from_slice(&bytes);
    Address { bytes: out }
}

#[test]
fn raw_transaction_without_bytes_is_refused() {
    let refused = raw_api().trace_raw_transaction(&vec![], &vec![TraceType::Trace], None);
    assert_eq!(refused, Err(EthApiError::EmptyRawTransactionData));
    assert!(refused.unwrap_err().is_invalid_params());
}

#[test]
fn raw_transaction_that_does_not_decode_is_refused() {
    let api = raw_api();
    for bytes in [vec![0xffu8], vec![0x02, 0x01, 0x02], vec![0xc0], vec![0u8; 40]] {
        let refused = api.trace_raw_transaction(&bytes, &vec![TraceType::Trace], None);
        assert_eq!(refused, Err(EthApiError::FailedToDecodeSignedTransaction));
        assert!(refused.unwrap_err().is_invalid_params());
    }
}

#[test]
fn raw_transaction_is_traced_for_its_signer() {
    let bytes = alloy_primitives::hex::decode(RAW_EIP1559).unwrap();
    let raw = raw_api()
        .trace_raw_transaction(&bytes, &vec![TraceType::Trace, TraceType::VmTrace], None)
        .unwrap();
    assert_eq!(raw.sender, raw_address(RAW_EIP1559_SENDER));
    assert_eq!(raw.plan.at, BlockId::Number(BlockNumberOrTag::Latest));
    assert!(raw.plan.config.record_steps);
}

#[test]
fn raw_transaction_runs_at_the_block_that_was_asked_for() {
    let bytes = alloy_primitives::hex::decode(RAW_EIP1559).unwrap();
    let raw = raw_api()
        .trace_raw_transaction(&bytes, &vec![TraceType::StateDiff], Some(BlockId::number(9)))
        .unwrap();
    assert_eq!(raw.plan.at, BlockId::Number(BlockNumberOrTag::Number(9)));
    assert!(!raw.plan.config.record_steps);
}

#[test]
fn raw_transaction_with_a_high_s_signature_is_refused() {
    let mut bytes = alloy_primitives::hex::decode(RAW_EIP1559).unwrap();
    // the last 32 bytes are the signature's s: all ones is above half the curve order
    let s_start = bytes.len() - 32;
    for byte in &mut bytes[s_start..] {
        *byte = 0xff;
    }
    let refused = raw_api().trace_raw_transaction(&bytes, &vec![TraceType::Trace], None);
    assert_eq!(refused, Err(EthApiError::InvalidTransactionSignature));
    assert!(refused.unwrap_err().is_invalid_params());
}

#[test]
fn raw_transaction_with_other_bytes_has_another_sender_or_none() {
    let mut bytes = alloy_primitives::hex::decode(RAW_EIP1559).unwrap();
    // another nonce: the signature no longer belongs to the signer
    bytes[4] = 0x03;
    match raw_api().trace_raw_transaction(&bytes, &vec![TraceType::Trace], None) {
        Ok(raw) => assert_ne!(raw.sender, raw_address(RAW_EIP1559_SENDER)),
        Err(e) => assert_eq!(e, EthApiError::InvalidTransactionSignature),
    }
}

#[test]
fn sender_of_reports_each_failure_by_its_own_error() {
    let sender = Address { bytes: [7; 20] };
    assert_eq!(sender_of(0, Recovery::Sender(sender)), Err(EthApiError::EmptyRawTransactionData));
    assert_eq!(sender_of(0, Recovery::Undecodable), Err(EthApiError::EmptyRawTransactionData));
    assert_eq!(
        sender_of(1, Recovery::Undecodable),
        Err(EthApiError::FailedToDecodeSignedTransaction)
    );
    assert_eq!(
        sender_of(110, Recovery::BadSignature),
        Err(EthApiError::InvalidTransactionSignature)
    );
    assert_eq!(sender_of(110, Recovery::Sender(sender)), Ok(sender));
}
