//! `trace_rawTransaction`: from the bytes of a signed transaction to the
//! plan for tracing it.

use vstd::prelude::*;
use alloy_consensus::transaction::{PooledTransaction, SignerRecoverable};
use alloy_eips::eip2718::Decodable2718;
use crate::batch::{block_or, parity_config, TracePlan};
use crate::chain::{BlockId, BlockNumberOrTag};
use crate::error::{EthApiError, EthApiErrorView};
use crate::parity::TraceType;
use crate::primitives::Address;
use crate::trace::TraceApi;

verus! {

/// What decoding a raw transaction and recovering its sender gave.
#[derive(Clone, Copy, Debug, PartialEq, Eq)]
pub enum Recovery {
    /// The bytes are not an encoded signed transaction.
    Undecodable,
    /// The transaction's signature yields no sender.
    BadSignature,
    /// The transaction was signed by this account.
    Sender(Address),
}

/// What decoding these bytes as a pooled transaction and recovering its
/// sender gives.
pub uninterp spec fn recovery_of(data: Seq<u8>) -> Recovery;

/// `alloy_eips::eip2718::Decodable2718::decode_2718` for
/// `alloy_consensus::transaction::PooledTransaction`, followed on success
/// by `alloy_consensus::transaction::SignerRecoverable::recover_signer`.
/// Both are functions of the bytes alone; the contract names their
/// combined result and says nothing of what it is.
#[verifier::external_body]
fn recover_raw(data: &Vec<u8>) -> (r: Recovery)
    ensures
        r == recovery_of(data@),
{
    match PooledTransaction::decode_2718(&mut data.as_slice()) {
        Err(_) => Recovery::Undecodable,
        Ok(tx) => match tx.recover_signer() {
            Err(_) => Recovery::BadSignature,
            Ok(signer) => Recovery::Sender(Address { bytes: signer.into() }),
        },
    }
}

/// The sender of a raw transaction of `len` bytes, given what recovery
/// gave; or why the transaction is refused.
pub open spec fn sender_spec(len: nat, recovery: Recovery) -> Result<Address, EthApiErrorView> {
    if len == 0 {
        Err(EthApiErrorView::EmptyRawTransactionData)
    } else {
        match recovery {
            Recovery::Undecodable => Err(EthApiErrorView::FailedToDecodeSignedTransaction),
            Recovery::BadSignature => Err(EthApiErrorView::InvalidTransactionSignature),
            Recovery::Sender(sender) => Ok(sender),
        }
    }
}

/// The sender of a raw transaction of `len` bytes, given what recovery
/// gave: no bytes, bytes that do not decode and a signature without a
/// sender are each refused with an error of their own.
pub fn sender_of(len: usize, recovery: Recovery) -> (r: Result<Address, EthApiError>)
    ensures
        match r {
            Ok(sender) => sender_spec(len as nat, recovery) == Ok::<Address, EthApiErrorView>(
                sender,
            ),
            Err(e) => sender_spec(len as nat, recovery) == Err::<Address, EthApiErrorView>(e@),
        },
{
    if len == 0 {
        return Err(EthApiError::EmptyRawTransactionData);
    }
    match recovery {
        Recovery::Undecodable => Err(EthApiError::FailedToDecodeSignedTransaction),
        Recovery::BadSignature => Err(EthApiError::InvalidTransactionSignature),
        Recovery::Sender(sender) => Ok(sender),
    }
}

/// Where and how to trace a raw transaction, and on whose behalf.
#[derive(Debug, PartialEq, Eq)]
pub struct RawTracePlan {
    /// The account that signed the transaction.
    pub sender: Address,
    pub plan: TracePlan,
}

impl<Eth> TraceApi<Eth> {
    /// The plan for tracing the signed transaction in `tx`: on behalf of
    /// its recovered sender, at the block that the request names or at
    /// the latest block, recording what the trace types ask for. A
    /// transaction without a recoverable sender is refused, with an
    /// error that blames the parameters.
    pub fn trace_raw_transaction(
        &self,
        tx: &Vec<u8>,
        trace_types: &Vec<TraceType>,
        block_id: Option<BlockId>,
    ) -> (r: Result<RawTracePlan, EthApiError>)
        ensures
            match r {
                Ok(raw) => sender_spec(tx@.len(), recovery_of(tx@)) == Ok::<
                    Address,
                    EthApiErrorView,
                >(raw.sender) && raw.plan.at == block_or(block_id, BlockId::Number(BlockNumberOrTag::Latest))
                    && raw.plan.config == parity_config(trace_types@.to_set()),
                Err(e) => sender_spec(tx@.len(), recovery_of(tx@)) == Err::<
                    Address,
                    EthApiErrorView,
                >(e@) && crate::error::blames_params(e@),
            },
    {
        if tx.len() == 0 {
            return Err(EthApiError::EmptyRawTransactionData);
        }
        let sender = match sender_of(tx.len(), recover_raw(tx)) {
            Ok(sender) => sender,
            Err(e) => {
                return Err(e);
            },
        };
        Ok(RawTracePlan { sender, plan: self.trace_call(block_id, trace_types) })
    }
}

} // verus!
