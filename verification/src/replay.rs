//! Replays and opcode-gas summaries: per-transaction results, keyed.
//!
//! The results of a replay (output, call tree, VM trace, state diff) are
//! `alloy_rpc_types_trace::parity::TraceResults`, carried through as the
//! node made them: nothing here looks inside.

use vstd::prelude::*;
use crate::chain::Block;
use crate::error::{EthApiError, EthApiErrorView};
use alloy_rpc_types_trace::parity::TraceResults;
use crate::parity::TransactionInfo;
use crate::primitives::B256;
use crate::trace::TraceApi;

verus! {

/// `alloy_rpc_types_trace::parity::TraceResults`, carried from the node
/// to the response as it is.
#[verifier::external_type_specification]
#[verifier::external_body]
pub struct ExTraceResults(alloy_rpc_types_trace::parity::TraceResults);

/// The results of one transaction of a replayed block.
#[derive(Debug, PartialEq, Eq)]
pub struct TraceResultsWithTransactionHash {
    pub full_trace: TraceResults,
    pub transaction_hash: B256,
}

/// One transaction of a replayed block, as the node hands it over.
#[derive(Debug, PartialEq, Eq)]
pub struct ReplayedTransaction {
    pub info: TransactionInfo,
    pub full_trace: TraceResults,
}

/// How often one opcode ran, and what it cost in all.
#[derive(Clone, Debug, PartialEq, Eq)]
pub struct OpcodeGas {
    /// The opcode's name.
    pub opcode: String,
    pub count: u64,
    pub gas_used: u64,
}

/// The opcode summary of one transaction.
#[derive(Clone, Debug, PartialEq, Eq)]
pub struct TransactionOpcodeGas {
    pub transaction_hash: B256,
    pub opcode_gas: Vec<OpcodeGas>,
}

/// The opcode summaries of a block's transactions, in execution order.
#[derive(Clone, Debug, PartialEq, Eq)]
pub struct BlockOpcodeGas {
    pub block_hash: B256,
    pub block_number: u64,
    pub transactions: Vec<TransactionOpcodeGas>,
}

/// One transaction of a block traced for opcode gas, as the node hands
/// it over.
#[derive(Clone, Debug, PartialEq, Eq)]
pub struct TracedOpcodeGas {
    pub info: TransactionInfo,
    pub opcode_gas: Vec<OpcodeGas>,
}

/// Whether every transaction of a replayed block carries its hash.
pub open spec fn replayed_have_hashes(txs: Seq<ReplayedTransaction>) -> bool {
    forall|i: int| 0 <= i < txs.len() ==> (#[trigger] txs[i]).info.hash is Some
}

/// Whether `keyed` holds the results of `txs`, one for one and in order,
/// each under its transaction's hash.
pub open spec fn keyed_by_hash(
    keyed: Seq<TraceResultsWithTransactionHash>,
    txs: Seq<ReplayedTransaction>,
) -> bool {
    &&& keyed.len() == txs.len()
    &&& forall|i: int|
        0 <= i < txs.len() ==> (#[trigger] keyed[i]).transaction_hash == txs[i].info.hash.unwrap()
            && keyed[i].full_trace == txs[i].full_trace
}

/// Whether every transaction traced for opcode gas carries its hash.
pub open spec fn traced_have_hashes(txs: Seq<TracedOpcodeGas>) -> bool {
    forall|i: int| 0 <= i < txs.len() ==> (#[trigger] txs[i]).info.hash is Some
}

/// Whether `summaries` holds the opcode gas of `txs`, one for one and in
/// order, each under its transaction's hash.
pub open spec fn summarized_by_hash(
    summaries: Seq<TransactionOpcodeGas>,
    txs: Seq<TracedOpcodeGas>,
) -> bool {
    &&& summaries.len() == txs.len()
    &&& forall|i: int|
        0 <= i < txs.len() ==> (#[trigger] summaries[i]).transaction_hash
            == txs[i].info.hash.unwrap() && summaries[i].opcode_gas == txs[i].opcode_gas
}

impl<Eth> TraceApi<Eth> {
    /// The results of replaying one transaction, given what the node
    /// found under the transaction's hash: an unknown transaction is an
    /// error.
    pub fn replay_transaction(&self, traced: Option<TraceResults>) -> (r: Result<
        TraceResults,
        EthApiError,
    >)
        ensures
            match traced {
                Some(results) => r == Ok::<TraceResults, EthApiError>(results),
                None => r matches Err(e) && e@ == EthApiErrorView::TransactionNotFound,
            },
    {
        match traced {
            Some(results) => Ok(results),
            None => Err(EthApiError::TransactionNotFound),
        }
    }

    /// The results of replaying a block, one entry for each transaction
    /// in execution order, each under the hash of its transaction; nothing
    /// where the block is unknown.
    pub fn replay_block_transactions(&self, traced: Option<Vec<ReplayedTransaction>>) -> (r: Option<
        Vec<TraceResultsWithTransactionHash>,
    >)
        requires
            traced matches Some(txs) ==> replayed_have_hashes(txs@),
        ensures
            match traced {
                Some(txs) => r matches Some(keyed) && keyed_by_hash(keyed@, txs@),
                None => r is None,
            },
    {
        let txs = match traced {
            Some(txs) => txs,
            None => {
                return None;
            },
        };
        let ghost input = txs@;
        let mut out: Vec<TraceResultsWithTransactionHash> = Vec::new();
        for tx in it: txs
            invariant
                it.seq() == input,
                replayed_have_hashes(input),
                keyed_by_hash(out@, input.take(it.index() as int)),
        {
            let ghost k = it.index() as int;
            let ghost before = out@;
            assert(input[k].info.hash is Some);
            let ReplayedTransaction { info, full_trace } = tx;
            let transaction_hash = info.hash.unwrap();
            out.push(TraceResultsWithTransactionHash { full_trace, transaction_hash });
            proof {
                assert forall|i: int| 0 <= i < k + 1 implies (#[trigger] out@[i]).transaction_hash
                    == input.take(k + 1)[i].info.hash.unwrap() && out@[i].full_trace
                    == input.take(k + 1)[i].full_trace by {
                    if i < k {
                        assert(out@[i] == before[i]);
                        assert(input.take(k)[i] == input[i]);
                    }
                }
            }
        }
        assert(input.take(input.len() as int) =~= input);
        Some(out)
    }

    /// The opcode summary of one transaction, given what the node
    /// recorded under the transaction's hash; nothing where the
    /// transaction is unknown.
    pub fn trace_transaction_opcode_gas(&self, tx_hash: B256, traced: Option<Vec<OpcodeGas>>) -> (r:
        Option<TransactionOpcodeGas>)
        ensures
            match traced {
                Some(opcode_gas) => r == Some(
                    TransactionOpcodeGas { transaction_hash: tx_hash, opcode_gas },
                ),
                None => r is None,
            },
    {
        match traced {
            Some(opcode_gas) => Some(
                TransactionOpcodeGas { transaction_hash: tx_hash, opcode_gas },
            ),
            None => None,
        }
    }

    /// The opcode summaries of a block's transactions under the block's
    /// hash and height; nothing where either the traces or the block
    /// could not be found.
    pub fn trace_block_opcode_gas(
        &self,
        traced: Option<Vec<TracedOpcodeGas>>,
        maybe_block: Option<Block>,
    ) -> (r: Option<BlockOpcodeGas>)
        requires
            traced matches Some(txs) ==> traced_have_hashes(txs@),
        ensures
            match (traced, maybe_block) {
                (Some(txs), Some(block)) => r matches Some(summary) && summary.block_hash
                    == block.header.hash && summary.block_number == block.header.number
                    && summarized_by_hash(summary.transactions@, txs@),
                _ => r is None,
            },
    {
        let txs = match traced {
            Some(txs) => txs,
            None => {
                return None;
            },
        };
        let block = match maybe_block {
            Some(block) => block,
            None => {
                return None;
            },
        };
        let ghost input = txs@;
        let mut transactions: Vec<TransactionOpcodeGas> = Vec::new();
        for tx in it: txs
            invariant
                it.seq() == input,
                traced_have_hashes(input),
                summarized_by_hash(transactions@, input.take(it.index() as int)),
        {
            let ghost k = it.index() as int;
            let ghost before = transactions@;
            assert(input[k].info.hash is Some);
            let TracedOpcodeGas { info, opcode_gas } = tx;
            let transaction_hash = info.hash.unwrap();
            transactions.push(TransactionOpcodeGas { transaction_hash, opcode_gas });
            proof {
                assert forall|i: int| 0 <= i < k + 1 implies (
                #[trigger] transactions@[i]).transaction_hash == input.take(
                    k + 1,
                )[i].info.hash.unwrap() && transactions@[i].opcode_gas == input.take(
                    k + 1,
                )[i].opcode_gas by {
                    if i < k {
                        assert(transactions@[i] == before[i]);
                        assert(input.take(k)[i] == input[i]);
                    }
                }
            }
        }
        assert(input.take(input.len() as int) =~= input);
        Some(
            BlockOpcodeGas {
                block_hash: block.header.hash,
                block_number: block.header.number,
                transactions,
            },
        )
    }
}

} // verus!
