//! The `trace` API: what each operation answers, given what the node found.
//!
//! The node's side of an operation (finding a block or a transaction,
//! running the EVM with an inspector) happens before these functions are
//! called. They take its outcome, found or not, and build the response.

use vstd::prelude::*;
use crate::chain::{Block, BlockId, BlockNumberOrTag, ChainSpec, Header};
use crate::error::{
    range_reversed_message, range_too_large_message, EthApiError, EthApiErrorView,
};
use crate::filter::{TraceFilter, TraceFilterView};
use crate::parity::{
    localized_views, LocalizedTraceView, LocalizedTransactionTrace, TransactionInfo,
    TransactionTrace, TransactionTraceView,
};
use crate::reward::{
    base_block_reward_spec, calculate_base_block_reward, extract_reward_traces, ommer_list,
    reward_views, rewards_fit, ETH_TO_WEI,
};

verus! {

/// The largest span of blocks that `trace_filter` accepts unless
/// configured otherwise.
pub const DEFAULT_MAX_TRACE_FILTER_BLOCKS: u64 = 100;

/// The limits that an operator sets on tracing.
#[derive(Clone, Copy, Debug, PartialEq, Eq)]
pub struct EthConfig {
    /// How many tracing calls may run at the same time.
    pub max_tracing_requests: usize,
    /// The largest accepted difference between the last and the first
    /// block of a `trace_filter` range.
    pub max_trace_filter_blocks: u64,
}

/// The frames of one executed transaction, as the inspector recorded
/// them, with the transaction's place in the chain.
#[derive(Clone, Debug, PartialEq, Eq)]
pub struct TracedTransaction {
    pub info: TransactionInfo,
    /// The frames in depth-first order of the call tree.
    pub traces: Vec<TransactionTrace>,
}

/// A frame's view with the place of its transaction attached.
pub open spec fn localize_view(
    info: TransactionInfo,
    trace: TransactionTraceView,
) -> LocalizedTraceView {
    LocalizedTraceView {
        trace,
        block_hash: info.block_hash,
        block_number: info.block_number,
        transaction_hash: info.hash,
        transaction_position: info.index,
    }
}

/// `localize_view` for a fixed transaction, as a function of the frame.
pub open spec fn localized_by(info: TransactionInfo) -> spec_fn(
    TransactionTrace,
) -> LocalizedTraceView {
    |t: TransactionTrace| localize_view(info, t@)
}

/// The localized frames of a list of transactions, in execution order.
pub open spec fn transactions_localized(txs: Seq<TracedTransaction>) -> Seq<LocalizedTraceView>
    decreases txs.len(),
{
    if txs.len() == 0 {
        Seq::empty()
    } else {
        transactions_localized(txs.drop_last()) + txs.last().localized()
    }
}

impl TracedTransaction {
    /// The transaction's frames, each with the transaction's place.
    pub open spec fn localized(&self) -> Seq<LocalizedTraceView> {
        self.traces@.map_values(localized_by(self.info))
    }

    /// Attaches the transaction's place to each of its frames.
    pub fn into_localized_transaction_traces(self) -> (r: Vec<LocalizedTransactionTrace>)
        ensures
            localized_views(r@) == self.localized(),
            r@.len() == self.traces@.len(),
    {
        let info = self.info;
        let ghost input = self.traces@;
        let mut out: Vec<LocalizedTransactionTrace> = Vec::new();
        assert(localized_views(out@) =~= input.take(0).map_values(localized_by(info)));
        for trace in it: self.traces
            invariant
                it.seq() == input,
                out@.len() == it.index(),
                localized_views(out@) == input.take(it.index() as int).map_values(
                    localized_by(info),
                ),
        {
            let ghost k = it.index() as int;
            let ghost before = out@;
            let ghost frame = trace@;
            out.push(
                LocalizedTransactionTrace {
                    trace,
                    block_hash: info.block_hash,
                    block_number: info.block_number,
                    transaction_hash: info.hash,
                    transaction_position: info.index,
                },
            );
            proof {
                let target = input.take(k + 1).map_values(localized_by(info));
                assert forall|j: int| 0 <= j < k + 1 implies localized_views(out@)[j]
                    == target[j] by {
                    if j < k {
                        assert(out@[j] == before[j]);
                        assert(localized_views(before)[j] == input.take(k).map_values(
                            localized_by(info),
                        )[j]);
                    } else {
                        assert(out@[j]@ == localize_view(info, frame));
                    }
                }
                assert(localized_views(out@) =~= target);
            }
        }
        assert(input.take(input.len() as int) =~= input);
        out
    }
}

/// Attaches to every frame of every transaction its transaction's place,
/// keeping the frames in execution order.
pub fn localize_all(txs: Vec<TracedTransaction>) -> (r: Vec<LocalizedTransactionTrace>)
    ensures
        localized_views(r@) == transactions_localized(txs@),
{
    let ghost input = txs@;
    let mut out: Vec<LocalizedTransactionTrace> = Vec::new();
    assert(localized_views(out@) =~= transactions_localized(input.take(0)));
    for tx in it: txs
        invariant
            it.seq() == input,
            localized_views(out@) == transactions_localized(input.take(it.index() as int)),
    {
        let ghost k = it.index() as int;
        let ghost before = out@;
        let mut frames = tx.into_localized_transaction_traces();
        let ghost added = frames@;
        out.append(&mut frames);
        proof {
            assert(input.take(k + 1).drop_last() =~= input.take(k));
            assert(input.take(k + 1).last() == tx);
            assert(localized_views(before + added) =~= localized_views(before) + localized_views(
                added,
            ));
        }
    }
    assert(input.take(input.len() as int) =~= input);
    out
}

/// The handle of the `trace` API: the node's `eth` API, the chain it
/// serves and the operator's limits.
pub struct TraceApi<Eth> {
    eth_api: Eth,
    chain_spec: ChainSpec,
    eth_config: EthConfig,
}

impl<Eth> TraceApi<Eth> {
    /// The node's `eth` API that this handle was made with.
    pub closed spec fn handle(&self) -> Eth {
        self.eth_api
    }

    /// The chain that this handle serves.
    pub closed spec fn chain(&self) -> ChainSpec {
        self.chain_spec
    }

    /// The operator's limits.
    pub closed spec fn config(&self) -> EthConfig {
        self.eth_config
    }

    /// Creates a handle.
    pub fn new(eth_api: Eth, chain_spec: ChainSpec, eth_config: EthConfig) -> (r: Self)
        ensures
            r.handle() == eth_api,
            r.chain() == chain_spec,
            r.config() == eth_config,
    {
        TraceApi { eth_api, chain_spec, eth_config }
    }

    /// The node's `eth` API.
    pub fn eth_api(&self) -> (r: &Eth)
        ensures
            *r == self.handle(),
    {
        &self.eth_api
    }

    /// The chain that this handle serves.
    pub fn chain_spec(&self) -> (r: &ChainSpec)
        ensures
            *r == self.chain(),
    {
        &self.chain_spec
    }

    /// The operator's limits.
    pub fn eth_config(&self) -> (r: &EthConfig)
        ensures
            *r == self.config(),
    {
        &self.eth_config
    }
}

/// The views of an optional list of localized frames.
pub open spec fn optional_views(r: Option<Vec<LocalizedTransactionTrace>>) -> Option<
    Seq<LocalizedTraceView>,
> {
    match r {
        Some(list) => Some(localized_views(list@)),
        None => None,
    }
}

/// The view of an optional localized frame.
pub open spec fn optional_view(r: Option<LocalizedTransactionTrace>) -> Option<LocalizedTraceView> {
    match r {
        Some(trace) => Some(trace@),
        None => None,
    }
}

/// What `trace_transaction` answers: the transaction's localized frames,
/// or nothing where the transaction is unknown.
pub open spec fn trace_transaction_spec(traced: Option<TracedTransaction>) -> Option<
    Seq<LocalizedTraceView>,
> {
    match traced {
        Some(tx) => Some(tx.localized()),
        None => None,
    }
}

/// What `trace_get_index` answers: the frame at `index` of what
/// `trace_transaction` answers, or nothing where there is no such frame.
pub open spec fn trace_get_index_spec(traced: Option<TracedTransaction>, index: usize) -> Option<
    LocalizedTraceView,
> {
    match trace_transaction_spec(traced) {
        Some(frames) => if index < frames.len() {
            Some(frames[index as int])
        } else {
            None
        },
        None => None,
    }
}

/// The one index of a `trace_get` request, or nothing where the request
/// names no index or several.
pub open spec fn single_index_spec(indices: Seq<usize>) -> Option<usize> {
    if indices.len() == 1 {
        Some(indices[0])
    } else {
        None
    }
}

/// What `trace_get` answers: nothing unless the request names exactly one
/// index, and then what `trace_get_index` answers for it.
pub open spec fn trace_get_spec(traced: Option<TracedTransaction>, indices: Seq<usize>) -> Option<
    LocalizedTraceView,
> {
    match single_index_spec(indices) {
        Some(index) => trace_get_index_spec(traced, index),
        None => None,
    }
}

/// The reward frames of a block on a chain: none once the chain has
/// merged, else the miner's and then each ommer's.
pub open spec fn block_reward_views(spec: ChainSpec, block: Block) -> Seq<LocalizedTraceView> {
    match base_block_reward_spec(spec, block.header.number) {
        Some(base) => reward_views(block.header, block.ommer_seq(), base),
        None => Seq::empty(),
    }
}

/// What `trace_block` answers: nothing where the block's transactions
/// could not be traced, else their frames in execution order, followed by
/// the block's reward frames where the block itself was found.
pub open spec fn trace_block_spec(
    spec: ChainSpec,
    maybe_traces: Option<Vec<TracedTransaction>>,
    maybe_block: Option<Block>,
) -> Option<Seq<LocalizedTraceView>> {
    match maybe_traces {
        Some(txs) => Some(
            transactions_localized(txs@) + match maybe_block {
                Some(block) => block_reward_views(spec, block),
                None => Seq::empty(),
            },
        ),
        None => None,
    }
}

/// The rewards of a rewardable block that has a base reward fit in machine
/// integers: the base reward is at most five ether, and with it neither
/// the miner's share for the ommers nor an ommer's own share can outgrow
/// 128 bits.
pub proof fn lemma_rewards_fit(spec: ChainSpec, block: Block)
    requires
        block.rewardable(),
        base_block_reward_spec(spec, block.header.number) is Some,
    ensures
        rewards_fit(
            block.header,
            block.ommer_seq(),
            base_block_reward_spec(spec, block.header.number).unwrap(),
        ),
{
    let base = base_block_reward_spec(spec, block.header.number).unwrap();
    let ommers = block.ommer_seq();
    let n = ommers.len();
    assert(base <= 5 * ETH_TO_WEI);
    assert(n <= usize::MAX) by {
        match block.ommers {
            Some(list) => {
                assert(list@.len() == list.len());
            },
            None => {},
        }
    }
    assert((base / 32) * n <= 156_250_000_000_000_000 * 0x1_0000_0000_0000_0000)
        by (nonlinear_arith)
        requires
            0 <= base / 32 <= 156_250_000_000_000_000,
            0 <= n <= 0x1_0000_0000_0000_0000,
    ;
    assert forall|i: int| 0 <= i < ommers.len() implies crate::reward::ommer_reward_fits(
        base,
        block.header.number,
        (#[trigger] ommers[i]).number,
    ) by {
        let o = ommers[i].number;
        assert(crate::chain::ommer_in_reach(block.header.number, o));
        let factor = 8 + o - block.header.number;
        assert(0 <= factor <= 0x1_0000_0000_0000_0000);
        assert(factor * base <= 0x1_0000_0000_0000_0000 * (5 * ETH_TO_WEI)) by (nonlinear_arith)
            requires
                0 <= factor <= 0x1_0000_0000_0000_0000,
                0 <= base <= 5 * ETH_TO_WEI,
        ;
    }
}

/// The range that a filter asks for, or why it is refused: the first block
/// must exist, the range must not end before it starts, and it must not
/// span more than `max` blocks beyond its first.
pub open spec fn filter_range_spec(filter: TraceFilterView, latest: u64, max: u64) -> Result<
    (u64, u64),
    EthApiErrorView,
> {
    let start = match filter.from_block {
        Some(block) => block,
        None => 0,
    };
    let end = match filter.to_block {
        Some(block) => block,
        None => latest,
    };
    if start > latest {
        Err(EthApiErrorView::HeaderNotFound(BlockId::Number(BlockNumberOrTag::Number(start))))
    } else if start > end {
        Err(EthApiErrorView::InvalidParams(range_reversed_message()))
    } else if end - start > max {
        Err(EthApiErrorView::InvalidParams(range_too_large_message()))
    } else {
        Ok((start, end))
    }
}

impl<Eth> TraceApi<Eth> {
    /// The base reward of the block under `header` on this chain.
    pub fn calculate_base_block_reward(&self, header: &Header) -> (r: Option<u128>)
        ensures
            r == base_block_reward_spec(self.chain(), header.number),
    {
        calculate_base_block_reward(&self.chain_spec, header)
    }

    /// The reward frames of the block under `header`: the block reward,
    /// then the ommer rewards in order.
    pub fn extract_reward_traces(
        &self,
        header: &Header,
        ommers: Option<&Vec<Header>>,
        base_block_reward: u128,
    ) -> (r: Vec<LocalizedTransactionTrace>)
        requires
            rewards_fit(*header, ommer_list(ommers), base_block_reward),
        ensures
            localized_views(r@) == reward_views(*header, ommer_list(ommers), base_block_reward),
            r@.len() == ommer_list(ommers).len() + 1,
    {
        extract_reward_traces(header, ommers, base_block_reward)
    }

    /// The reward frames of `block` on this chain: none once the chain has
    /// merged.
    pub fn block_reward_traces(&self, block: &Block) -> (r: Vec<LocalizedTransactionTrace>)
        requires
            block.rewardable(),
        ensures
            localized_views(r@) == block_reward_views(self.chain(), *block),
    {
        match self.calculate_base_block_reward(&block.header) {
            Some(base) => {
                proof {
                    lemma_rewards_fit(self.chain(), *block);
                }
                match &block.ommers {
                    Some(list) => self.extract_reward_traces(&block.header, Some(list), base),
                    None => self.extract_reward_traces(&block.header, None, base),
                }
            },
            None => {
                let r: Vec<LocalizedTransactionTrace> = Vec::new();
                assert(localized_views(r@) =~= Seq::<LocalizedTraceView>::empty());
                r
            },
        }
    }

    /// All frames of one transaction, given what the node found under the
    /// transaction's hash.
    pub fn trace_transaction(&self, traced: Option<TracedTransaction>) -> (r: Option<
        Vec<LocalizedTransactionTrace>,
    >)
        ensures
            optional_views(r) == trace_transaction_spec(traced),
    {
        match traced {
            Some(tx) => Some(tx.into_localized_transaction_traces()),
            None => None,
        }
    }

    /// The one index that a `trace_get` request names, if it names one.
    pub fn single_index(&self, indices: &Vec<usize>) -> (r: Option<usize>)
        ensures
            r == single_index_spec(indices@),
    {
        if indices.len() != 1 {
            return None;
        }
        Some(indices[0])
    }

    /// The frame at `index` of a transaction's frames, if there is one.
    pub fn trace_get_index(&self, traced: Option<TracedTransaction>, index: usize) -> (r: Option<
        LocalizedTransactionTrace,
    >)
        ensures
            optional_view(r) == trace_get_index_spec(traced, index),
    {
        match self.trace_transaction(traced) {
            Some(frames) => {
                let mut frames = frames;
                if index < frames.len() {
                    let ghost all = frames@;
                    frames.truncate(index + 1);
                    assert(frames@.last() == all[index as int]);
                    assert(localized_views(all)[index as int] == all[index as int]@);
                    frames.pop()
                } else {
                    None
                }
            },
            None => None,
        }
    }

    /// The frame of a transaction that a `trace_get` request names: the
    /// request must name exactly one index, else the answer is nothing.
    pub fn trace_get(&self, traced: Option<TracedTransaction>, indices: Vec<usize>) -> (r: Option<
        LocalizedTransactionTrace,
    >)
        ensures
            optional_view(r) == trace_get_spec(traced, indices@),
    {
        match self.single_index(&indices) {
            Some(index) => self.trace_get_index(traced, index),
            None => None,
        }
    }

    /// The frames of a block: those of its transactions in execution
    /// order, then the block's reward frames.
    pub fn trace_block(
        &self,
        maybe_traces: Option<Vec<TracedTransaction>>,
        maybe_block: Option<Block>,
    ) -> (r: Option<Vec<LocalizedTransactionTrace>>)
        requires
            maybe_block matches Some(block) ==> block.rewardable(),
        ensures
            optional_views(r) == trace_block_spec(self.chain(), maybe_traces, maybe_block),
    {
        match maybe_traces {
            Some(txs) => {
                let mut traces = localize_all(txs);
                let ghost before = traces@;
                match maybe_block {
                    Some(block) => {
                        let mut rewards = self.block_reward_traces(&block);
                        let ghost added = rewards@;
                        traces.append(&mut rewards);
                        assert(localized_views(before + added) =~= localized_views(before)
                            + localized_views(added));
                    },
                    None => {
                        assert(localized_views(before) + Seq::<LocalizedTraceView>::empty()
                            =~= localized_views(before));
                    },
                }
                Some(traces)
            },
            None => None,
        }
    }

    /// The inclusive block range that `filter` asks for, or the error that
    /// refuses it, where `latest_block` is the chain's head.
    pub fn trace_filter_range(&self, filter: &TraceFilter, latest_block: u64) -> (r: Result<
        (u64, u64),
        EthApiError,
    >)
        ensures
            match r {
                Ok(range) => filter_range_spec(
                    filter@,
                    latest_block,
                    self.config().max_trace_filter_blocks,
                ) == Ok::<(u64, u64), EthApiErrorView>(range),
                Err(e) => filter_range_spec(
                    filter@,
                    latest_block,
                    self.config().max_trace_filter_blocks,
                ) == Err::<(u64, u64), EthApiErrorView>(e@),
            },
    {
        let start = match filter.from_block {
            Some(block) => block,
            None => 0,
        };
        if start > latest_block {
            return Err(EthApiError::HeaderNotFound(BlockId::number(start)));
        }
        let end = match filter.to_block {
            Some(block) => block,
            None => latest_block,
        };
        if start > end {
            return Err(EthApiError::range_reversed());
        }
        let distance = end - start;
        if distance > self.eth_config.max_trace_filter_blocks {
            return Err(EthApiError::range_too_large());
        }
        Ok((start, end))
    }
}

} // verus!
