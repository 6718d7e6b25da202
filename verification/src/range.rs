//! `trace_filter`: the frames of a block range that a filter selects.

use vstd::prelude::*;
use crate::chain::{Block, ChainSpec};
use crate::error::{EthApiError, EthApiErrorView};
use crate::filter::{
    accepted_by, matcher_of, page_len, paginate, paginate_spec, TraceFilter, TraceFilterView,
};
use crate::parity::{localized_views, LocalizedTraceView, LocalizedTransactionTrace};
use crate::reward::base_block_reward_spec;
use crate::trace::{
    block_reward_views, filter_range_spec, localize_all, transactions_localized, TraceApi,
    TracedTransaction,
};

verus! {

/// A block of a filtered range, with what tracing its transactions gave:
/// nothing where the tracer did not find the block.
#[derive(Clone, Debug, PartialEq, Eq)]
pub struct TracedBlock {
    pub block: Block,
    pub transactions: Option<Vec<TracedTransaction>>,
}

/// The localized frames of a traced block's transactions.
pub open spec fn traced_block_views(traced: TracedBlock) -> Seq<LocalizedTraceView> {
    match traced.transactions {
        Some(txs) => transactions_localized(txs@),
        None => Seq::empty(),
    }
}

/// The transaction frames of a range: block after block, each block's
/// frames in execution order.
pub open spec fn range_transaction_views(blocks: Seq<TracedBlock>) -> Seq<LocalizedTraceView>
    decreases blocks.len(),
{
    if blocks.len() == 0 {
        Seq::empty()
    } else {
        range_transaction_views(blocks.drop_last()) + traced_block_views(blocks.last())
    }
}

/// The reward frames of a range: block after block, up to the first
/// block at which the chain has merged. No later block is looked at,
/// since no block after the merge has a reward.
pub open spec fn range_reward_views(spec: ChainSpec, blocks: Seq<Block>) -> Seq<LocalizedTraceView>
    decreases blocks.len(),
{
    if blocks.len() == 0 {
        Seq::empty()
    } else if base_block_reward_spec(spec, blocks.first().header.number) is None {
        Seq::empty()
    } else {
        block_reward_views(spec, blocks.first()) + range_reward_views(spec, blocks.drop_first())
    }
}

/// The blocks of a traced range.
pub open spec fn blocks_of(traced: Seq<TracedBlock>) -> Seq<Block> {
    traced.map_values(|b: TracedBlock| b.block)
}

/// Every frame of a range before filtering: all transaction frames, then
/// all reward frames.
pub open spec fn range_views(spec: ChainSpec, blocks: Seq<TracedBlock>) -> Seq<LocalizedTraceView> {
    range_transaction_views(blocks) + range_reward_views(spec, blocks_of(blocks))
}

/// The frames of a range that a filter selects, before pagination.
pub open spec fn range_matches(
    spec: ChainSpec,
    filter: TraceFilterView,
    blocks: Seq<TracedBlock>,
) -> Seq<LocalizedTraceView> {
    range_views(spec, blocks).filter(accepted_by(matcher_of(filter)))
}

/// What `trace_filter` answers: the error that refuses the range, or the
/// page that the filter's `after` and `count` cut from the selected frames.
pub open spec fn trace_filter_spec(
    spec: ChainSpec,
    max: u64,
    filter: TraceFilterView,
    latest: u64,
    blocks: Seq<TracedBlock>,
) -> Result<Seq<LocalizedTraceView>, EthApiErrorView> {
    match filter_range_spec(filter, latest, max) {
        Err(e) => Err(e),
        Ok(_) => Ok(paginate_spec(range_matches(spec, filter, blocks), filter.after, filter.count)),
    }
}

/// Taking views commutes with cutting a page.
pub proof fn lemma_paginate_views(
    all: Seq<LocalizedTransactionTrace>,
    after: Option<u64>,
    count: Option<u64>,
)
    ensures
        localized_views(paginate_spec(all, after, count)) == paginate_spec(
            localized_views(all),
            after,
            count,
        ),
{
    let rest = match after {
        Some(a) => if a < all.len() {
            all.skip(a as int)
        } else {
            Seq::empty()
        },
        None => all,
    };
    let rest_views = match after {
        Some(a) => if a < all.len() {
            localized_views(all).skip(a as int)
        } else {
            Seq::empty()
        },
        None => localized_views(all),
    };
    assert(localized_views(rest) =~= rest_views);
    match count {
        Some(c) => {
            if c < rest.len() {
                assert(localized_views(rest.take(c as int)) =~= rest_views.take(c as int));
            }
        },
        None => {},
    }
}

impl<Eth> TraceApi<Eth> {
    /// The frames of a block range that `filter` selects, given the
    /// chain's head and the blocks of the range as traced, in ascending
    /// order. The transaction frames of all blocks come first, then the
    /// reward frames of the blocks before the merge; of these, the frames
    /// that the filter's addresses select are kept, and the filter's
    /// `after` and `count` cut the page.
    pub fn trace_filter(
        &self,
        filter: &TraceFilter,
        latest_block: u64,
        blocks: Vec<TracedBlock>,
    ) -> (r: Result<Vec<LocalizedTransactionTrace>, EthApiError>)
        requires
            forall|i: int| 0 <= i < blocks@.len() ==> (#[trigger] blocks@[i]).block.rewardable(),
        ensures
            match r {
                Ok(page) => trace_filter_spec(
                    self.chain(),
                    self.config().max_trace_filter_blocks,
                    filter@,
                    latest_block,
                    blocks@,
                ) == Ok::<Seq<LocalizedTraceView>, EthApiErrorView>(localized_views(page@)),
                Err(e) => trace_filter_spec(
                    self.chain(),
                    self.config().max_trace_filter_blocks,
                    filter@,
                    latest_block,
                    blocks@,
                ) == Err::<Seq<LocalizedTraceView>, EthApiErrorView>(e@),
            },
            r matches Ok(page) ==> page@.len() == page_len(
                range_matches(self.chain(), filter@, blocks@).len(),
                filter@.after,
                filter@.count,
            ),
    {
        match self.trace_filter_range(filter, latest_block) {
            Err(e) => {
                return Err(e);
            },
            Ok(_) => {},
        }
        let matcher = filter.matcher();
        let ghost input = blocks@;
        let ghost spec = self.chain();
        let mut all: Vec<LocalizedTransactionTrace> = Vec::new();
        let mut headers: Vec<Block> = Vec::new();
        proof {
            reveal(Seq::filter);
            assert(localized_views(all@) =~= range_transaction_views(input.take(0)).filter(
                accepted_by(matcher@),
            ));
            assert(headers@ =~= blocks_of(input.take(0)));
        }
        for traced in it: blocks
            invariant
                it.seq() == input,
                headers@ == blocks_of(input.take(it.index() as int)),
                localized_views(all@) == range_transaction_views(
                    input.take(it.index() as int),
                ).filter(accepted_by(matcher@)),
        {
            let ghost k = it.index() as int;
            let ghost before = all@;
            let ghost seen = range_transaction_views(input.take(k));
            let TracedBlock { block, transactions } = traced;
            let ghost added;
            match transactions {
                Some(txs) => {
                    let frames = localize_all(txs);
                    let mut kept = matcher.retain(frames);
                    proof {
                        added = kept@;
                    }
                    all.append(&mut kept);
                },
                None => {
                    proof {
                        added = Seq::empty();
                        assert(Seq::<LocalizedTraceView>::empty().filter(accepted_by(matcher@))
                            =~= Seq::<LocalizedTraceView>::empty());
                    }
                },
            }
            headers.push(block);
            proof {
                assert(input.take(k + 1).drop_last() =~= input.take(k));
                assert(input.take(k + 1).last() == traced);
                assert(all@ =~= before + added);
                assert(localized_views(before + added) =~= localized_views(before)
                    + localized_views(added));
                Seq::filter_distributes_over_add(
                    seen,
                    traced_block_views(traced),
                    accepted_by(matcher@),
                );
                assert(headers@ =~= blocks_of(input.take(k + 1)));
            }
        }
        assert(input.take(input.len() as int) =~= input);
        let ghost tx_views = range_transaction_views(input);
        let ghost mut rewards: Seq<LocalizedTraceView> = Seq::empty();
        let mut i: usize = 0;
        let mut merged = false;
        proof {
            assert(headers@.skip(0) =~= headers@);
            assert(localized_views(all@) =~= tx_views.filter(accepted_by(matcher@))
                + rewards.filter(accepted_by(matcher@)));
        }
        while i < headers.len() && !merged
            invariant
                i <= headers.len(),
                spec == self.chain(),
                forall|j: int| 0 <= j < headers@.len() ==> (#[trigger] headers@[j]).rewardable(),
                range_reward_views(spec, headers@) == rewards + if merged {
                    Seq::<LocalizedTraceView>::empty()
                } else {
                    range_reward_views(spec, headers@.skip(i as int))
                },
                localized_views(all@) == tx_views.filter(accepted_by(matcher@)) + rewards.filter(
                    accepted_by(matcher@),
                ),
            decreases headers.len() - i + if merged { 0int } else { 1int },
        {
            let block = &headers[i];
            let ghost rest = headers@.skip(i as int);
            proof {
                assert(rest.first() == *block);
                assert(rest.drop_first() =~= headers@.skip(i + 1));
            }
            match self.calculate_base_block_reward(&block.header) {
                Some(_) => {
                    let frames = self.block_reward_traces(block);
                    let ghost found = localized_views(frames@);
                    let ghost before = all@;
                    let mut kept = matcher.retain(frames);
                    let ghost added = kept@;
                    all.append(&mut kept);
                    proof {
                        assert(all@ =~= before + added);
                        assert(localized_views(before + added) =~= localized_views(before)
                            + localized_views(added));
                        Seq::filter_distributes_over_add(rewards, found, accepted_by(matcher@));
                        assert(rewards + (found + range_reward_views(spec, headers@.skip(i + 1)))
                            =~= (rewards + found) + range_reward_views(
                            spec,
                            headers@.skip(i + 1),
                        ));
                        assert(tx_views.filter(accepted_by(matcher@)) + rewards.filter(
                            accepted_by(matcher@),
                        ) + found.filter(accepted_by(matcher@)) =~= tx_views.filter(
                            accepted_by(matcher@),
                        ) + (rewards.filter(accepted_by(matcher@)) + found.filter(
                            accepted_by(matcher@),
                        )));
                        rewards = rewards + found;
                    }
                    i += 1;
                },
                None => {
                    merged = true;
                },
            }
        }
        proof {
            assert(rewards + Seq::<LocalizedTraceView>::empty() =~= rewards);
            if !merged {
                assert(headers@.skip(i as int) =~= Seq::<Block>::empty());
            }
            assert(range_reward_views(spec, headers@) == rewards);
            Seq::filter_distributes_over_add(tx_views, rewards, accepted_by(matcher@));
            assert(localized_views(all@) == range_matches(spec, filter@, input));
            lemma_paginate_views(all@, filter.after, filter.count);
        }
        Ok(paginate(all, filter.after, filter.count))
    }
}

} // verus!
