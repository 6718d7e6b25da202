//! What holds of the API as a whole: statements that relate several
//! operations, or one operation to all of its inputs.

use vstd::prelude::*;
use crate::batch::BatchTracer;
use crate::chain::{Block, ChainSpec};
use crate::error::{range_too_large_message, EthApiErrorView};
use crate::filter::{paginate_spec, TraceFilterView};
use crate::parity::{ActionView, LocalizedTraceView, RewardType};
use crate::primitives::B256;
use crate::range::{range_matches, range_reward_views, trace_filter_spec, TracedBlock};
use crate::reward::{
    base_reward_pre_merge_spec, block_reward_spec, ommer_reward_spec, paris_active,
};
use crate::trace::{
    block_reward_views, filter_range_spec, trace_block_spec, trace_get_spec,
    trace_transaction_spec, transactions_localized, TracedTransaction,
};

verus! {

/// The frames that belong to the transaction with this hash.
pub open spec fn of_transaction(hash: B256) -> spec_fn(LocalizedTraceView) -> bool {
    |t: LocalizedTraceView| t.transaction_hash == Some(hash)
}

/// The frames that record a reward.
pub open spec fn is_reward() -> spec_fn(LocalizedTraceView) -> bool {
    |t: LocalizedTraceView| t.trace.action is Reward
}

/// Every transaction carries a hash, and no two carry the same: what
/// holds of the transactions of a block.
pub open spec fn distinct_hashes(txs: Seq<TracedTransaction>) -> bool {
    &&& forall|i: int| 0 <= i < txs.len() ==> (#[trigger] txs[i]).info.hash is Some
    &&& forall|i: int, j: int|
        0 <= i < txs.len() && 0 <= j < txs.len() && i != j ==> (#[trigger] txs[i]).info.hash != (
        #[trigger] txs[j]).info.hash
}

/// No frame of these transactions records a reward: what holds of the
/// frames that an inspector makes.
pub open spec fn no_reward_frames(txs: Seq<TracedTransaction>) -> bool {
    forall|i: int, j: int|
        0 <= i < txs.len() && 0 <= j < txs[i].traces@.len() ==> !((
        #[trigger] txs[i].traces@[j])@.action is Reward)
}

/// A filter that every item passes keeps the sequence as it is.
pub proof fn lemma_filter_keeps_all<A>(s: Seq<A>, p: spec_fn(A) -> bool)
    requires
        forall|i: int| 0 <= i < s.len() ==> p(#[trigger] s[i]),
    ensures
        s.filter(p) == s,
    decreases s.len(),
{
    reveal(Seq::filter);
    if s.len() > 0 {
        lemma_filter_keeps_all(s.drop_last(), p);
        assert(s.drop_last().push(s.last()) =~= s);
    }
}

/// A filter that no item passes keeps nothing.
pub proof fn lemma_filter_keeps_none<A>(s: Seq<A>, p: spec_fn(A) -> bool)
    requires
        forall|i: int| 0 <= i < s.len() ==> !p(#[trigger] s[i]),
    ensures
        s.filter(p) == Seq::<A>::empty(),
    decreases s.len(),
{
    reveal(Seq::filter);
    if s.len() > 0 {
        lemma_filter_keeps_none(s.drop_last(), p);
    }
}

/// Every frame of a list of transactions is a frame of one of them.
pub proof fn lemma_frame_origin(txs: Seq<TracedTransaction>, k: int)
    requires
        0 <= k < transactions_localized(txs).len(),
    ensures
        exists|i: int, j: int|
            0 <= i < txs.len() && 0 <= j < txs[i].traces@.len() && transactions_localized(txs)[k]
                == #[trigger] crate::trace::localize_view(txs[i].info, txs[i].traces@[j]@),
    decreases txs.len(),
{
    if txs.len() > 0 {
        let front = transactions_localized(txs.drop_last());
        if k < front.len() {
            lemma_frame_origin(txs.drop_last(), k);
            let (i, j) = choose|i: int, j: int|
                0 <= i < txs.drop_last().len() && 0 <= j < txs.drop_last()[i].traces@.len()
                    && front[k] == #[trigger] crate::trace::localize_view(
                    txs.drop_last()[i].info,
                    txs.drop_last()[i].traces@[j]@,
                );
            assert(txs[i] == txs.drop_last()[i]);
            assert(transactions_localized(txs)[k] == crate::trace::localize_view(
                txs[i].info,
                txs[i].traces@[j]@,
            ));
        } else {
            let i = txs.len() - 1;
            let j = k - front.len();
            assert(transactions_localized(txs)[k] == crate::trace::localize_view(
                txs[i].info,
                txs[i].traces@[j]@,
            ));
        }
    }
}

/// Of the frames of a list of transactions, none belongs to a transaction
/// that is not in the list.
pub proof fn lemma_foreign_transaction(txs: Seq<TracedTransaction>, hash: B256)
    requires
        forall|i: int| 0 <= i < txs.len() ==> (#[trigger] txs[i]).info.hash != Some(hash),
    ensures
        transactions_localized(txs).filter(of_transaction(hash)) == Seq::<
            LocalizedTraceView,
        >::empty(),
{
    let all = transactions_localized(txs);
    assert forall|k: int| 0 <= k < all.len() implies !of_transaction(hash)(#[trigger] all[k]) by {
        lemma_frame_origin(txs, k);
    }
    lemma_filter_keeps_none(all, of_transaction(hash));
}

/// Of the frames of a block's transactions, those under the hash of the
/// transaction at `index` are that transaction's frames, in their order.
pub proof fn lemma_transaction_frames(txs: Seq<TracedTransaction>, index: int)
    requires
        distinct_hashes(txs),
        0 <= index < txs.len(),
    ensures
        transactions_localized(txs).filter(of_transaction(txs[index].info.hash.unwrap()))
            == txs[index].localized(),
    decreases txs.len(),
{
    let hash = txs[index].info.hash.unwrap();
    let front = txs.drop_last();
    let last = txs.last();
    Seq::filter_distributes_over_add(
        transactions_localized(front),
        last.localized(),
        of_transaction(hash),
    );
    if index == txs.len() - 1 {
        assert forall|i: int| 0 <= i < front.len() implies (#[trigger] front[i]).info.hash != Some(
            hash,
        ) by {
            assert(front[i] == txs[i]);
        }
        lemma_foreign_transaction(front, hash);
        lemma_filter_keeps_all(last.localized(), of_transaction(hash));
        assert(Seq::<LocalizedTraceView>::empty() + last.localized() =~= last.localized());
    } else {
        assert(distinct_hashes(front)) by {
            assert forall|i: int| 0 <= i < front.len() implies (
            #[trigger] front[i]).info.hash is Some by {
                assert(front[i] == txs[i]);
            }
            assert forall|i: int, j: int|
                0 <= i < front.len() && 0 <= j < front.len() && i != j implies (
            #[trigger] front[i]).info.hash != (#[trigger] front[j]).info.hash by {
                assert(front[i] == txs[i]);
                assert(front[j] == txs[j]);
            }
        }
        assert(front[index] == txs[index]);
        lemma_transaction_frames(front, index);
        assert(last == txs[txs.len() - 1]);
        lemma_filter_keeps_none(last.localized(), of_transaction(hash));
        assert(txs[index].localized() + Seq::<LocalizedTraceView>::empty()
            =~= txs[index].localized());
    }
}

/// `trace_transaction` of a transaction of a block answers what
/// `trace_block` answers for the block, cut down to the frames under the
/// transaction's hash, in the same order.
pub proof fn lemma_trace_transaction_within_block(
    spec: ChainSpec,
    txs: Vec<TracedTransaction>,
    block: Option<Block>,
    index: int,
)
    requires
        distinct_hashes(txs@),
        0 <= index < txs@.len(),
    ensures
        trace_transaction_spec(Some(txs@[index])) == Some(
            trace_block_spec(spec, Some(txs), block).unwrap().filter(
                of_transaction(txs@[index].info.hash.unwrap()),
            ),
        ),
{
    let hash = txs@[index].info.hash.unwrap();
    let rewards = match block {
        Some(b) => block_reward_views(spec, b),
        None => Seq::empty(),
    };
    lemma_transaction_frames(txs@, index);
    lemma_filter_keeps_none(rewards, of_transaction(hash));
    Seq::filter_distributes_over_add(transactions_localized(txs@), rewards, of_transaction(hash));
    assert(txs@[index].localized() + Seq::<LocalizedTraceView>::empty()
        =~= txs@[index].localized());
}

/// `trace_get` with one index answers the frame at that index of what
/// `trace_transaction` answers, and nothing where the index is past the
/// end or the transaction is unknown.
pub proof fn lemma_trace_get_one_index(traced: Option<TracedTransaction>, index: usize)
    ensures
        trace_get_spec(traced, seq![index]) == match trace_transaction_spec(traced) {
            Some(frames) => if index < frames.len() {
                Some(frames[index as int])
            } else {
                None
            },
            None => None,
        },
{
}

/// `trace_get` with no index, or with more than one, answers nothing.
pub proof fn lemma_trace_get_other_indices(traced: Option<TracedTransaction>, indices: Seq<usize>)
    requires
        indices.len() != 1,
    ensures
        trace_get_spec(traced, indices) is None,
{
}

/// What `trace_block` answers for a block that was found ends with the
/// block's reward frames: one for the miner and one for each ommer where
/// the chain has not merged at the block, none where it has. Where no
/// transaction frame records a reward, these are all the reward frames in
/// the answer.
pub proof fn lemma_trace_block_rewards(spec: ChainSpec, txs: Vec<TracedTransaction>, block: Block)
    ensures
        ({
            let answer = trace_block_spec(spec, Some(txs), Some(block)).unwrap();
            let rewards = block_reward_views(spec, block);
            &&& answer == transactions_localized(txs@) + rewards
            &&& rewards.len() == if paris_active(spec.chain_id, block.header.number) {
                0
            } else {
                block.ommer_seq().len() + 1
            }
            &&& forall|k: int| 0 <= k < rewards.len() ==> is_reward()(#[trigger] rewards[k])
            &&& no_reward_frames(txs@) ==> answer.filter(is_reward()) == rewards
        }),
{
    let frames = transactions_localized(txs@);
    let rewards = block_reward_views(spec, block);
    if no_reward_frames(txs@) {
        assert forall|k: int| 0 <= k < frames.len() implies !is_reward()(#[trigger] frames[k]) by {
            lemma_frame_origin(txs@, k);
        }
        lemma_filter_keeps_none(frames, is_reward());
        lemma_filter_keeps_all(rewards, is_reward());
        Seq::filter_distributes_over_add(frames, rewards, is_reward());
        assert(Seq::<LocalizedTraceView>::empty() + rewards =~= rewards);
    }
}

/// A block without ommers, on a chain that has not merged at it, has one
/// reward frame, and that frame pays the block's miner.
pub proof fn lemma_lone_block_reward(spec: ChainSpec, block: Block)
    requires
        !paris_active(spec.chain_id, block.header.number),
        block.ommer_seq().len() == 0,
    ensures
        block_reward_views(spec, block).len() == 1,
        block_reward_views(spec, block)[0].trace.action matches ActionView::Reward(reward)
            && reward.reward_type == RewardType::Block && reward.author
            == block.header.beneficiary,
{
}

/// Whenever a batch hands out call `k`, the overlay holds the changes of
/// the `k` calls before it: each call runs on the base state as the calls
/// before it left it.
pub proof fn lemma_batch_sees_earlier_calls(batch: BatchTracer)
    requires
        batch.pending() is Some,
    ensures
        batch.commits() == batch.pending().unwrap(),
{
}

/// How many frames `trace_filter` answers with: the frames that the
/// filter selects in the range, less the `after` that it skips, capped
/// by `count`; never less than none.
pub proof fn lemma_trace_filter_len(
    spec: ChainSpec,
    max: u64,
    filter: TraceFilterView,
    latest: u64,
    blocks: Seq<TracedBlock>,
)
    requires
        trace_filter_spec(spec, max, filter, latest, blocks) is Ok,
    ensures
        ({
            let page = trace_filter_spec(spec, max, filter, latest, blocks)->Ok_0;
            let total = range_matches(spec, filter, blocks).len();
            let after: nat = match filter.after {
                Some(a) => a as nat,
                None => 0,
            };
            let left: nat = if total >= after {
                (total - after) as nat
            } else {
                0
            };
            page.len() == match filter.count {
                Some(c) => if (c as nat) <= left {
                    c as nat
                } else {
                    left
                },
                None => left,
            }
        }),
{
}

/// A filter that skips as many frames as it selects, or more, answers
/// with no frame, and with no error.
pub proof fn lemma_trace_filter_after_end(
    spec: ChainSpec,
    max: u64,
    filter: TraceFilterView,
    latest: u64,
    blocks: Seq<TracedBlock>,
)
    requires
        filter_range_spec(filter, latest, max) is Ok,
        filter.after matches Some(a) && a >= range_matches(spec, filter, blocks).len(),
    ensures
        trace_filter_spec(spec, max, filter, latest, blocks) == Ok::<
            Seq<LocalizedTraceView>,
            EthApiErrorView,
        >(Seq::empty()),
{
    assert(paginate_spec(range_matches(spec, filter, blocks), filter.after, filter.count)
        =~= Seq::<LocalizedTraceView>::empty());
}

/// A filter from a block to the same block, where that block exists,
/// asks for that one block, whatever the limit on the range.
pub proof fn lemma_one_block_range(filter: TraceFilterView, latest: u64, max: u64, block: u64)
    requires
        filter.from_block == Some(block),
        filter.to_block == Some(block),
        block <= latest,
    ensures
        filter_range_spec(filter, latest, max) == Ok::<(u64, u64), EthApiErrorView>((block, block)),
{
}

/// A range whose last block is more than `max` blocks beyond its first is
/// refused, with an error that blames the parameters.
pub proof fn lemma_range_too_large(filter: TraceFilterView, latest: u64, max: u64)
    requires
        filter.from_block matches Some(from) && filter.to_block matches Some(to) && from <= latest
            && from <= to && to - from > max,
    ensures
        filter_range_spec(filter, latest, max) == Err::<(u64, u64), EthApiErrorView>(
            EthApiErrorView::InvalidParams(range_too_large_message()),
        ),
        crate::error::blames_params(filter_range_spec(filter, latest, max)->Err_0),
{
}

/// Two answers of `trace_filter` to one request on one chain are the
/// same, frame for frame.
pub proof fn lemma_trace_filter_repeatable(
    spec: ChainSpec,
    max: u64,
    filter: TraceFilterView,
    latest: u64,
    blocks: Seq<TracedBlock>,
    first: Result<Seq<LocalizedTraceView>, EthApiErrorView>,
    second: Result<Seq<LocalizedTraceView>, EthApiErrorView>,
)
    requires
        first == trace_filter_spec(spec, max, filter, latest, blocks),
        second == trace_filter_spec(spec, max, filter, latest, blocks),
    ensures
        first == second,
{
}

/// Two answers of `trace_block` to one request on one chain are the
/// same, frame for frame.
pub proof fn lemma_trace_block_repeatable(
    spec: ChainSpec,
    traces: Option<Vec<TracedTransaction>>,
    block: Option<Block>,
    first: Option<Seq<LocalizedTraceView>>,
    second: Option<Seq<LocalizedTraceView>>,
)
    requires
        first == trace_block_spec(spec, traces, block),
        second == trace_block_spec(spec, traces, block),
    ensures
        first == second,
{
}

/// Two answers of `trace_get` to one request are the same.
pub proof fn lemma_trace_get_repeatable(
    traced: Option<TracedTransaction>,
    indices: Seq<usize>,
    first: Option<LocalizedTraceView>,
    second: Option<LocalizedTraceView>,
)
    requires
        first == trace_get_spec(traced, indices),
        second == trace_get_spec(traced, indices),
    ensures
        first == second,
{
}

/// With a base reward of the schedule, which is a whole number of ether,
/// the miner of a block with `ommers` ommers earns the base reward and a
/// 32nd of the base reward times the number of ommers: nothing is lost to
/// rounding.
pub proof fn lemma_miner_reward(spec: ChainSpec, number: u64, ommers: nat)
    ensures
        ({
            let base = base_reward_pre_merge_spec(spec, number);
            block_reward_spec(base, ommers) == base + (base * ommers) / 32
        }),
{
    let base = base_reward_pre_merge_spec(spec, number);
    let unit: int = (base / 32) as int;
    assert(base == 32 * unit);
    assert((base * ommers) / 32 == unit * ommers) by (nonlinear_arith)
        requires
            base == 32 * unit,
    ;
}

/// The miner of an ommer that is `generations` older than its block earns
/// the base reward times the eighths that are left of eight after taking
/// the generations away.
pub proof fn lemma_ommer_reward(base: u128, number: u64, generations: u64)
    requires
        1 <= generations <= 6,
        generations <= number,
    ensures
        ommer_reward_spec(base, number, (number - generations) as u64) == (base * (8
            - generations)) / 8,
{
    assert((8 + (number - generations) - number) * base == base * (8 - generations))
        by (nonlinear_arith);
}

/// A reward frame belongs to no transaction: it has neither a
/// transaction's hash nor a position in the block, and no place in a call
/// tree.
pub proof fn lemma_rewards_have_no_transaction(spec: ChainSpec, block: Block, k: int)
    requires
        0 <= k < block_reward_views(spec, block).len(),
    ensures
        block_reward_views(spec, block)[k].transaction_hash is None,
        block_reward_views(spec, block)[k].transaction_position is None,
        block_reward_views(spec, block)[k].trace.trace_address.len() == 0,
        block_reward_views(spec, block)[k].trace.subtraces == 0,
        block_reward_views(spec, block)[k].block_number == Some(block.header.number),
        block_reward_views(spec, block)[k].block_hash == Some(block.header.hash),
{
}

/// The blocks are in ascending order of height.
pub open spec fn ascending(blocks: Seq<Block>) -> bool {
    forall|i: int, j: int|
        0 <= i < j < blocks.len() ==> (#[trigger] blocks[i]).header.number <= (
        #[trigger] blocks[j]).header.number
}

/// The reward frames of every block of a list, block after block.
pub open spec fn every_reward_view(spec: ChainSpec, blocks: Seq<Block>) -> Seq<LocalizedTraceView>
    decreases blocks.len(),
{
    if blocks.len() == 0 {
        Seq::empty()
    } else {
        block_reward_views(spec, blocks.first()) + every_reward_view(spec, blocks.drop_first())
    }
}

/// Once the chain has merged at a block, it has merged at every later
/// block.
pub proof fn lemma_merge_is_final(chain_id: u64, earlier: u64, later: u64)
    requires
        earlier <= later,
        paris_active(chain_id, earlier),
    ensures
        paris_active(chain_id, later),
{
}

/// On a range in ascending order, to stop looking for rewards at the
/// first block at which the chain has merged loses no reward: the reward
/// frames found are those of every block of the range.
pub proof fn lemma_rewards_stop_at_merge(spec: ChainSpec, blocks: Seq<Block>)
    requires
        ascending(blocks),
    ensures
        range_reward_views(spec, blocks) == every_reward_view(spec, blocks),
    decreases blocks.len(),
{
    if blocks.len() > 0 {
        let rest = blocks.drop_first();
        assert(ascending(rest)) by {
            assert forall|i: int, j: int| 0 <= i < j < rest.len() implies (
            #[trigger] rest[i]).header.number <= (#[trigger] rest[j]).header.number by {
                assert(rest[i] == blocks[i + 1]);
                assert(rest[j] == blocks[j + 1]);
            }
        }
        lemma_rewards_stop_at_merge(spec, rest);
        if paris_active(spec.chain_id, blocks.first().header.number) {
            lemma_no_rewards_after_merge(spec, blocks);
        }
    }
}

/// A range in ascending order whose first block is past the merge has no
/// reward frame at all.
pub proof fn lemma_no_rewards_after_merge(spec: ChainSpec, blocks: Seq<Block>)
    requires
        ascending(blocks),
        blocks.len() > 0 ==> paris_active(spec.chain_id, blocks.first().header.number),
    ensures
        every_reward_view(spec, blocks) == Seq::<LocalizedTraceView>::empty(),
    decreases blocks.len(),
{
    if blocks.len() > 0 {
        let rest = blocks.drop_first();
        assert(ascending(rest)) by {
            assert forall|i: int, j: int| 0 <= i < j < rest.len() implies (
            #[trigger] rest[i]).header.number <= (#[trigger] rest[j]).header.number by {
                assert(rest[i] == blocks[i + 1]);
                assert(rest[j] == blocks[j + 1]);
            }
        }
        if rest.len() > 0 {
            assert(rest.first() == blocks[1]);
            assert(blocks.first() == blocks[0]);
            lemma_merge_is_final(
                spec.chain_id,
                blocks.first().header.number,
                rest.first().header.number,
            );
        }
        lemma_no_rewards_after_merge(spec, rest);
        assert(block_reward_views(spec, blocks.first()) + Seq::<LocalizedTraceView>::empty()
            =~= Seq::<LocalizedTraceView>::empty());
    }
}

} // verus!
