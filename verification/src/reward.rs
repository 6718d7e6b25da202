//! Block and ommer rewards of the proof-of-work era.

use vstd::prelude::*;
use alloy_hardforks::{EthereumChainHardforks, EthereumHardfork, ForkCondition};
use crate::chain::{
    mainnet_activation_block, mainnet_chain_id, mainnet_fork_block, sepolia_activation_block,
    sepolia_chain_id, sepolia_fork_block, ChainSpec, Hardfork, Header, MAINNET_CHAIN_ID,
    SEPOLIA_CHAIN_ID,
};
use crate::parity::{
    Action, ActionView, LocalizedTraceView, LocalizedTransactionTrace, RewardAction, RewardType,
    TransactionTrace, TransactionTraceView, localized_views,
};
use crate::primitives::U256;

verus! {

/// One ether, in wei.
pub const ETH_TO_WEI: u128 = 1_000_000_000_000_000_000;

/// Whether a fork that starts at `activation` is active at block `number`.
pub open spec fn fork_active(activation: Option<u64>, number: u64) -> bool {
    match activation {
        Some(block) => number >= block,
        None => false,
    }
}

/// Whether the merge has happened at block `number`. Only mainnet and
/// Sepolia have a proof-of-work past; every other chain counts as merged
/// from its first block.
pub open spec fn paris_active(chain_id: u64, number: u64) -> bool {
    if chain_id == MAINNET_CHAIN_ID {
        number >= mainnet_fork_block(Hardfork::Paris)
    } else if chain_id == SEPOLIA_CHAIN_ID {
        number >= sepolia_fork_block(Hardfork::Paris)
    } else {
        true
    }
}

/// The base reward of a pre-merge block: five ether at first, three from
/// Byzantium and two from Constantinople on.
pub open spec fn base_reward_pre_merge_spec(spec: ChainSpec, number: u64) -> u128 {
    if fork_active(spec.constantinople_block, number) {
        (2 * ETH_TO_WEI) as u128
    } else if fork_active(spec.byzantium_block, number) {
        (3 * ETH_TO_WEI) as u128
    } else {
        (5 * ETH_TO_WEI) as u128
    }
}

/// The base reward of the block at `number`: none once the merge has
/// happened, else the reward of its era.
pub open spec fn base_block_reward_spec(spec: ChainSpec, number: u64) -> Option<u128> {
    if paris_active(spec.chain_id, number) {
        None
    } else {
        Some(base_reward_pre_merge_spec(spec, number))
    }
}

/// What the miner of a block earns: the base reward, and a 32nd of it for
/// every ommer the block includes.
pub open spec fn block_reward_spec(base: u128, ommers: nat) -> int {
    base + (base / 32) * ommers
}

/// What the miner of an ommer earns: an eighth of the base reward for each
/// generation, out of eight, that the ommer is not behind the block.
pub open spec fn ommer_reward_spec(base: u128, number: u64, ommer_number: u64) -> int {
    ((8 + ommer_number - number) * base) / 8
}

/// Whether the reward of an ommer at `ommer_number`, included at `number`,
/// can be computed in machine integers.
pub open spec fn ommer_reward_fits(base: u128, number: u64, ommer_number: u64) -> bool {
    &&& 8 + ommer_number <= u64::MAX
    &&& number <= 8 + ommer_number
    &&& (8 + ommer_number - number) * base <= u128::MAX
}

/// `alloy_evm::block::calc::base_block_reward_pre_merge`, on a fork table
/// that holds Byzantium and Constantinople as `spec` has them (a block
/// number, or never). The outside function returns two ether where
/// Constantinople is active at `number`, else three where Byzantium is,
/// else five.
#[verifier::external_body]
pub(crate) fn base_block_reward_pre_merge(spec: &ChainSpec, number: u64) -> (r: u128)
    ensures
        r == base_reward_pre_merge_spec(*spec, number),
{
    let byzantium = spec.byzantium_block.map_or(ForkCondition::Never, ForkCondition::Block);
    let petersburg = spec.constantinople_block.map_or(ForkCondition::Never, ForkCondition::Block);
    let forks = EthereumChainHardforks::new([
        (EthereumHardfork::Byzantium, byzantium),
        (EthereumHardfork::Constantinople, petersburg),
    ]);
    alloy_evm::block::calc::base_block_reward_pre_merge(forks, number)
}

/// `alloy_evm::block::calc::block_reward`: the base reward plus, for each
/// ommer, the base reward shifted right by five bits. The outside function
/// adds and multiplies unchecked, so the sum must fit in 128 bits.
#[verifier::external_body]
pub(crate) fn block_reward(base: u128, ommers: usize) -> (r: u128)
    requires
        block_reward_spec(base, ommers as nat) <= u128::MAX,
    ensures
        r == block_reward_spec(base, ommers as nat),
{
    alloy_evm::block::calc::block_reward(base, ommers)
}

/// `alloy_evm::block::calc::ommer_reward`: eight plus the ommer's height
/// minus the block's, times the base reward, shifted right by three bits.
/// The outside function computes unchecked, so each step must fit.
#[verifier::external_body]
pub(crate) fn ommer_reward(base: u128, number: u64, ommer_number: u64) -> (r: u128)
    requires
        ommer_reward_fits(base, number, ommer_number),
    ensures
        r == ommer_reward_spec(base, number, ommer_number),
{
    alloy_evm::block::calc::ommer_reward(base, number, ommer_number)
}

/// The base reward of the block under `header` on the chain `spec`, or
/// `None` where the chain has merged by then.
pub fn calculate_base_block_reward(spec: &ChainSpec, header: &Header) -> (r: Option<u128>)
    ensures
        r == base_block_reward_spec(*spec, header.number),
{
    let is_paris_activated = if spec.chain_id == mainnet_chain_id() {
        match mainnet_activation_block(Hardfork::Paris) {
            Some(block) => header.number >= block,
            None => true,
        }
    } else if spec.chain_id == sepolia_chain_id() {
        match sepolia_activation_block(Hardfork::Paris) {
            Some(block) => header.number >= block,
            None => true,
        }
    } else {
        true
    };
    if is_paris_activated {
        return None;
    }
    Some(base_block_reward_pre_merge(spec, header.number))
}

/// The view of the trace that records `reward` for the block under
/// `header`: it belongs to no transaction and has no place in a call tree.
pub open spec fn reward_trace_view(header: Header, reward: RewardAction) -> LocalizedTraceView {
    LocalizedTraceView {
        trace: TransactionTraceView {
            action: ActionView::Reward(reward),
            error: None,
            result: None,
            subtraces: 0,
            trace_address: Seq::empty(),
        },
        block_hash: Some(header.hash),
        block_number: Some(header.number),
        transaction_hash: None,
        transaction_position: None,
    }
}

/// The trace that records `reward` for the block under `header`.
pub fn reward_trace(header: &Header, reward: RewardAction) -> (r: LocalizedTransactionTrace)
    ensures
        r@ == reward_trace_view(*header, reward),
{
    LocalizedTransactionTrace {
        block_hash: Some(header.hash),
        block_number: Some(header.number),
        transaction_hash: None,
        transaction_position: None,
        trace: TransactionTrace {
            trace_address: Vec::new(),
            subtraces: 0,
            action: Action::Reward(reward),
            error: None,
            result: None,
        },
    }
}

/// The reward of the miner of the block under `header`, which includes
/// `ommers` ommers.
pub open spec fn block_reward_action(header: Header, ommers: nat, base: u128) -> RewardAction {
    RewardAction {
        author: header.beneficiary,
        reward_type: RewardType::Block,
        value: U256 { hi: 0, lo: block_reward_spec(base, ommers) as u128 },
    }
}

/// The reward of the miner of `ommer`, included by the block under `header`.
pub open spec fn ommer_reward_action(header: Header, ommer: Header, base: u128) -> RewardAction {
    RewardAction {
        author: ommer.beneficiary,
        reward_type: RewardType::Uncle,
        value: U256 { hi: 0, lo: ommer_reward_spec(base, header.number, ommer.number) as u128 },
    }
}

/// The reward traces of a block: first the miner's, then one for each
/// ommer, in the order of the block's ommer list.
pub open spec fn reward_views(header: Header, ommers: Seq<Header>, base: u128) -> Seq<
    LocalizedTraceView,
> {
    seq![reward_trace_view(header, block_reward_action(header, ommers.len(), base))] + Seq::new(
        ommers.len(),
        |i: int| reward_trace_view(header, ommer_reward_action(header, ommers[i], base)),
    )
}

/// Whether the rewards of a block with these ommers can be computed in
/// machine integers.
pub open spec fn rewards_fit(header: Header, ommers: Seq<Header>, base: u128) -> bool {
    &&& block_reward_spec(base, ommers.len()) <= u128::MAX
    &&& forall|i: int|
        0 <= i < ommers.len() ==> ommer_reward_fits(
            base,
            header.number,
            (#[trigger] ommers[i]).number,
        )
}

/// The ommers handed to `extract_reward_traces`, as a sequence.
pub open spec fn ommer_list(ommers: Option<&Vec<Header>>) -> Seq<Header> {
    match ommers {
        Some(list) => list@,
        None => Seq::empty(),
    }
}

/// The reward traces of the block under `header`: the block reward, then
/// the ommer rewards in order.
pub fn extract_reward_traces(
    header: &Header,
    ommers: Option<&Vec<Header>>,
    base_block_reward: u128,
) -> (r: Vec<LocalizedTransactionTrace>)
    requires
        rewards_fit(*header, ommer_list(ommers), base_block_reward),
    ensures
        localized_views(r@) == reward_views(*header, ommer_list(ommers), base_block_reward),
        r@.len() == ommer_list(ommers).len() + 1,
{
    let ommers_cnt = match ommers {
        Some(list) => list.len(),
        None => 0,
    };
    let mut traces: Vec<LocalizedTransactionTrace> = Vec::new();
    let reward = block_reward(base_block_reward, ommers_cnt);
    traces.push(
        reward_trace(
            header,
            RewardAction {
                author: header.beneficiary,
                reward_type: RewardType::Block,
                value: U256::from_u128(reward),
            },
        ),
    );
    let ghost expected = reward_views(*header, ommer_list(ommers), base_block_reward);
    assert(localized_views(traces@) =~= expected.subrange(0, 1));
    let list = match ommers {
        Some(list) => list,
        None => {
            assert(expected.subrange(0, 1) =~= expected);
            return traces;
        },
    };
    let mut i: usize = 0;
    while i < list.len()
        invariant
            i <= list.len(),
            ommers == Some(list),
            rewards_fit(*header, list@, base_block_reward),
            expected == reward_views(*header, list@, base_block_reward),
            traces@.len() == i + 1,
            localized_views(traces@) =~= expected.subrange(0, i + 1),
        decreases list.len() - i,
    {
        let uncle = &list[i];
        let uncle_reward = ommer_reward(base_block_reward, header.number, uncle.number);
        traces.push(
            reward_trace(
                header,
                RewardAction {
                    author: uncle.beneficiary,
                    reward_type: RewardType::Uncle,
                    value: U256::from_u128(uncle_reward),
                },
            ),
        );
        i += 1;
    }
    assert(expected.subrange(0, i + 1) =~= expected);
    traces
}

} // verus!
