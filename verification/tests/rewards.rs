use parity_trace::chain::{Block, ChainSpec, Header, MAINNET_CHAIN_ID, SEPOLIA_CHAIN_ID};
use parity_trace::parity::{Action, LocalizedTransactionTrace, RewardAction, RewardType};
use parity_trace::primitives::{Address, B256, U256};
use parity_trace::reward::{
    calculate_base_block_reward, extract_reward_traces, reward_trace, ETH_TO_WEI,
};
use parity_trace::trace::{EthConfig, TraceApi, DEFAULT_MAX_TRACE_FILTER_BLOCKS};

fn rewards_header(number: u64, miner: u8) -> Header {
    Header {
        hash: B256 { bytes: [number as u8; 32] },
        number,
        beneficiary: Address { bytes: [miner; 20] },
    }
}

fn rewards_api(chain_spec: ChainSpec) -> TraceApi<()> {
    TraceApi::new(
        (),
        chain_spec,
        EthConfig { max_tracing_requests: 4, max_trace_filter_blocks: DEFAULT_MAX_TRACE_FILTER_BLOCKS },
    )
}

fn rewards_action(trace: &LocalizedTransactionTrace) -> RewardAction {
    match &trace.trace.action {
        Action::Reward(reward) => *reward,
        other => panic!("not a reward: {:?}", other),
    }
}

#[test]
fn mainnet_spec_has_the_outside_fork_table() {
    let spec = ChainSpec::mainnet();
    assert_eq!(spec.chain_id, 1);
    assert_eq!(spec.chain_id, MAINNET_CHAIN_ID);
    assert_eq!(spec.byzantium_block, Some(4_370_000));
    assert_eq!(spec.constantinople_block, Some(7_280_000));
}

#[test]
fn sepolia_spec_has_the_outside_fork_table() {
    let spec = ChainSpec::sepolia();
    assert_eq!(spec.chain_id, 11155111);
    assert_eq!(spec.chain_id, SEPOLIA_CHAIN_ID);
    assert_eq!(spec.byzantium_block, Some(0));
    assert_eq!(spec.constantinople_block, Some(0));
}

#[test]
fn base_reward_follows_the_mainnet_eras() {
    let spec = ChainSpec::mainnet();
    let at = |n: u64| calculate_base_block_reward(&spec, &rewards_header(n, 1));
    assert_eq!(at(0), Some(5 * ETH_TO_WEI));
    assert_eq!(at(1000), Some(5 * ETH_TO_WEI));
    assert_eq!(at(4_369_999), Some(5 * ETH_TO_WEI));
    assert_eq!(at(4_370_000), Some(3 * ETH_TO_WEI));
    assert_eq!(at(7_279_999), Some(3 * ETH_TO_WEI));
    assert_eq!(at(7_280_000), Some(2 * ETH_TO_WEI));
    assert_eq!(at(15_537_393), Some(2 * ETH_TO_WEI));
}

#[test]
fn no_base_reward_from_the_merge_on() {
    let spec = ChainSpec::mainnet();
    assert_eq!(calculate_base_block_reward(&spec, &rewards_header(15_537_394, 1)), None);
    assert_eq!(calculate_base_block_reward(&spec, &rewards_header(20_000_000, 1)), None);
}

#[test]
fn sepolia_pays_two_ether_until_its_merge() {
    let spec = ChainSpec::sepolia();
    assert_eq!(calculate_base_block_reward(&spec, &rewards_header(0, 1)), Some(2 * ETH_TO_WEI));
    assert_eq!(
        calculate_base_block_reward(&spec, &rewards_header(1_450_408, 1)),
        Some(2 * ETH_TO_WEI)
    );
    assert_eq!(calculate_base_block_reward(&spec, &rewards_header(1_450_409, 1)), None);
}

#[test]
fn other_chains_count_as_merged() {
    let spec = ChainSpec { chain_id: 10, byzantium_block: Some(0), constantinople_block: Some(0) };
    assert_eq!(calculate_base_block_reward(&spec, &rewards_header(0, 1)), None);
    assert_eq!(calculate_base_block_reward(&spec, &rewards_header(1000, 1)), None);
}

#[test]
fn base_reward_reads_the_chain_specs_own_forks() {
    let never = ChainSpec { chain_id: 1, byzantium_block: None, constantinople_block: None };
    assert_eq!(
        calculate_base_block_reward(&never, &rewards_header(9_000_000, 1)),
        Some(5 * ETH_TO_WEI)
    );
    let early = ChainSpec { chain_id: 1, byzantium_block: Some(10), constantinople_block: None };
    assert_eq!(calculate_base_block_reward(&early, &rewards_header(9, 1)), Some(5 * ETH_TO_WEI));
    assert_eq!(calculate_base_block_reward(&early, &rewards_header(10, 1)), Some(3 * ETH_TO_WEI));
}

#[test]
fn api_reward_is_the_chains_reward() {
    let api = rewards_api(ChainSpec::mainnet());
    assert_eq!(api.calculate_base_block_reward(&rewards_header(5_000_000, 1)), Some(3 * ETH_TO_WEI));
    assert_eq!(api.calculate_base_block_reward(&rewards_header(16_000_000, 1)), None);
}

#[test]
fn reward_trace_belongs_to_no_transaction() {
    let header = rewards_header(77, 9);
    let reward = RewardAction {
        author: header.beneficiary,
        reward_type: RewardType::Block,
        value: U256::from_u128(5),
    };
    let trace = reward_trace(&header, reward);
    assert_eq!(trace.block_hash, Some(header.hash));
    assert_eq!(trace.block_number, Some(77));
    assert_eq!(trace.transaction_hash, None);
    assert_eq!(trace.transaction_position, None);
    assert_eq!(trace.trace.trace_address, Vec::<usize>::new());
    assert_eq!(trace.trace.subtraces, 0);
    assert_eq!(trace.trace.error, None);
    assert_eq!(trace.trace.result, None);
    assert_eq!(trace.trace.action, Action::Reward(reward));
}

#[test]
fn block_without_ommers_has_one_block_reward() {
    let header = rewards_header(1000, 7);
    let traces = extract_reward_traces(&header, None, 5 * ETH_TO_WEI);
    assert_eq!(traces.len(), 1);
    let reward = rewards_action(&traces[0]);
    assert_eq!(reward.reward_type, RewardType::Block);
    assert_eq!(reward.author, header.beneficiary);
    assert_eq!(reward.value, U256 { hi: 0, lo: 5 * ETH_TO_WEI });

    let empty: Vec<Header> = Vec::new();
    let traces = extract_reward_traces(&header, Some(&empty), 5 * ETH_TO_WEI);
    assert_eq!(traces.len(), 1);
    assert_eq!(rewards_action(&traces[0]).reward_type, RewardType::Block);
}

#[test]
fn miner_earns_a_thirty_second_per_ommer() {
    let header = rewards_header(1000, 7);
    let ommers = vec![rewards_header(999, 8), rewards_header(997, 9)];
    let traces = extract_reward_traces(&header, Some(&ommers), 5 * ETH_TO_WEI);
    assert_eq!(traces.len(), 3);
    let miner = rewards_action(&traces[0]);
    assert_eq!(miner.reward_type, RewardType::Block);
    // 5 ether + 2 * 5/32 ether
    assert_eq!(miner.value, U256 { hi: 0, lo: 5_312_500_000_000_000_000 });
}

#[test]
fn ommer_earns_an_eighth_per_generation_kept() {
    let header = rewards_header(1000, 7);
    let ommers = vec![rewards_header(999, 8), rewards_header(997, 9), rewards_header(994, 10)];
    let traces = extract_reward_traces(&header, Some(&ommers), 5 * ETH_TO_WEI);
    assert_eq!(traces.len(), 4);
    let first = rewards_action(&traces[1]);
    assert_eq!(first.reward_type, RewardType::Uncle);
    assert_eq!(first.author, Address { bytes: [8; 20] });
    // (8 - 1) / 8 of 5 ether
    assert_eq!(first.value, U256 { hi: 0, lo: 4_375_000_000_000_000_000 });
    let second = rewards_action(&traces[2]);
    assert_eq!(second.author, Address { bytes: [9; 20] });
    // (8 - 3) / 8 of 5 ether
    assert_eq!(second.value, U256 { hi: 0, lo: 3_125_000_000_000_000_000 });
    let third = rewards_action(&traces[3]);
    assert_eq!(third.author, Address { bytes: [10; 20] });
    // (8 - 6) / 8 of 5 ether
    assert_eq!(third.value, U256 { hi: 0, lo: 1_250_000_000_000_000_000 });
    for trace in &traces {
        assert_eq!(trace.block_number, Some(1000));
        assert_eq!(trace.block_hash, Some(header.hash));
        assert_eq!(trace.transaction_hash, None);
    }
}

#[test]
fn reward_of_a_base_that_is_no_multiple_of_32_rounds_down_per_ommer() {
    let header = rewards_header(10, 1);
    let ommers = vec![rewards_header(9, 2), rewards_header(8, 3)];
    let traces = extract_reward_traces(&header, Some(&ommers), 100);
    // 100 + (100 / 32) * 2
    assert_eq!(rewards_action(&traces[0]).value, U256 { hi: 0, lo: 106 });
    // 7 * 100 / 8 and 6 * 100 / 8
    assert_eq!(rewards_action(&traces[1]).value, U256 { hi: 0, lo: 87 });
    assert_eq!(rewards_action(&traces[2]).value, U256 { hi: 0, lo: 75 });
}

#[test]
fn rewardable_blocks_keep_ommers_within_reach() {
    let good = Block {
        header: rewards_header(100, 1),
        ommers: Some(vec![rewards_header(99, 2), rewards_header(94, 3), rewards_header(92, 4)]),
    };
    assert!(good.is_rewardable());
    let none = Block { header: rewards_header(100, 1), ommers: None };
    assert!(none.is_rewardable());
    let empty = Block { header: rewards_header(100, 1), ommers: Some(Vec::new()) };
    assert!(empty.is_rewardable());
    // nine generations: eight plus the ommer's height falls short of the block's
    let old = Block { header: rewards_header(100, 1), ommers: Some(vec![rewards_header(91, 2)]) };
    assert!(!old.is_rewardable());
    // eight cannot be added to the ommer's height
    let high = Block {
        header: rewards_header(u64::MAX, 1),
        ommers: Some(vec![rewards_header(u64::MAX - 1, 2)]),
    };
    assert!(!high.is_rewardable());
    let edge = Block {
        header: rewards_header(u64::MAX, 1),
        ommers: Some(vec![rewards_header(u64::MAX - 8, 2)]),
    };
    assert!(edge.is_rewardable());
}

#[test]
fn u256_from_u128_keeps_the_value_in_the_low_half() {
    assert_eq!(U256::from_u128(0), U256::zero());
    assert_eq!(U256::from_u128(u128::MAX), U256 { hi: 0, lo: u128::MAX });
}
