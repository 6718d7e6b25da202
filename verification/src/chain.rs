//! What the tracer needs to know of a chain and of its blocks.

use vstd::prelude::*;
use alloy_chains::Chain;
use alloy_hardforks::EthereumHardfork;
use crate::primitives::{Address, B256};

verus! {

/// The chain id of Ethereum mainnet.
pub const MAINNET_CHAIN_ID: u64 = 1;

/// The chain id of the Sepolia test network.
pub const SEPOLIA_CHAIN_ID: u64 = 11155111;

/// The hard forks that decide a block's reward.
#[derive(Clone, Copy, Debug, PartialEq, Eq)]
pub enum Hardfork {
    /// Lowered the base reward to three ether.
    Byzantium,
    /// Lowered the base reward to two ether.
    Constantinople,
    /// The merge: the end of block rewards.
    Paris,
}

/// The block at which `fork` became active on mainnet.
pub open spec fn mainnet_fork_block(fork: Hardfork) -> u64 {
    match fork {
        Hardfork::Byzantium => 4_370_000,
        Hardfork::Constantinople => 7_280_000,
        Hardfork::Paris => 15_537_394,
    }
}

/// The block at which `fork` became active on Sepolia.
pub open spec fn sepolia_fork_block(fork: Hardfork) -> u64 {
    match fork {
        Hardfork::Byzantium => 0,
        Hardfork::Constantinople => 0,
        Hardfork::Paris => 1_450_409,
    }
}

/// `alloy_chains::Chain::mainnet`, read through `Chain::id`: the id of the
/// named chain `Mainnet`, which is 1.
#[verifier::external_body]
pub(crate) fn mainnet_chain_id() -> (r: u64)
    ensures
        r == MAINNET_CHAIN_ID,
{
    Chain::mainnet().id()
}

/// `alloy_chains::Chain::sepolia`, read through `Chain::id`: the id of the
/// named chain `Sepolia`, which is 11155111.
#[verifier::external_body]
pub(crate) fn sepolia_chain_id() -> (r: u64)
    ensures
        r == SEPOLIA_CHAIN_ID,
{
    Chain::sepolia().id()
}

/// `alloy_hardforks::EthereumHardfork::mainnet_activation_block` for the
/// three forks named here. The outside table gives each of them a block:
/// 4,370,000 for Byzantium, 7,280,000 for Constantinople and 15,537,394
/// for Paris.
#[verifier::external_body]
pub(crate) fn mainnet_activation_block(fork: Hardfork) -> (r: Option<u64>)
    ensures
        r == Some(mainnet_fork_block(fork)),
{
    match fork {
        Hardfork::Byzantium => EthereumHardfork::Byzantium,
        Hardfork::Constantinople => EthereumHardfork::Constantinople,
        Hardfork::Paris => EthereumHardfork::Paris,
    }.mainnet_activation_block()
}

/// `alloy_hardforks::EthereumHardfork::sepolia_activation_block` for the
/// three forks named here. The outside table has Byzantium and
/// Constantinople active from the first block, and Paris from 1,450,409.
#[verifier::external_body]
pub(crate) fn sepolia_activation_block(fork: Hardfork) -> (r: Option<u64>)
    ensures
        r == Some(sepolia_fork_block(fork)),
{
    match fork {
        Hardfork::Byzantium => EthereumHardfork::Byzantium,
        Hardfork::Constantinople => EthereumHardfork::Constantinople,
        Hardfork::Paris => EthereumHardfork::Paris,
    }.sepolia_activation_block()
}

/// The part of a chain's specification that block rewards depend on:
/// which chain it is, and from which block, if any, the two forks that
/// lowered the base reward are active.
#[derive(Clone, Copy, Debug, PartialEq, Eq)]
pub struct ChainSpec {
    pub chain_id: u64,
    pub byzantium_block: Option<u64>,
    pub constantinople_block: Option<u64>,
}

impl ChainSpec {
    /// Ethereum mainnet.
    pub fn mainnet() -> (r: ChainSpec)
        ensures
            r.chain_id == MAINNET_CHAIN_ID,
            r.byzantium_block == Some(4_370_000u64),
            r.constantinople_block == Some(7_280_000u64),
    {
        ChainSpec {
            chain_id: mainnet_chain_id(),
            byzantium_block: mainnet_activation_block(Hardfork::Byzantium),
            constantinople_block: mainnet_activation_block(Hardfork::Constantinople),
        }
    }

    /// The Sepolia test network.
    pub fn sepolia() -> (r: ChainSpec)
        ensures
            r.chain_id == SEPOLIA_CHAIN_ID,
            r.byzantium_block == Some(0u64),
            r.constantinople_block == Some(0u64),
    {
        ChainSpec {
            chain_id: sepolia_chain_id(),
            byzantium_block: sepolia_activation_block(Hardfork::Byzantium),
            constantinople_block: sepolia_activation_block(Hardfork::Constantinople),
        }
    }
}

/// What the tracer reads of a block header.
#[derive(Clone, Copy, Debug, PartialEq, Eq)]
pub struct Header {
    /// The header's hash.
    pub hash: B256,
    /// The block's height.
    pub number: u64,
    /// The account that block rewards are paid to.
    pub beneficiary: Address,
}

/// A block as the tracer sees it: its header and the headers of its ommers.
#[derive(Clone, Debug, PartialEq, Eq)]
pub struct Block {
    pub header: Header,
    /// `None` where the chain's block body has no ommers at all.
    pub ommers: Option<Vec<Header>>,
}

/// The ommers of a block as a sequence; none where the body has no list.
pub open spec fn ommers_of(ommers: Option<Vec<Header>>) -> Seq<Header> {
    match ommers {
        Some(list) => list@,
        None => Seq::empty(),
    }
}

/// Whether the reward of an ommer at height `ommer_number` can be computed
/// for a block at height `number`: the ommer is at most eight generations
/// older than the block, and eight can be added to its height. The
/// protocol itself admits only ommers that are one to six generations
/// older.
pub open spec fn ommer_in_reach(number: u64, ommer_number: u64) -> bool {
    ommer_number + 8 <= u64::MAX && number <= ommer_number + 8
}

impl Block {
    /// The block's ommers, in header order.
    pub open spec fn ommer_seq(&self) -> Seq<Header> {
        ommers_of(self.ommers)
    }

    /// Every ommer's reward can be computed.
    pub open spec fn rewardable(&self) -> bool {
        forall|i: int|
            0 <= i < self.ommer_seq().len() ==> ommer_in_reach(
                self.header.number,
                (#[trigger] self.ommer_seq()[i]).number,
            )
    }

    /// Tests `rewardable`.
    pub fn is_rewardable(&self) -> (r: bool)
        ensures
            r == self.rewardable(),
    {
        match &self.ommers {
            None => true,
            Some(list) => {
                let mut i: usize = 0;
                while i < list.len()
                    invariant
                        i <= list.len(),
                        self.ommers == Some(*list),
                        forall|j: int|
                            0 <= j < i ==> ommer_in_reach(
                                self.header.number,
                                (#[trigger] list@[j]).number,
                            ),
                    decreases list.len() - i,
                {
                    let n = list[i].number;
                    if n > u64::MAX - 8 || self.header.number > n + 8 {
                        assert(!ommer_in_reach(
                            self.header.number,
                            self.ommer_seq()[i as int].number,
                        ));
                        return false;
                    }
                    i += 1;
                }
                true
            },
        }
    }
}

/// A block named by its height or by a moving tag.
#[derive(Clone, Copy, Debug, PartialEq, Eq)]
pub enum BlockNumberOrTag {
    /// The most recent block of the canonical chain.
    Latest,
    /// The most recent finalized block.
    Finalized,
    /// The most recent safe block.
    Safe,
    /// The genesis block.
    Earliest,
    /// The block being built on top of the latest one.
    Pending,
    /// The block at this height.
    Number(u64),
}

/// A block named by its hash, or by its height or a tag.
#[derive(Clone, Copy, Debug, PartialEq, Eq)]
pub enum BlockId {
    Hash {
        block_hash: B256,
        /// Whether the block must be on the canonical chain.
        require_canonical: Option<bool>,
    },
    Number(BlockNumberOrTag),
}

impl BlockId {
    /// The latest block.
    pub fn latest() -> (r: BlockId)
        ensures
            r == BlockId::Number(BlockNumberOrTag::Latest),
    {
        BlockId::Number(BlockNumberOrTag::Latest)
    }

    /// The pending block.
    pub fn pending() -> (r: BlockId)
        ensures
            r == BlockId::Number(BlockNumberOrTag::Pending),
    {
        BlockId::Number(BlockNumberOrTag::Pending)
    }

    /// The block at height `number`.
    pub fn number(number: u64) -> (r: BlockId)
        ensures
            r == BlockId::Number(BlockNumberOrTag::Number(number)),
    {
        BlockId::Number(BlockNumberOrTag::Number(number))
    }
}

} // verus!
