//! The Parity trace data model: actions, outputs, traces and their views.
//!
//! Each exec type that owns a buffer has a view type of the same shape in
//! which every `Vec` is a `Seq` and every `String` a `Seq<char>`. Contracts
//! speak of views, so two values with equal views are the same answer.

use vstd::prelude::*;
use crate::primitives::{Address, B256, U256};

verus! {

/// What a caller may ask to be recorded for a traced execution.
#[derive(Clone, Copy, Debug, PartialEq, Eq, Hash)]
pub enum TraceType {
    /// The call tree.
    Trace,
    /// The opcode-level trace.
    VmTrace,
    /// The per-account state changes.
    StateDiff,
}

/// How a call frame was entered.
#[derive(Clone, Copy, Debug, PartialEq, Eq, Hash)]
pub enum CallType {
    /// Not a call (the frame is a creation or a self-destruct).
    Unspecified,
    Call,
    CallCode,
    DelegateCall,
    StaticCall,
    AuthCall,
}

/// How a contract was created.
#[derive(Clone, Copy, Debug, PartialEq, Eq, Hash)]
pub enum CreationMethod {
    /// Not a creation.
    Unspecified,
    Create,
    Create2,
    EofCreate,
}

/// Who a reward went to: the block's miner or an ommer's.
#[derive(Clone, Copy, Debug, PartialEq, Eq, Hash)]
pub enum RewardType {
    Block,
    Uncle,
}

/// A message call.
#[derive(Clone, Debug, PartialEq, Eq)]
pub struct CallAction {
    pub from: Address,
    pub call_type: CallType,
    pub gas: u64,
    pub input: Vec<u8>,
    pub to: Address,
    pub value: U256,
}

pub struct CallActionView {
    pub from: Address,
    pub call_type: CallType,
    pub gas: u64,
    pub input: Seq<u8>,
    pub to: Address,
    pub value: U256,
}

impl View for CallAction {
    type V = CallActionView;

    open spec fn view(&self) -> CallActionView {
        CallActionView {
            from: self.from,
            call_type: self.call_type,
            gas: self.gas,
            input: self.input@,
            to: self.to,
            value: self.value,
        }
    }
}

/// A contract creation.
#[derive(Clone, Debug, PartialEq, Eq)]
pub struct CreateAction {
    pub from: Address,
    pub gas: u64,
    pub init: Vec<u8>,
    pub value: U256,
    pub creation_method: CreationMethod,
}

pub struct CreateActionView {
    pub from: Address,
    pub gas: u64,
    pub init: Seq<u8>,
    pub value: U256,
    pub creation_method: CreationMethod,
}

impl View for CreateAction {
    type V = CreateActionView;

    open spec fn view(&self) -> CreateActionView {
        CreateActionView {
            from: self.from,
            gas: self.gas,
            init: self.init@,
            value: self.value,
            creation_method: self.creation_method,
        }
    }
}

/// A contract's self-destruction.
#[derive(Clone, Copy, Debug, PartialEq, Eq)]
pub struct SelfdestructAction {
    pub address: Address,
    pub balance: U256,
    pub refund_address: Address,
}

/// A consensus reward; no transaction caused it.
#[derive(Clone, Copy, Debug, PartialEq, Eq)]
pub struct RewardAction {
    pub author: Address,
    pub reward_type: RewardType,
    pub value: U256,
}

/// What a frame did.
#[derive(Clone, Debug, PartialEq, Eq)]
pub enum Action {
    Call(CallAction),
    Create(CreateAction),
    Selfdestruct(SelfdestructAction),
    Reward(RewardAction),
}

pub enum ActionView {
    Call(CallActionView),
    Create(CreateActionView),
    Selfdestruct(SelfdestructAction),
    Reward(RewardAction),
}

impl View for Action {
    type V = ActionView;

    open spec fn view(&self) -> ActionView {
        match *self {
            Action::Call(a) => ActionView::Call(a@),
            Action::Create(a) => ActionView::Create(a@),
            Action::Selfdestruct(a) => ActionView::Selfdestruct(a),
            Action::Reward(a) => ActionView::Reward(a),
        }
    }
}

/// What a call returned.
#[derive(Clone, Debug, PartialEq, Eq)]
pub struct CallOutput {
    pub gas_used: u64,
    pub output: Vec<u8>,
}

pub struct CallOutputView {
    pub gas_used: u64,
    pub output: Seq<u8>,
}

impl View for CallOutput {
    type V = CallOutputView;

    open spec fn view(&self) -> CallOutputView {
        CallOutputView { gas_used: self.gas_used, output: self.output@ }
    }
}

/// What a creation left behind.
#[derive(Clone, Debug, PartialEq, Eq)]
pub struct CreateOutput {
    pub address: Address,
    pub code: Vec<u8>,
    pub gas_used: u64,
}

pub struct CreateOutputView {
    pub address: Address,
    pub code: Seq<u8>,
    pub gas_used: u64,
}

impl View for CreateOutput {
    type V = CreateOutputView;

    open spec fn view(&self) -> CreateOutputView {
        CreateOutputView { address: self.address, code: self.code@, gas_used: self.gas_used }
    }
}

/// The result of a frame that ran to its end.
#[derive(Clone, Debug, PartialEq, Eq)]
pub enum TraceOutput {
    Call(CallOutput),
    Create(CreateOutput),
}

pub enum TraceOutputView {
    Call(CallOutputView),
    Create(CreateOutputView),
}

impl View for TraceOutput {
    type V = TraceOutputView;

    open spec fn view(&self) -> TraceOutputView {
        match *self {
            TraceOutput::Call(o) => TraceOutputView::Call(o@),
            TraceOutput::Create(o) => TraceOutputView::Create(o@),
        }
    }
}

/// One frame of an execution, placed in its call tree by `trace_address`.
#[derive(Clone, Debug, PartialEq, Eq)]
pub struct TransactionTrace {
    pub action: Action,
    pub error: Option<String>,
    pub result: Option<TraceOutput>,
    pub subtraces: usize,
    pub trace_address: Vec<usize>,
}

pub struct TransactionTraceView {
    pub action: ActionView,
    pub error: Option<Seq<char>>,
    pub result: Option<TraceOutputView>,
    pub subtraces: usize,
    pub trace_address: Seq<usize>,
}

impl View for TransactionTrace {
    type V = TransactionTraceView;

    open spec fn view(&self) -> TransactionTraceView {
        TransactionTraceView {
            action: self.action@,
            error: match self.error {
                Some(e) => Some(e@),
                None => None,
            },
            result: match self.result {
                Some(o) => Some(o@),
                None => None,
            },
            subtraces: self.subtraces,
            trace_address: self.trace_address@,
        }
    }
}

/// A frame together with where in the chain it ran.
#[derive(Clone, Debug, PartialEq, Eq)]
pub struct LocalizedTransactionTrace {
    pub trace: TransactionTrace,
    pub block_hash: Option<B256>,
    pub block_number: Option<u64>,
    pub transaction_hash: Option<B256>,
    pub transaction_position: Option<u64>,
}

pub struct LocalizedTraceView {
    pub trace: TransactionTraceView,
    pub block_hash: Option<B256>,
    pub block_number: Option<u64>,
    pub transaction_hash: Option<B256>,
    pub transaction_position: Option<u64>,
}

impl View for LocalizedTransactionTrace {
    type V = LocalizedTraceView;

    open spec fn view(&self) -> LocalizedTraceView {
        LocalizedTraceView {
            trace: self.trace@,
            block_hash: self.block_hash,
            block_number: self.block_number,
            transaction_hash: self.transaction_hash,
            transaction_position: self.transaction_position,
        }
    }
}

/// Where a transaction sits: its own hash and index, and its block.
#[derive(Clone, Copy, Debug, PartialEq, Eq)]
pub struct TransactionInfo {
    pub hash: Option<B256>,
    pub index: Option<u64>,
    pub block_hash: Option<B256>,
    pub block_number: Option<u64>,
}

/// The views of a list of frames, in order.
pub open spec fn trace_views(s: Seq<TransactionTrace>) -> Seq<TransactionTraceView> {
    s.map_values(|t: TransactionTrace| t@)
}

/// The views of a list of localized frames, in order.
pub open spec fn localized_views(s: Seq<LocalizedTransactionTrace>) -> Seq<LocalizedTraceView> {
    s.map_values(|t: LocalizedTransactionTrace| t@)
}

} // verus!
