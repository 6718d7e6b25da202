//! Errors of payload building and validation.
//!
//! An error that wraps a foreign error holds that error's message: what it
//! says is all that is read of it here.

use vstd::prelude::*;
use vstd::string::*;
use crate::primitives::B256;

verus! {

/// Why building a payload failed.
#[derive(Clone, Debug, PartialEq, Eq)]
pub enum PayloadBuilderError {
    /// The header of the parent block is missing.
    MissingParentHeader(B256),
    /// The parent block is missing.
    MissingParentBlock(B256),
    /// The channel to the payload job is closed.
    ChannelClosed,
    /// There is no payload to resolve.
    MissingPayload,
    /// An internal error of the node, by its message.
    Internal(String),
    /// The EVM failed beyond recovery, by the failure's message.
    EvmExecutionError(String),
    /// Any other failure, by its message.
    Other(String),
}

pub enum PayloadBuilderErrorView {
    MissingParentHeader(B256),
    MissingParentBlock(B256),
    ChannelClosed,
    MissingPayload,
    Internal(Seq<char>),
    EvmExecutionError(Seq<char>),
    Other(Seq<char>),
}

impl View for PayloadBuilderError {
    type V = PayloadBuilderErrorView;

    open spec fn view(&self) -> PayloadBuilderErrorView {
        match *self {
            PayloadBuilderError::MissingParentHeader(h) => {
                PayloadBuilderErrorView::MissingParentHeader(h)
            },
            PayloadBuilderError::MissingParentBlock(h) => {
                PayloadBuilderErrorView::MissingParentBlock(h)
            },
            PayloadBuilderError::ChannelClosed => PayloadBuilderErrorView::ChannelClosed,
            PayloadBuilderError::MissingPayload => PayloadBuilderErrorView::MissingPayload,
            PayloadBuilderError::Internal(m) => PayloadBuilderErrorView::Internal(m@),
            PayloadBuilderError::EvmExecutionError(m) => PayloadBuilderErrorView::EvmExecutionError(
                m@,
            ),
            PayloadBuilderError::Other(m) => PayloadBuilderErrorView::Other(m@),
        }
    }
}

impl PayloadBuilderError {
    /// An EVM failure with the message `error`.
    pub fn evm(error: String) -> (r: Self)
        ensures
            r@ == PayloadBuilderErrorView::EvmExecutionError(error@),
    {
        PayloadBuilderError::EvmExecutionError(error)
    }

    /// Another failure with the message `error`.
    pub fn other(error: String) -> (r: Self)
        ensures
            r@ == PayloadBuilderErrorView::Other(error@),
    {
        PayloadBuilderError::Other(error)
    }
}

/// Which field is present that the engine method's version does not
/// know, or absent though the version demands it.
#[derive(Clone, Copy, Debug, PartialEq, Eq)]
pub enum VersionSpecificValidationError {
    ParentBeaconBlockRootNotSupportedBeforeV3,
    WithdrawalsNotSupportedInV1,
    NoWithdrawalsPostShanghai,
    HasWithdrawalsPreShanghai,
    NoParentBeaconBlockRootPostCancun,
}

impl VersionSpecificValidationError {
    /// What the error says.
    pub open spec fn message_spec(&self) -> Seq<char> {
        match *self {
            VersionSpecificValidationError::ParentBeaconBlockRootNotSupportedBeforeV3 => {
                "parent beacon block root not supported before V3"@
            },
            VersionSpecificValidationError::WithdrawalsNotSupportedInV1 => {
                "withdrawals not supported in V1"@
            },
            VersionSpecificValidationError::NoWithdrawalsPostShanghai => {
                "no withdrawals post-Shanghai"@
            },
            VersionSpecificValidationError::HasWithdrawalsPreShanghai => {
                "withdrawals pre-Shanghai"@
            },
            VersionSpecificValidationError::NoParentBeaconBlockRootPostCancun => {
                "no parent beacon block root post-cancun"@
            },
        }
    }

    /// What the error says.
    pub fn message(&self) -> (r: String)
        ensures
            r@ == self.message_spec(),
    {
        match self {
            VersionSpecificValidationError::ParentBeaconBlockRootNotSupportedBeforeV3 => {
                "parent beacon block root not supported before V3".to_owned()
            },
            VersionSpecificValidationError::WithdrawalsNotSupportedInV1 => {
                "withdrawals not supported in V1".to_owned()
            },
            VersionSpecificValidationError::NoWithdrawalsPostShanghai => {
                "no withdrawals post-Shanghai".to_owned()
            },
            VersionSpecificValidationError::HasWithdrawalsPreShanghai => {
                "withdrawals pre-Shanghai".to_owned()
            },
            VersionSpecificValidationError::NoParentBeaconBlockRootPostCancun => {
                "no parent beacon block root post-cancun".to_owned()
            },
        }
    }
}

/// Why a payload or its attributes are known to be invalid before they
/// are processed.
#[derive(Clone, Debug, PartialEq, Eq)]
pub enum EngineObjectValidationError {
    /// The execution payload has a field that its version forbids, or
    /// lacks one that it demands.
    Payload(VersionSpecificValidationError),
    /// The payload attributes have a field that their version forbids, or
    /// lack one that it demands.
    PayloadAttributes(VersionSpecificValidationError),
    /// The engine method is meant for a fork later than the object's
    /// timestamp.
    UnsupportedFork,
    /// Another error, by its message.
    InvalidParams(String),
}

pub enum EngineObjectValidationErrorView {
    Payload(VersionSpecificValidationError),
    PayloadAttributes(VersionSpecificValidationError),
    UnsupportedFork,
    InvalidParams(Seq<char>),
}

impl View for EngineObjectValidationError {
    type V = EngineObjectValidationErrorView;

    open spec fn view(&self) -> EngineObjectValidationErrorView {
        match *self {
            EngineObjectValidationError::Payload(e) => EngineObjectValidationErrorView::Payload(e),
            EngineObjectValidationError::PayloadAttributes(e) => {
                EngineObjectValidationErrorView::PayloadAttributes(e)
            },
            EngineObjectValidationError::UnsupportedFork => {
                EngineObjectValidationErrorView::UnsupportedFork
            },
            EngineObjectValidationError::InvalidParams(m) => {
                EngineObjectValidationErrorView::InvalidParams(m@)
            },
        }
    }
}

/// What an engine object validation error says.
pub open spec fn engine_object_message(e: EngineObjectValidationErrorView) -> Seq<char> {
    match e {
        EngineObjectValidationErrorView::Payload(inner) => "Payload validation error: "@
            + inner.message_spec(),
        EngineObjectValidationErrorView::PayloadAttributes(inner) => {
            "Payload attributes validation error: "@ + inner.message_spec()
        },
        EngineObjectValidationErrorView::UnsupportedFork => "Unsupported fork"@,
        EngineObjectValidationErrorView::InvalidParams(m) => "Invalid params: "@ + m,
    }
}

impl EngineObjectValidationError {
    /// An error of the `InvalidParams` kind with the message `error`.
    pub fn invalid_params(error: String) -> (r: Self)
        ensures
            r@ == EngineObjectValidationErrorView::InvalidParams(error@),
    {
        EngineObjectValidationError::InvalidParams(error)
    }

    /// What the error says.
    pub fn message(&self) -> (r: String)
        ensures
            r@ == engine_object_message(self@),
    {
        match self {
            EngineObjectValidationError::Payload(inner) => {
                let text = inner.message();
                "Payload validation error: ".to_owned().concat(text.as_str())
            },
            EngineObjectValidationError::PayloadAttributes(inner) => {
                let text = inner.message();
                "Payload attributes validation error: ".to_owned().concat(text.as_str())
            },
            EngineObjectValidationError::UnsupportedFork => "Unsupported fork".to_owned(),
            EngineObjectValidationError::InvalidParams(m) => {
                "Invalid params: ".to_owned().concat(m.as_str())
            },
        }
    }
}

/// What is wrong with a payload received over the `newPayload` API, as
/// far as it is read here.
#[derive(Clone, Copy, Debug, PartialEq, Eq)]
pub enum PayloadErrorKind {
    /// The block hash that the payload claims is not the one computed.
    BlockHash,
    /// The versioned hashes do not match the blob transactions.
    InvalidVersionedHashes,
    /// Anything else.
    Other,
}

/// Why a payload received over the `newPayload` API is invalid.
#[derive(Clone, Debug, PartialEq, Eq)]
pub enum NewPayloadError {
    /// The payload fails Ethereum's own validation.
    Eth { kind: PayloadErrorKind, message: String },
    /// The payload fails a custom validation, by its message.
    Other(String),
}

pub enum NewPayloadErrorView {
    Eth { kind: PayloadErrorKind, message: Seq<char> },
    Other(Seq<char>),
}

impl View for NewPayloadError {
    type V = NewPayloadErrorView;

    open spec fn view(&self) -> NewPayloadErrorView {
        match *self {
            NewPayloadError::Eth { kind, message } => NewPayloadErrorView::Eth {
                kind,
                message: message@,
            },
            NewPayloadError::Other(m) => NewPayloadErrorView::Other(m@),
        }
    }
}

/// What a `newPayload` error says.
pub open spec fn new_payload_message(e: NewPayloadErrorView) -> Seq<char> {
    match e {
        NewPayloadErrorView::Eth { message, .. } => message,
        NewPayloadErrorView::Other(m) => m,
    }
}

/// The status of a processed payload.
#[derive(Clone, Debug, PartialEq, Eq)]
pub enum PayloadStatusEnum {
    Valid,
    Invalid { validation_error: String },
    Syncing,
    Accepted,
}

impl NewPayloadError {
    /// A custom validation error with the message `error`.
    pub fn other(error: String) -> (r: Self)
        ensures
            r@ == NewPayloadErrorView::Other(error@),
    {
        NewPayloadError::Other(error)
    }

    /// Whether the error is a block hash mismatch.
    pub fn is_block_hash_mismatch(&self) -> (r: bool)
        ensures
            r == (self@ matches NewPayloadErrorView::Eth { kind, .. } && kind
                == PayloadErrorKind::BlockHash),
    {
        match self {
            NewPayloadError::Eth { kind: PayloadErrorKind::BlockHash, .. } => true,
            _ => false,
        }
    }

    /// Whether the error is about invalid versioned hashes.
    pub fn is_invalid_versioned_hashes(&self) -> (r: bool)
        ensures
            r == (self@ matches NewPayloadErrorView::Eth { kind, .. } && kind
                == PayloadErrorKind::InvalidVersionedHashes),
    {
        match self {
            NewPayloadError::Eth { kind: PayloadErrorKind::InvalidVersionedHashes, .. } => true,
            _ => false,
        }
    }

    /// The status that reports this error: invalid, with what the error
    /// says.
    pub fn into_payload_status(self) -> (r: PayloadStatusEnum)
        ensures
            r matches PayloadStatusEnum::Invalid { validation_error } && validation_error@
                == new_payload_message(self@),
    {
        match self {
            NewPayloadError::Eth { message, .. } => PayloadStatusEnum::Invalid {
                validation_error: message,
            },
            NewPayloadError::Other(m) => PayloadStatusEnum::Invalid { validation_error: m },
        }
    }
}

/// Why payload attributes are incorrect.
#[derive(Clone, Debug, PartialEq, Eq)]
pub enum InvalidPayloadAttributesError {
    /// The timestamp contradicts the engine's rules.
    InvalidTimestamp,
    /// Another error, by its message.
    InvalidParams(String),
}

pub enum InvalidPayloadAttributesErrorView {
    InvalidTimestamp,
    InvalidParams(Seq<char>),
}

impl View for InvalidPayloadAttributesError {
    type V = InvalidPayloadAttributesErrorView;

    open spec fn view(&self) -> InvalidPayloadAttributesErrorView {
        match *self {
            InvalidPayloadAttributesError::InvalidTimestamp => {
                InvalidPayloadAttributesErrorView::InvalidTimestamp
            },
            InvalidPayloadAttributesError::InvalidParams(m) => {
                InvalidPayloadAttributesErrorView::InvalidParams(m@)
            },
        }
    }
}

/// How a forkchoice update fails.
#[derive(Clone, Copy, Debug, PartialEq, Eq)]
pub enum ForkchoiceUpdateError {
    UpdatedInvalidPayloadAttributes,
    InvalidState,
    UnknownFinalBlock,
    TooDeepReorg,
}

impl InvalidPayloadAttributesError {
    /// What the error says.
    pub open spec fn message_spec(&self) -> Seq<char> {
        match *self {
            InvalidPayloadAttributesError::InvalidTimestamp => "invalid timestamp"@,
            InvalidPayloadAttributesError::InvalidParams(m) => "Invalid params: "@ + m@,
        }
    }

    /// What the error says.
    pub fn message(&self) -> (r: String)
        ensures
            r@ == self.message_spec(),
    {
        match self {
            InvalidPayloadAttributesError::InvalidTimestamp => "invalid timestamp".to_owned(),
            InvalidPayloadAttributesError::InvalidParams(m) => {
                "Invalid params: ".to_owned().concat(m.as_str())
            },
        }
    }

    /// The forkchoice update failure that this error amounts to: the
    /// update stands, its payload attributes are invalid.
    pub fn into_forkchoice_update_error(self) -> (r: ForkchoiceUpdateError)
        ensures
            r == ForkchoiceUpdateError::UpdatedInvalidPayloadAttributes,
    {
        ForkchoiceUpdateError::UpdatedInvalidPayloadAttributes
    }
}

} // verus!
