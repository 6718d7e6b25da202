//! The errors that tracing reports to its caller.

use vstd::prelude::*;
use vstd::string::*;
use crate::chain::BlockId;

verus! {

/// Why a tracing request could not be answered.
#[derive(Clone, Debug, PartialEq, Eq)]
pub enum EthApiError {
    /// No header is known for the block.
    HeaderNotFound(BlockId),
    /// The request's parameters contradict each other or exceed a limit.
    InvalidParams(String),
    /// No transaction is known under the hash.
    TransactionNotFound,
    /// A raw transaction of no bytes.
    EmptyRawTransactionData,
    /// The bytes of a raw transaction are not a signed transaction.
    FailedToDecodeSignedTransaction,
    /// No sender can be recovered from a raw transaction's signature.
    InvalidTransactionSignature,
}

pub enum EthApiErrorView {
    HeaderNotFound(BlockId),
    InvalidParams(Seq<char>),
    TransactionNotFound,
    EmptyRawTransactionData,
    FailedToDecodeSignedTransaction,
    InvalidTransactionSignature,
}

/// Whether an error blames the request's parameters.
pub open spec fn blames_params(e: EthApiErrorView) -> bool {
    e is InvalidParams || e is EmptyRawTransactionData || e is FailedToDecodeSignedTransaction
        || e is InvalidTransactionSignature
}

impl View for EthApiError {
    type V = EthApiErrorView;

    open spec fn view(&self) -> EthApiErrorView {
        match *self {
            EthApiError::HeaderNotFound(id) => EthApiErrorView::HeaderNotFound(id),
            EthApiError::InvalidParams(msg) => EthApiErrorView::InvalidParams(msg@),
            EthApiError::TransactionNotFound => EthApiErrorView::TransactionNotFound,
            EthApiError::EmptyRawTransactionData => EthApiErrorView::EmptyRawTransactionData,
            EthApiError::FailedToDecodeSignedTransaction => {
                EthApiErrorView::FailedToDecodeSignedTransaction
            },
            EthApiError::InvalidTransactionSignature => {
                EthApiErrorView::InvalidTransactionSignature
            },
        }
    }
}

/// The message of the error for a range that ends before it starts.
pub open spec fn range_reversed_message() -> Seq<char> {
    "invalid parameters: fromBlock cannot be greater than toBlock"@
}

/// The message of the error for a range that spans too many blocks.
pub open spec fn range_too_large_message() -> Seq<char> {
    "Block range too large; currently limited to 100 blocks"@
}

impl EthApiError {
    /// Whether the error blames the request's parameters, as opposed to
    /// something that the node does not know.
    pub fn is_invalid_params(&self) -> (r: bool)
        ensures
            r == blames_params(self@),
    {
        match self {
            EthApiError::HeaderNotFound(_) => false,
            EthApiError::TransactionNotFound => false,
            _ => true,
        }
    }

    /// The error for a range that ends before it starts.
    pub fn range_reversed() -> (r: EthApiError)
        ensures
            r@ == EthApiErrorView::InvalidParams(range_reversed_message()),
    {
        EthApiError::InvalidParams(
            "invalid parameters: fromBlock cannot be greater than toBlock".to_owned(),
        )
    }

    /// The error for a range that spans too many blocks.
    pub fn range_too_large() -> (r: EthApiError)
        ensures
            r@ == EthApiErrorView::InvalidParams(range_too_large_message()),
    {
        EthApiError::InvalidParams(
            "Block range too large; currently limited to 100 blocks".to_owned(),
        )
    }
}

} // verus!
