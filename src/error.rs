//! The failures that a trade can end in.
use vstd::prelude::*;

verus! {

/// Why a trade did not end confirmed.
#[derive(Debug)]
pub enum TradeError {
    /// A channel could not be reached.
    ChannelNetwork { message: String },
    /// A channel refused the transaction, for the reason given.
    ChannelProvider { message: String },
    /// The transaction or a request could not be written.
    Build,
    /// No query saw the transaction within the query budget; it needs a new
    /// freshness token to be tried again.
    ConfirmationTimeout,
    /// The transaction landed and its program failed.
    OnChainProgram { error: String },
    /// A channel's configuration is unusable.
    Config,
}

} // verus!
