//! The engine's error taxonomy.
//!
//! Every failing operation aborts the whole invocation with no partial
//! writes and reports one of these structured errors.

use vstd::prelude::*;

verus! {

/// A structured failure of a command or a query.
#[derive(Debug, PartialEq, Eq)]
pub enum ContractError {
    /// An offer with this id already exists; the caller may pick a new id.
    DuplicateOffer { id: u64 },
    /// The claimed owner of a staked asset does not match the owner the
    /// asset registry reported, or the registry query itself failed.
    InvalidAsset { token_id: String },
    /// The caller is not the designated offeree of the offer.
    Unauthorized { offeree: String },
    /// No offer with the given id exists.
    NotFound { id: u64 },
    /// A party lacks the balance required for a token wager.
    InsufficientFunds { address: String },
    /// A hand byte outside the wire range was supplied.
    MalformedHand { code: u8 },
    /// The offeree's hand sequence length differs from the offeror's.
    HandCountMismatch { expected: usize, got: usize },
    /// The offer has already been accepted or declined; its status only
    /// moves forward, so no further transition is allowed.
    OfferClosed { id: u64 },
    /// An external response did not match the expected shape.
    DecodeError,
    /// A command came with more or fewer coins than the single one it
    /// requires.
    MultipleCoins { count: usize },
    /// The single coin accompanying a command has a zero amount.
    ZeroAmount { denom: String },
}

} // verus!
