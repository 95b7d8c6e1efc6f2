//! Failures of the marketplace handlers.

use vstd::prelude::*;

verus! {

/// Why a marketplace handler refused a call. A refused call changes nothing.
#[derive(Clone, Copy, Debug, PartialEq, Eq, Structural)]
pub enum MarketplaceError {
    /// The caller is not the marketplace's admin.
    Unauthorized,
    /// The marketplace record is set up already.
    AlreadyInitialized,
    /// The marketplace record is not set up yet.
    NotInitialized,
    /// The product's name is longer than [`MAX_NAME_LEN`](crate::marketplace::state::MAX_NAME_LEN) bytes.
    NameTooLong,
    /// The product's description is longer than [`MAX_DESC_LEN`](crate::marketplace::state::MAX_DESC_LEN) bytes.
    DescriptionTooLong,
    /// A price of zero.
    InvalidPrice,
    /// A stock of zero.
    InvalidStock,
    /// The product is withdrawn from sale.
    ProductNotActive,
    /// The product record does not carry the id that was asked for.
    ProductNotFound,
    /// Fewer units are in stock than were asked for.
    InsufficientStock,
    /// A quantity of zero.
    InvalidQuantity,
    /// The buyer holds fewer tokens than the purchase costs.
    InsufficientBalance,
    /// A counter or a price left the range of 64 bits.
    Overflow,
    /// The buyer's token account is of another mint than the marketplace's.
    InvalidTokenMint,
    /// The treasury is not the one that the marketplace names.
    InvalidTreasury,
}

impl MarketplaceError {
    /// The text shown to a user for this failure.
    pub fn message(&self) -> (text: &'static str)
        ensures
            text@ == self.spec_message(),
    {
        match self {
            MarketplaceError::Unauthorized => "You are not authorized to perform this action",
            MarketplaceError::AlreadyInitialized => "The marketplace has already been initialized",
            MarketplaceError::NotInitialized => "The marketplace has not been initialized",
            MarketplaceError::NameTooLong => "Product name is too long",
            MarketplaceError::DescriptionTooLong => "Product description is too long",
            MarketplaceError::InvalidPrice => "Product price must be greater than zero",
            MarketplaceError::InvalidStock => "Product stock must be greater than zero",
            MarketplaceError::ProductNotActive => "Product is not active",
            MarketplaceError::ProductNotFound => "Product not found",
            MarketplaceError::InsufficientStock => "Insufficient stock available",
            MarketplaceError::InvalidQuantity => "Purchase quantity must be greater than zero",
            MarketplaceError::InsufficientBalance => "Insufficient balance to make purchase",
            MarketplaceError::Overflow => "Integer overflow",
            MarketplaceError::InvalidTokenMint => "Invalid token mint",
            MarketplaceError::InvalidTreasury => "Invalid treasury account",
        }
    }

    /// The message of each failure, as a sequence of characters.
    pub open spec fn spec_message(&self) -> Seq<char> {
        match self {
            MarketplaceError::Unauthorized => "You are not authorized to perform this action"@,
            MarketplaceError::AlreadyInitialized => "The marketplace has already been initialized"@,
            MarketplaceError::NotInitialized => "The marketplace has not been initialized"@,
            MarketplaceError::NameTooLong => "Product name is too long"@,
            MarketplaceError::DescriptionTooLong => "Product description is too long"@,
            MarketplaceError::InvalidPrice => "Product price must be greater than zero"@,
            MarketplaceError::InvalidStock => "Product stock must be greater than zero"@,
            MarketplaceError::ProductNotActive => "Product is not active"@,
            MarketplaceError::ProductNotFound => "Product not found"@,
            MarketplaceError::InsufficientStock => "Insufficient stock available"@,
            MarketplaceError::InvalidQuantity => "Purchase quantity must be greater than zero"@,
            MarketplaceError::InsufficientBalance => "Insufficient balance to make purchase"@,
            MarketplaceError::Overflow => "Integer overflow"@,
            MarketplaceError::InvalidTokenMint => "Invalid token mint"@,
            MarketplaceError::InvalidTreasury => "Invalid treasury account"@,
        }
    }
}

} // verus!
