//! The records of the marketplace.

use vstd::prelude::*;
use anchor_lang::prelude::Pubkey;

verus! {

/// The longest product name, in bytes.
pub const MAX_NAME_LEN: usize = 64;

/// The longest product description, in bytes.
pub const MAX_DESC_LEN: usize = 256;

/// The marketplace itself, one record per deployment.
///
/// Once set up, `product_count` and `total_sales` only ever grow.
#[derive(Clone, Copy, Debug, PartialEq, Eq)]
pub struct MarketplaceState {
    /// Who may manage the catalogue.
    pub admin: Pubkey,
    /// The token that purchases are paid in.
    pub token_mint: Pubkey,
    /// The token account that payments go to.
    pub treasury: Pubkey,
    /// How many products were ever added; the next product's id.
    pub product_count: u64,
    /// The tokens paid in all purchases so far.
    pub total_sales: u64,
    /// Whether the record has been set up.
    pub is_initialized: bool,
    /// The bump of the record's derived address.
    pub bump: u8,
}

/// An entry of the catalogue.
#[derive(Clone, Debug, PartialEq, Eq)]
pub struct Product {
    /// The product's number in the order of creation.
    pub id: u64,
    /// The address of the marketplace that lists it.
    pub marketplace: Pubkey,
    pub name: String,
    pub description: String,
    /// Tokens per unit; never zero.
    pub price: u64,
    /// Units left for sale.
    pub stock: u64,
    /// Units sold so far.
    pub sold_count: u64,
    /// Whether the product can be bought and updated.
    pub is_active: bool,
    /// Who added the product.
    pub seller: Pubkey,
    pub created_at: i64,
    pub updated_at: i64,
    /// The bump of the record's derived address.
    pub bump: u8,
}

/// The receipt of one purchase. Never changed once written.
#[derive(Clone, Copy, Debug, PartialEq, Eq)]
pub struct Purchase {
    /// The marketplace's `total_sales` when the purchase was made, before
    /// the purchase itself was counted.
    pub id: u64,
    pub product_id: u64,
    pub buyer: Pubkey,
    pub quantity: u64,
    /// The tokens paid: the product's price times `quantity`.
    pub total_price: u64,
    pub timestamp: i64,
    /// The bump of the record's derived address.
    pub bump: u8,
}

} // verus!
