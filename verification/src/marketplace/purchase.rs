//! Buying a product.
//!
//! A purchase takes two calls with the payment between them:
//! [`quote_purchase`] checks the request and names the price, the caller has
//! the token program move that many tokens from the buyer to the treasury, and
//! [`purchase_product`] then books the sale.

use vstd::prelude::*;
use anchor_lang::prelude::Pubkey;
use crate::keys::same_key;
use crate::marketplace::errors::MarketplaceError;
use crate::marketplace::state::{MarketplaceState, Product, Purchase};

verus! {

/// The decimals of the token that purchases are paid in, as the token
/// program wants them named with every transfer.
pub const TOKEN_DECIMALS: u8 = 9;

/// What a purchase reads of a token account.
#[derive(Clone, Copy, Debug, PartialEq, Eq)]
pub struct TokenAccount {
    /// The token that the account holds.
    pub mint: Pubkey,
    /// How many tokens it holds.
    pub amount: u64,
}

/// The accounts of a purchase.
#[derive(Clone, Debug, PartialEq, Eq)]
pub struct PurchaseProduct {
    pub marketplace: MarketplaceState,
    pub product: Product,
    /// The account that the buyer pays from, as it is before the payment.
    pub buyer_token_account: TokenAccount,
    /// The address of the token account that the payment goes to.
    pub treasury: Pubkey,
    pub buyer: Pubkey,
    /// The bump of the receipt's derived address.
    pub bump: u8,
}

/// Whether the marketplace record went from `before` to `after` by booking
/// the sale that `receipt` records: the receipt's id is the total sales
/// before the sale, the total sales grew by the receipt's price, and nothing
/// else changed.
pub open spec fn books_sale(before: MarketplaceState, after: MarketplaceState, receipt: Purchase) -> bool {
    &&& receipt.id == before.total_sales
    &&& after.total_sales == before.total_sales + receipt.total_price
    &&& after == (MarketplaceState { total_sales: after.total_sales, ..before })
}

impl PurchaseProduct {
    /// The price of `quantity` units, unbounded.
    pub open spec fn price_of(&self, quantity: u64) -> int {
        self.product.price * quantity
    }

    /// The first rule that a request for `quantity` units of product
    /// `product_id` breaks, if it breaks one.
    pub open spec fn rejection(&self, product_id: u64, quantity: u64) -> Option<MarketplaceError> {
        if self.product.id != product_id {
            Some(MarketplaceError::ProductNotFound)
        } else if self.buyer_token_account.mint != self.marketplace.token_mint {
            Some(MarketplaceError::InvalidTokenMint)
        } else if self.treasury != self.marketplace.treasury {
            Some(MarketplaceError::InvalidTreasury)
        } else if !self.product.is_active {
            Some(MarketplaceError::ProductNotActive)
        } else if quantity == 0 {
            Some(MarketplaceError::InvalidQuantity)
        } else if self.product.stock < quantity {
            Some(MarketplaceError::InsufficientStock)
        } else if self.price_of(quantity) > u64::MAX {
            Some(MarketplaceError::Overflow)
        } else if self.buyer_token_account.amount < self.price_of(quantity) {
            Some(MarketplaceError::InsufficientBalance)
        } else {
            None
        }
    }

    /// What [`quote_purchase`] answers: the price, or the first broken rule.
    pub open spec fn quote(&self, product_id: u64, quantity: u64) -> Result<u64, MarketplaceError> {
        match self.rejection(product_id, quantity) {
            Some(e) => Err(e),
            None => Ok(self.price_of(quantity) as u64),
        }
    }

    /// Whether the counters can take a sale of `quantity` units.
    pub open spec fn has_room(&self, quantity: u64) -> bool {
        &&& self.product.sold_count + quantity <= u64::MAX
        &&& self.marketplace.total_sales + self.price_of(quantity) <= u64::MAX
    }

    /// The accounts after a sale of `quantity` units has been booked.
    pub open spec fn sold(self, quantity: u64) -> PurchaseProduct {
        PurchaseProduct {
            marketplace: MarketplaceState {
                total_sales: (self.marketplace.total_sales + self.price_of(quantity)) as u64,
                ..self.marketplace
            },
            product: Product {
                stock: (self.product.stock - quantity) as u64,
                sold_count: (self.product.sold_count + quantity) as u64,
                ..self.product
            },
            ..self
        }
    }

    /// The receipt of a sale of `quantity` units made at `now`.
    pub open spec fn receipt(&self, product_id: u64, quantity: u64, now: i64) -> Purchase {
        Purchase {
            id: self.marketplace.total_sales,
            product_id,
            buyer: self.buyer,
            quantity,
            total_price: self.price_of(quantity) as u64,
            timestamp: now,
            bump: self.bump,
        }
    }

    /// What [`purchase_product`] answers: the receipt, or why nothing was
    /// sold.
    pub open spec fn outcome(&self, product_id: u64, quantity: u64, now: i64) -> Result<
        Purchase,
        MarketplaceError,
    > {
        match self.rejection(product_id, quantity) {
            Some(e) => Err(e),
            None => if self.has_room(quantity) {
                Ok(self.receipt(product_id, quantity, now))
            } else {
                Err(MarketplaceError::Overflow)
            },
        }
    }
}

/// Checks a request to buy `quantity` units of product `product_id` and
/// names the tokens to pay. Changes nothing.
///
/// The rules, in the order in which they are tested: the product record
/// carries the id asked for; the buyer's token account is of the
/// marketplace's mint; the treasury is the marketplace's; the product is
/// active; the quantity is not zero; the stock covers it; the price fits in
/// 64 bits; the buyer's balance covers the price.
pub fn quote_purchase(accounts: &PurchaseProduct, product_id: u64, quantity: u64) -> (quoted: Result<
    u64,
    MarketplaceError,
>)
    ensures
        quoted == accounts.quote(product_id, quantity),
{
    if accounts.product.id != product_id {
        return Err(MarketplaceError::ProductNotFound);
    }
    if !same_key(&accounts.buyer_token_account.mint, &accounts.marketplace.token_mint) {
        return Err(MarketplaceError::InvalidTokenMint);
    }
    if !same_key(&accounts.treasury, &accounts.marketplace.treasury) {
        return Err(MarketplaceError::InvalidTreasury);
    }
    if !accounts.product.is_active {
        return Err(MarketplaceError::ProductNotActive);
    }
    if quantity == 0 {
        return Err(MarketplaceError::InvalidQuantity);
    }
    if accounts.product.stock < quantity {
        return Err(MarketplaceError::InsufficientStock);
    }
    let total_price: u64 = match accounts.product.price.checked_mul(quantity) {
        Some(total) => total,
        None => {
            return Err(MarketplaceError::Overflow);
        },
    };
    if accounts.buyer_token_account.amount < total_price {
        return Err(MarketplaceError::InsufficientBalance);
    }
    Ok(total_price)
}

/// Books the sale of `quantity` units of product `product_id` at time `now`,
/// to be called once the price that [`quote_purchase`] named has been paid.
///
/// The request is checked as in [`quote_purchase`]. If it passes and the
/// counters have room, the stock goes down and the product's sold count up by
/// `quantity`, the marketplace's total sales go up by the price, and the
/// receipt is returned. Otherwise nothing changes.
pub fn purchase_product(
    accounts: &mut PurchaseProduct,
    product_id: u64,
    quantity: u64,
    now: i64,
) -> (bought: Result<Purchase, MarketplaceError>)
    ensures
        bought == old(accounts).outcome(product_id, quantity, now),
        bought is Ok ==> *final(accounts) == old(accounts).sold(quantity),
        bought is Err ==> *final(accounts) == *old(accounts),
        bought is Ok ==> final(accounts).product.stock == old(accounts).product.stock - quantity,
        bought is Ok ==> final(accounts).product.sold_count == old(accounts).product.sold_count
            + quantity,
        bought matches Ok(receipt) ==> books_sale(
            old(accounts).marketplace,
            final(accounts).marketplace,
            receipt,
        ),
{
    let total_price: u64 = match quote_purchase(accounts, product_id, quantity) {
        Ok(total) => total,
        Err(e) => {
            return Err(e);
        },
    };
    let stock: u64 = match accounts.product.stock.checked_sub(quantity) {
        Some(left) => left,
        None => {
            return Err(MarketplaceError::Overflow);
        },
    };
    let sold_count: u64 = match accounts.product.sold_count.checked_add(quantity) {
        Some(sold) => sold,
        None => {
            return Err(MarketplaceError::Overflow);
        },
    };
    let total_sales: u64 = match accounts.marketplace.total_sales.checked_add(total_price) {
        Some(sales) => sales,
        None => {
            return Err(MarketplaceError::Overflow);
        },
    };
    let purchase = Purchase {
        id: accounts.marketplace.total_sales,
        product_id,
        buyer: accounts.buyer,
        quantity,
        total_price,
        timestamp: now,
        bump: accounts.bump,
    };
    accounts.product.stock = stock;
    accounts.product.sold_count = sold_count;
    accounts.marketplace.total_sales = total_sales;
    Ok(purchase)
}

} // verus!
