//! Managing the catalogue: adding, updating and withdrawing products.

use vstd::prelude::*;
use anchor_lang::prelude::Pubkey;
use crate::keys::same_key;
use crate::marketplace::errors::MarketplaceError;
use crate::marketplace::state::{MarketplaceState, Product, MAX_DESC_LEN, MAX_NAME_LEN};

verus! {

/// The accounts of [`add_product`].
#[derive(Clone, Copy, Debug, PartialEq, Eq)]
pub struct AddProduct {
    pub marketplace: MarketplaceState,
    /// The address of the marketplace record.
    pub marketplace_key: Pubkey,
    /// The caller.
    pub admin: Pubkey,
    /// The bump of the new product record's derived address.
    pub bump: u8,
}

/// The accounts of [`update_product`].
#[derive(Clone, Debug, PartialEq, Eq)]
pub struct UpdateProduct {
    pub marketplace: MarketplaceState,
    pub product: Product,
    /// The caller.
    pub admin: Pubkey,
}

/// The accounts of [`deactivate_product`].
#[derive(Clone, Debug, PartialEq, Eq)]
pub struct DeactivateProduct {
    pub marketplace: MarketplaceState,
    pub product: Product,
    /// The caller.
    pub admin: Pubkey,
}

/// The length of a text in bytes, as it is stored.
pub open spec fn stored_len(text: Seq<char>) -> nat {
    vstd::utf8::encode_utf8(text).len()
}

impl AddProduct {
    /// The first rule that a request to add a product breaks, if it breaks
    /// one.
    pub open spec fn rejection(
        &self,
        name: Seq<char>,
        description: Seq<char>,
        price: u64,
        stock: u64,
    ) -> Option<MarketplaceError> {
        if self.admin != self.marketplace.admin {
            Some(MarketplaceError::Unauthorized)
        } else if stored_len(name) > MAX_NAME_LEN {
            Some(MarketplaceError::NameTooLong)
        } else if stored_len(description) > MAX_DESC_LEN {
            Some(MarketplaceError::DescriptionTooLong)
        } else if price == 0 {
            Some(MarketplaceError::InvalidPrice)
        } else if stock == 0 {
            Some(MarketplaceError::InvalidStock)
        } else if self.marketplace.product_count == u64::MAX {
            Some(MarketplaceError::Overflow)
        } else {
            None
        }
    }

    /// The product that a successful call creates.
    pub open spec fn listed(
        &self,
        name: String,
        description: String,
        price: u64,
        stock: u64,
        now: i64,
    ) -> Product {
        Product {
            id: self.marketplace.product_count,
            marketplace: self.marketplace_key,
            name,
            description,
            price,
            stock,
            sold_count: 0,
            is_active: true,
            seller: self.admin,
            created_at: now,
            updated_at: now,
            bump: self.bump,
        }
    }

    /// The accounts after a product has been added.
    pub open spec fn counted(self) -> AddProduct {
        AddProduct {
            marketplace: MarketplaceState {
                product_count: (self.marketplace.product_count + 1) as u64,
                ..self.marketplace
            },
            ..self
        }
    }
}

/// Adds a product to the catalogue at time `now` and returns its record.
///
/// The rules, in the order in which they are tested: the caller is the
/// marketplace's admin; the name has at most [`MAX_NAME_LEN`] bytes and the
/// description at most [`MAX_DESC_LEN`]; price and stock are not zero; the
/// product count can still grow. The product gets the marketplace's product
/// count as its id, and the count goes up by one. A refused call changes
/// nothing.
pub fn add_product(
    accounts: &mut AddProduct,
    name: String,
    description: String,
    price: u64,
    stock: u64,
    now: i64,
) -> (added: Result<Product, MarketplaceError>)
    ensures
        added == match old(accounts).rejection(name@, description@, price, stock) {
            Some(e) => Err::<Product, MarketplaceError>(e),
            None => Ok(old(accounts).listed(name, description, price, stock, now)),
        },
        added is Ok ==> *final(accounts) == old(accounts).counted(),
        added is Err ==> *final(accounts) == *old(accounts),
{
    if !same_key(&accounts.admin, &accounts.marketplace.admin) {
        return Err(MarketplaceError::Unauthorized);
    }
    if name.as_str().as_bytes().len() > MAX_NAME_LEN {
        return Err(MarketplaceError::NameTooLong);
    }
    if description.as_str().as_bytes().len() > MAX_DESC_LEN {
        return Err(MarketplaceError::DescriptionTooLong);
    }
    if price == 0 {
        return Err(MarketplaceError::InvalidPrice);
    }
    if stock == 0 {
        return Err(MarketplaceError::InvalidStock);
    }
    let product_id: u64 = accounts.marketplace.product_count;
    let product_count: u64 = match product_id.checked_add(1) {
        Some(count) => count,
        None => {
            return Err(MarketplaceError::Overflow);
        },
    };
    accounts.marketplace.product_count = product_count;
    Ok(
        Product {
            id: product_id,
            marketplace: accounts.marketplace_key,
            name,
            description,
            price,
            stock,
            sold_count: 0,
            is_active: true,
            seller: accounts.admin,
            created_at: now,
            updated_at: now,
            bump: accounts.bump,
        },
    )
}

impl UpdateProduct {
    /// The first rule that a request to update the product breaks, if it
    /// breaks one.
    pub open spec fn rejection(&self, price: Option<u64>) -> Option<MarketplaceError> {
        if self.admin != self.marketplace.admin {
            Some(MarketplaceError::Unauthorized)
        } else if !self.product.is_active {
            Some(MarketplaceError::ProductNotActive)
        } else if price == Some(0u64) {
            Some(MarketplaceError::InvalidPrice)
        } else {
            None
        }
    }

    /// The accounts after the update: each value that was given replaces the
    /// product's, each one left out leaves the product's as it was.
    pub open spec fn updated(self, price: Option<u64>, stock: Option<u64>, now: i64) -> UpdateProduct {
        UpdateProduct {
            product: Product {
                price: match price {
                    Some(new_price) => new_price,
                    None => self.product.price,
                },
                stock: match stock {
                    Some(new_stock) => new_stock,
                    None => self.product.stock,
                },
                updated_at: now,
                ..self.product
            },
            ..self
        }
    }
}

/// Changes the price, the stock, both or neither of a product at time `now`.
///
/// The rules, in the order in which they are tested: the caller is the
/// marketplace's admin; the product is active; a new price is not zero. A
/// new stock may be any number. A refused call changes nothing.
pub fn update_product(
    accounts: &mut UpdateProduct,
    price: Option<u64>,
    stock: Option<u64>,
    now: i64,
) -> (done: Result<(), MarketplaceError>)
    ensures
        done == match old(accounts).rejection(price) {
            Some(e) => Err::<(), MarketplaceError>(e),
            None => Ok(()),
        },
        done is Ok ==> *final(accounts) == old(accounts).updated(price, stock, now),
        done is Err ==> *final(accounts) == *old(accounts),
{
    if !same_key(&accounts.admin, &accounts.marketplace.admin) {
        return Err(MarketplaceError::Unauthorized);
    }
    if !accounts.product.is_active {
        return Err(MarketplaceError::ProductNotActive);
    }
    if let Some(new_price) = price {
        if new_price == 0 {
            return Err(MarketplaceError::InvalidPrice);
        }
        accounts.product.price = new_price;
    }
    if let Some(new_stock) = stock {
        accounts.product.stock = new_stock;
    }
    accounts.product.updated_at = now;
    Ok(())
}

impl DeactivateProduct {
    /// The accounts after the product has been withdrawn.
    pub open spec fn withdrawn(self, now: i64) -> DeactivateProduct {
        DeactivateProduct {
            product: Product { is_active: false, updated_at: now, ..self.product },
            ..self
        }
    }
}

/// Withdraws a product from sale at time `now`. Only the marketplace's admin
/// may; for anyone else the call fails with `Unauthorized` and changes
/// nothing. Withdrawing a withdrawn product succeeds and renews its
/// `updated_at`.
pub fn deactivate_product(accounts: &mut DeactivateProduct, now: i64) -> (done: Result<
    (),
    MarketplaceError,
>)
    ensures
        done == if old(accounts).admin == old(accounts).marketplace.admin {
            Ok::<(), MarketplaceError>(())
        } else {
            Err(MarketplaceError::Unauthorized)
        },
        done is Ok ==> *final(accounts) == old(accounts).withdrawn(now),
        done is Err ==> *final(accounts) == *old(accounts),
{
    if !same_key(&accounts.admin, &accounts.marketplace.admin) {
        return Err(MarketplaceError::Unauthorized);
    }
    accounts.product.is_active = false;
    accounts.product.updated_at = now;
    Ok(())
}

} // verus!
