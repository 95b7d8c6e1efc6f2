//! Setting up the marketplace.

use vstd::prelude::*;
use anchor_lang::prelude::Pubkey;
use crate::marketplace::errors::MarketplaceError;
use crate::marketplace::state::MarketplaceState;

verus! {

/// The accounts of [`initialize_marketplace`].
#[derive(Clone, Copy, Debug, PartialEq, Eq)]
pub struct InitializeMarketplace {
    /// The marketplace record, as the store holds it before the call.
    pub marketplace: MarketplaceState,
    /// The address of the token that purchases will be paid in.
    pub token_mint: Pubkey,
    /// The address of the token account that payments will go to.
    pub treasury: Pubkey,
    /// The caller, who becomes the marketplace's admin.
    pub admin: Pubkey,
    /// The bump of the marketplace record's derived address.
    pub bump: u8,
}

impl InitializeMarketplace {
    /// The marketplace record that a successful call leaves.
    pub open spec fn fresh(&self) -> MarketplaceState {
        MarketplaceState {
            admin: self.admin,
            token_mint: self.token_mint,
            treasury: self.treasury,
            product_count: 0,
            total_sales: 0,
            is_initialized: true,
            bump: self.bump,
        }
    }
}

/// Sets the marketplace up with the caller as its admin, no products and no
/// sales. Fails with `AlreadyInitialized`, changing nothing, if the record
/// is set up already.
pub fn initialize_marketplace(accounts: &mut InitializeMarketplace) -> (done: Result<
    (),
    MarketplaceError,
>)
    ensures
        done == if old(accounts).marketplace.is_initialized {
            Err::<(), MarketplaceError>(MarketplaceError::AlreadyInitialized)
        } else {
            Ok(())
        },
        done is Ok ==> *final(accounts) == (InitializeMarketplace {
            marketplace: old(accounts).fresh(),
            ..*old(accounts)
        }),
        done is Err ==> *final(accounts) == *old(accounts),
{
    if accounts.marketplace.is_initialized {
        return Err(MarketplaceError::AlreadyInitialized);
    }
    accounts.marketplace.admin = accounts.admin;
    accounts.marketplace.token_mint = accounts.token_mint;
    accounts.marketplace.treasury = accounts.treasury;
    accounts.marketplace.product_count = 0;
    accounts.marketplace.total_sales = 0;
    accounts.marketplace.is_initialized = true;
    accounts.marketplace.bump = accounts.bump;
    Ok(())
}

} // verus!
