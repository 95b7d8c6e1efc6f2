use anchor_lang::prelude::Pubkey;
use bay_contracts::marketplace::errors::MarketplaceError;
use bay_contracts::marketplace::initialize::{initialize_marketplace, InitializeMarketplace};
use bay_contracts::marketplace::product_management::{
    add_product, deactivate_product, update_product, AddProduct, DeactivateProduct, UpdateProduct,
};
use bay_contracts::marketplace::purchase::{
    purchase_product, quote_purchase, PurchaseProduct, TokenAccount, TOKEN_DECIMALS,
};
use bay_contracts::marketplace::state::{
    MarketplaceState, Product, Purchase, MAX_DESC_LEN, MAX_NAME_LEN,
};

fn key(byte: u8) -> Pubkey {
    Pubkey::new_from_array([byte; 32])
}

const ADMIN: u8 = 1;
const MINT: u8 = 2;
const TREASURY: u8 = 3;
const MARKET: u8 = 4;
const BUYER: u8 = 5;

fn marketplace() -> MarketplaceState {
    MarketplaceState {
        admin: key(ADMIN),
        token_mint: key(MINT),
        treasury: key(TREASURY),
        product_count: 0,
        total_sales: 0,
        is_initialized: true,
        bump: 255,
    }
}

fn product(price: u64, stock: u64) -> Product {
    Product {
        id: 0,
        marketplace: key(MARKET),
        name: String::from("Sticker"),
        description: String::from("A sticker of the society"),
        price,
        stock,
        sold_count: 0,
        is_active: true,
        seller: key(ADMIN),
        created_at: 500,
        updated_at: 500,
        bump: 254,
    }
}

fn at_the_till(price: u64, stock: u64, balance: u64) -> PurchaseProduct {
    PurchaseProduct {
        marketplace: marketplace(),
        product: product(price, stock),
        buyer_token_account: TokenAccount { mint: key(MINT), amount: balance },
        treasury: key(TREASURY),
        buyer: key(BUYER),
        bump: 253,
    }
}

fn adding() -> AddProduct {
    AddProduct { marketplace: marketplace(), marketplace_key: key(MARKET), admin: key(ADMIN), bump: 252 }
}

#[test]
fn a_marketplace_is_set_up_once() {
    let blank = MarketplaceState {
        admin: Pubkey::default(),
        token_mint: Pubkey::default(),
        treasury: Pubkey::default(),
        product_count: 0,
        total_sales: 0,
        is_initialized: false,
        bump: 0,
    };
    let mut accounts = InitializeMarketplace {
        marketplace: blank,
        token_mint: key(MINT),
        treasury: key(TREASURY),
        admin: key(ADMIN),
        bump: 255,
    };
    assert_eq!(initialize_marketplace(&mut accounts), Ok(()));
    assert_eq!(accounts.marketplace, marketplace());

    let after_first = accounts;
    accounts.admin = key(9);
    let before_second = accounts;
    assert_eq!(initialize_marketplace(&mut accounts), Err(MarketplaceError::AlreadyInitialized));
    assert_eq!(accounts, before_second);
    assert_eq!(accounts.marketplace, after_first.marketplace);
}

#[test]
fn setting_up_clears_the_counters() {
    let mut accounts = InitializeMarketplace {
        marketplace: MarketplaceState {
            product_count: 7,
            total_sales: 9,
            is_initialized: false,
            ..marketplace()
        },
        token_mint: key(MINT),
        treasury: key(TREASURY),
        admin: key(ADMIN),
        bump: 255,
    };
    assert_eq!(initialize_marketplace(&mut accounts), Ok(()));
    assert_eq!(accounts.marketplace.product_count, 0);
    assert_eq!(accounts.marketplace.total_sales, 0);
    assert!(accounts.marketplace.is_initialized);
}

#[test]
fn the_admin_adds_products_with_running_ids() {
    let mut accounts = adding();
    let first = add_product(
        &mut accounts,
        String::from("Sticker"),
        String::from("A sticker of the society"),
        100,
        5,
        500,
    );
    assert_eq!(
        first,
        Ok(Product {
            id: 0,
            marketplace: key(MARKET),
            name: String::from("Sticker"),
            description: String::from("A sticker of the society"),
            price: 100,
            stock: 5,
            sold_count: 0,
            is_active: true,
            seller: key(ADMIN),
            created_at: 500,
            updated_at: 500,
            bump: 252,
        })
    );
    assert_eq!(accounts.marketplace.product_count, 1);
    let second =
        add_product(&mut accounts, String::from("Mug"), String::new(), 250, 1, 600).unwrap();
    assert_eq!(second.id, 1);
    assert_eq!(accounts.marketplace.product_count, 2);
    assert_eq!(accounts.marketplace.total_sales, 0);
}

#[test]
fn only_the_admin_adds_products() {
    let mut accounts = adding();
    accounts.admin = key(BUYER);
    let before = accounts;
    let refused = add_product(&mut accounts, String::from("Mug"), String::new(), 250, 1, 600);
    assert_eq!(refused, Err(MarketplaceError::Unauthorized));
    assert_eq!(accounts, before);
}

#[test]
fn a_name_has_at_most_sixty_four_bytes() {
    assert_eq!(MAX_NAME_LEN, 64);
    let mut accounts = adding();
    let fits = add_product(&mut accounts, "n".repeat(64), String::new(), 1, 1, 0);
    assert!(fits.is_ok());
    let before = accounts;
    let too_long = add_product(&mut accounts, "n".repeat(65), String::new(), 1, 1, 0);
    assert_eq!(too_long, Err(MarketplaceError::NameTooLong));
    assert_eq!(accounts, before);
}

#[test]
fn a_name_is_measured_in_bytes() {
    let mut accounts = adding();
    // 32 letters of two bytes each
    let fits = add_product(&mut accounts, "é".repeat(32), String::new(), 1, 1, 0);
    assert!(fits.is_ok());
    // 33 letters, 66 bytes
    let too_long = add_product(&mut accounts, "é".repeat(33), String::new(), 1, 1, 0);
    assert_eq!(too_long, Err(MarketplaceError::NameTooLong));
}

#[test]
fn a_description_has_at_most_two_hundred_fifty_six_bytes() {
    assert_eq!(MAX_DESC_LEN, 256);
    let mut accounts = adding();
    let fits = add_product(&mut accounts, String::from("Mug"), "d".repeat(256), 1, 1, 0);
    assert!(fits.is_ok());
    let too_long = add_product(&mut accounts, String::from("Mug"), "d".repeat(257), 1, 1, 0);
    assert_eq!(too_long, Err(MarketplaceError::DescriptionTooLong));
    assert_eq!(accounts.marketplace.product_count, 1);
}

#[test]
fn a_product_needs_a_price_and_a_stock() {
    let mut accounts = adding();
    let free = add_product(&mut accounts, String::from("Mug"), String::new(), 0, 1, 0);
    assert_eq!(free, Err(MarketplaceError::InvalidPrice));
    let none = add_product(&mut accounts, String::from("Mug"), String::new(), 1, 0, 0);
    assert_eq!(none, Err(MarketplaceError::InvalidStock));
    let neither = add_product(&mut accounts, String::from("Mug"), String::new(), 0, 0, 0);
    assert_eq!(neither, Err(MarketplaceError::InvalidPrice));
    assert_eq!(accounts, adding());
}

#[test]
fn the_rules_for_a_new_product_are_tested_in_order() {
    let mut stranger = adding();
    stranger.admin = key(BUYER);
    let refused = add_product(&mut stranger, "n".repeat(65), "d".repeat(257), 0, 0, 0);
    assert_eq!(refused, Err(MarketplaceError::Unauthorized));
    let mut accounts = adding();
    let refused = add_product(&mut accounts, "n".repeat(65), "d".repeat(257), 0, 0, 0);
    assert_eq!(refused, Err(MarketplaceError::NameTooLong));
    let refused = add_product(&mut accounts, "n".repeat(64), "d".repeat(257), 0, 0, 0);
    assert_eq!(refused, Err(MarketplaceError::DescriptionTooLong));
}

#[test]
fn the_product_count_does_not_wrap() {
    let mut accounts = adding();
    accounts.marketplace.product_count = u64::MAX;
    let before = accounts;
    let refused = add_product(&mut accounts, String::from("Mug"), String::new(), 1, 1, 0);
    assert_eq!(refused, Err(MarketplaceError::Overflow));
    assert_eq!(accounts, before);

    accounts.marketplace.product_count = u64::MAX - 1;
    let last = add_product(&mut accounts, String::from("Mug"), String::new(), 1, 1, 0).unwrap();
    assert_eq!(last.id, u64::MAX - 1);
    assert_eq!(accounts.marketplace.product_count, u64::MAX);
}

#[test]
fn an_update_changes_what_it_names() {
    let mut accounts =
        UpdateProduct { marketplace: marketplace(), product: product(100, 5), admin: key(ADMIN) };
    assert_eq!(update_product(&mut accounts, Some(120), None, 900), Ok(()));
    assert_eq!(accounts.product, Product { price: 120, updated_at: 900, ..product(100, 5) });
    assert_eq!(update_product(&mut accounts, None, Some(40), 901), Ok(()));
    assert_eq!(accounts.product, Product { price: 120, stock: 40, updated_at: 901, ..product(100, 5) });
    assert_eq!(update_product(&mut accounts, Some(7), Some(8), 902), Ok(()));
    assert_eq!(accounts.product, Product { price: 7, stock: 8, updated_at: 902, ..product(100, 5) });
    assert_eq!(update_product(&mut accounts, None, None, 903), Ok(()));
    assert_eq!(accounts.product, Product { price: 7, stock: 8, updated_at: 903, ..product(100, 5) });
}

#[test]
fn an_update_may_empty_the_stock_but_not_zero_the_price() {
    let mut accounts =
        UpdateProduct { marketplace: marketplace(), product: product(100, 5), admin: key(ADMIN) };
    assert_eq!(update_product(&mut accounts, None, Some(0), 900), Ok(()));
    assert_eq!(accounts.product.stock, 0);
    let before = accounts.clone();
    assert_eq!(update_product(&mut accounts, Some(0), Some(9), 901), Err(MarketplaceError::InvalidPrice));
    assert_eq!(accounts, before);
}

#[test]
fn only_the_admin_updates_and_only_active_products() {
    let mut by_stranger =
        UpdateProduct { marketplace: marketplace(), product: product(100, 5), admin: key(BUYER) };
    assert_eq!(
        update_product(&mut by_stranger, Some(1), Some(1), 900),
        Err(MarketplaceError::Unauthorized)
    );
    assert_eq!(by_stranger.product, product(100, 5));

    let mut withdrawn = product(100, 5);
    withdrawn.is_active = false;
    let mut accounts =
        UpdateProduct { marketplace: marketplace(), product: withdrawn.clone(), admin: key(ADMIN) };
    assert_eq!(
        update_product(&mut accounts, Some(1), Some(1), 900),
        Err(MarketplaceError::ProductNotActive)
    );
    assert_eq!(accounts.product, withdrawn);
}

#[test]
fn the_admin_withdraws_a_product() {
    let mut accounts =
        DeactivateProduct { marketplace: marketplace(), product: product(100, 5), admin: key(ADMIN) };
    assert_eq!(deactivate_product(&mut accounts, 950), Ok(()));
    assert_eq!(accounts.product, Product { is_active: false, updated_at: 950, ..product(100, 5) });
    assert_eq!(deactivate_product(&mut accounts, 960), Ok(()));
    assert_eq!(accounts.product, Product { is_active: false, updated_at: 960, ..product(100, 5) });

    let mut by_stranger =
        DeactivateProduct { marketplace: marketplace(), product: product(100, 5), admin: key(BUYER) };
    assert_eq!(deactivate_product(&mut by_stranger, 950), Err(MarketplaceError::Unauthorized));
    assert_eq!(by_stranger.product, product(100, 5));
}

#[test]
fn three_of_five_then_three_more() {
    let mut accounts = at_the_till(100, 5, 1000);
    assert_eq!(quote_purchase(&accounts, 0, 3), Ok(300));
    let receipt = purchase_product(&mut accounts, 0, 3, 777);
    assert_eq!(
        receipt,
        Ok(Purchase {
            id: 0,
            product_id: 0,
            buyer: key(BUYER),
            quantity: 3,
            total_price: 300,
            timestamp: 777,
            bump: 253,
        })
    );
    assert_eq!(accounts.product.stock, 2);
    assert_eq!(accounts.product.sold_count, 3);
    assert_eq!(accounts.marketplace.total_sales, 300);

    let after_first = accounts.clone();
    assert_eq!(quote_purchase(&accounts, 0, 3), Err(MarketplaceError::InsufficientStock));
    assert_eq!(purchase_product(&mut accounts, 0, 3, 778), Err(MarketplaceError::InsufficientStock));
    assert_eq!(accounts.product.stock, 2);
    assert_eq!(accounts, after_first);
}

#[test]
fn a_purchase_touches_nothing_but_the_counters() {
    let mut accounts = at_the_till(100, 5, 1000);
    purchase_product(&mut accounts, 0, 5, 777).unwrap();
    let mut expected = at_the_till(100, 5, 1000);
    expected.product.stock = 0;
    expected.product.sold_count = 5;
    expected.marketplace.total_sales = 500;
    assert_eq!(accounts, expected);
}

#[test]
fn a_receipt_is_numbered_by_the_sales_before_it() {
    let mut accounts = at_the_till(100, 5, 1000);
    let first = purchase_product(&mut accounts, 0, 1, 1).unwrap();
    let second = purchase_product(&mut accounts, 0, 2, 2).unwrap();
    let third = purchase_product(&mut accounts, 0, 1, 3).unwrap();
    assert_eq!((first.id, second.id, third.id), (0, 100, 300));
    assert_eq!(accounts.marketplace.total_sales, 400);
    assert_eq!(first.total_price + second.total_price + third.total_price, 400);
}

#[test]
fn total_sales_are_the_sum_of_what_was_paid() {
    let mut accounts = at_the_till(30, 10, 100);
    let mut paid = 0;
    let mut last_total = 0;
    for quantity in [1, 4, 0, 2, 9, 3] {
        if let Ok(receipt) = purchase_product(&mut accounts, 0, quantity, 10) {
            paid += receipt.total_price;
        }
        assert!(accounts.marketplace.total_sales >= last_total);
        last_total = accounts.marketplace.total_sales;
        assert_eq!(accounts.marketplace.total_sales, paid);
    }
    // 1 + 2 + 3 units were sold; 4 cost more than the balance, 9 more than the stock
    assert_eq!(paid, 180);
    assert_eq!(accounts.product.stock, 4);
    assert_eq!(accounts.product.sold_count, 6);
}

#[test]
fn the_payment_is_named_with_nine_decimals() {
    assert_eq!(TOKEN_DECIMALS, 9);
}

#[test]
fn a_purchase_needs_the_product_that_was_asked_for() {
    let mut accounts = at_the_till(100, 5, 1000);
    let before = accounts.clone();
    assert_eq!(quote_purchase(&accounts, 1, 3), Err(MarketplaceError::ProductNotFound));
    assert_eq!(purchase_product(&mut accounts, 1, 3, 777), Err(MarketplaceError::ProductNotFound));
    assert_eq!(accounts, before);
}

#[test]
fn a_purchase_needs_the_marketplaces_mint_and_treasury() {
    let mut other_mint = at_the_till(100, 5, 1000);
    other_mint.buyer_token_account.mint = key(9);
    assert_eq!(
        purchase_product(&mut other_mint, 0, 3, 777),
        Err(MarketplaceError::InvalidTokenMint)
    );
    let mut other_treasury = at_the_till(100, 5, 1000);
    other_treasury.treasury = key(9);
    assert_eq!(
        purchase_product(&mut other_treasury, 0, 3, 777),
        Err(MarketplaceError::InvalidTreasury)
    );
    let mut both = at_the_till(100, 5, 1000);
    both.buyer_token_account.mint = key(9);
    both.treasury = key(9);
    assert_eq!(quote_purchase(&both, 0, 3), Err(MarketplaceError::InvalidTokenMint));
    assert_eq!(both.product.stock, 5);
}

#[test]
fn a_purchase_needs_an_active_product_and_a_quantity() {
    let mut withdrawn = at_the_till(100, 5, 1000);
    withdrawn.product.is_active = false;
    assert_eq!(purchase_product(&mut withdrawn, 0, 0, 777), Err(MarketplaceError::ProductNotActive));
    let mut accounts = at_the_till(100, 5, 1000);
    assert_eq!(purchase_product(&mut accounts, 0, 0, 777), Err(MarketplaceError::InvalidQuantity));
    assert_eq!(accounts, at_the_till(100, 5, 1000));
}

#[test]
fn a_purchase_needs_the_stock_and_the_balance() {
    let mut accounts = at_the_till(100, 5, 499);
    assert_eq!(purchase_product(&mut accounts, 0, 6, 777), Err(MarketplaceError::InsufficientStock));
    assert_eq!(
        purchase_product(&mut accounts, 0, 5, 777),
        Err(MarketplaceError::InsufficientBalance)
    );
    assert_eq!(accounts, at_the_till(100, 5, 499));
    accounts.buyer_token_account.amount = 500;
    assert_eq!(quote_purchase(&accounts, 0, 5), Ok(500));
    assert!(purchase_product(&mut accounts, 0, 5, 777).is_ok());
}

#[test]
fn a_price_beyond_sixty_four_bits_is_refused() {
    let mut accounts = at_the_till(u64::MAX / 2 + 1, 5, u64::MAX);
    let before = accounts.clone();
    assert_eq!(quote_purchase(&accounts, 0, 2), Err(MarketplaceError::Overflow));
    assert_eq!(purchase_product(&mut accounts, 0, 2, 777), Err(MarketplaceError::Overflow));
    assert_eq!(accounts, before);
    assert_eq!(quote_purchase(&accounts, 0, 1), Ok(u64::MAX / 2 + 1));

    let widest = at_the_till(u64::MAX, 1, u64::MAX);
    assert_eq!(quote_purchase(&widest, 0, 1), Ok(u64::MAX));
}

#[test]
fn counters_at_their_limit_refuse_a_sale() {
    let mut full_sales = at_the_till(100, 5, 1000);
    full_sales.marketplace.total_sales = u64::MAX - 299;
    let before = full_sales.clone();
    assert_eq!(quote_purchase(&full_sales, 0, 3), Ok(300));
    assert_eq!(purchase_product(&mut full_sales, 0, 3, 777), Err(MarketplaceError::Overflow));
    assert_eq!(full_sales, before);
    full_sales.marketplace.total_sales = u64::MAX - 300;
    let receipt = purchase_product(&mut full_sales, 0, 3, 777).unwrap();
    assert_eq!(receipt.id, u64::MAX - 300);
    assert_eq!(full_sales.marketplace.total_sales, u64::MAX);

    let mut full_count = at_the_till(100, 5, 1000);
    full_count.product.sold_count = u64::MAX - 2;
    let before = full_count.clone();
    assert_eq!(purchase_product(&mut full_count, 0, 3, 777), Err(MarketplaceError::Overflow));
    assert_eq!(full_count, before);
}

#[test]
fn marketplace_messages() {
    assert_eq!(
        MarketplaceError::Unauthorized.message(),
        "You are not authorized to perform this action"
    );
    assert_eq!(
        MarketplaceError::AlreadyInitialized.message(),
        "The marketplace has already been initialized"
    );
    assert_eq!(
        MarketplaceError::NotInitialized.message(),
        "The marketplace has not been initialized"
    );
    assert_eq!(MarketplaceError::NameTooLong.message(), "Product name is too long");
    assert_eq!(MarketplaceError::DescriptionTooLong.message(), "Product description is too long");
    assert_eq!(MarketplaceError::InvalidPrice.message(), "Product price must be greater than zero");
    assert_eq!(MarketplaceError::InvalidStock.message(), "Product stock must be greater than zero");
    assert_eq!(MarketplaceError::ProductNotActive.message(), "Product is not active");
    assert_eq!(MarketplaceError::ProductNotFound.message(), "Product not found");
    assert_eq!(MarketplaceError::InsufficientStock.message(), "Insufficient stock available");
    assert_eq!(
        MarketplaceError::InvalidQuantity.message(),
        "Purchase quantity must be greater than zero"
    );
    assert_eq!(
        MarketplaceError::InsufficientBalance.message(),
        "Insufficient balance to make purchase"
    );
    assert_eq!(MarketplaceError::Overflow.message(), "Integer overflow");
    assert_eq!(MarketplaceError::InvalidTokenMint.message(), "Invalid token mint");
    assert_eq!(MarketplaceError::InvalidTreasury.message(), "Invalid treasury account");
}
