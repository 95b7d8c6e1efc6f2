//! What holds of the marketplace handlers taken together.

use vstd::prelude::*;
use crate::marketplace::product_management::AddProduct;
use crate::marketplace::purchase::{books_sale, PurchaseProduct};
use crate::marketplace::state::{MarketplaceState, Purchase};

verus! {

/// The tokens paid in the given purchases, added up.
pub open spec fn total_paid(receipts: Seq<Purchase>) -> int
    decreases receipts.len(),
{
    if receipts.len() == 0 {
        0
    } else {
        total_paid(receipts.drop_last()) + receipts.last().total_price
    }
}

/// One step in the life of a marketplace record: a purchase that books the
/// sale of the given receipt, or any other call, which leaves the total
/// sales as they were.
pub open spec fn sales_step(before: MarketplaceState, after: MarketplaceState, sale: Option<Purchase>) -> bool {
    match sale {
        Some(receipt) => books_sale(before, after, receipt),
        None => after.total_sales == before.total_sales,
    }
}

/// The receipts of the purchases among the given steps, in order.
pub open spec fn receipts_of(sales: Seq<Option<Purchase>>) -> Seq<Purchase>
    decreases sales.len(),
{
    if sales.len() == 0 {
        Seq::empty()
    } else {
        match sales.last() {
            Some(receipt) => receipts_of(sales.drop_last()).push(receipt),
            None => receipts_of(sales.drop_last()),
        }
    }
}

/// A purchase changes the stock and the sold count by the quantity bought,
/// and only where the request passes every rule and the counters have room;
/// a refused purchase changes neither. An accepted purchase is a step that
/// books its receipt.
pub proof fn lemma_purchase_moves_stock(
    accounts: PurchaseProduct,
    product_id: u64,
    quantity: u64,
    now: i64,
)
    ensures
        accounts.outcome(product_id, quantity, now) is Ok <==> accounts.rejection(
            product_id,
            quantity,
        ) is None && accounts.has_room(quantity),
        accounts.outcome(product_id, quantity, now) is Ok ==> {
            &&& accounts.product.stock >= quantity
            &&& accounts.sold(quantity).product.stock == accounts.product.stock - quantity
            &&& accounts.sold(quantity).product.sold_count == accounts.product.sold_count + quantity
            &&& books_sale(
                accounts.marketplace,
                accounts.sold(quantity).marketplace,
                accounts.receipt(product_id, quantity, now),
            )
        },
        accounts.product.stock < quantity ==> accounts.outcome(product_id, quantity, now) is Err,
{
}

/// Adding a product is a step that books no sale.
pub proof fn lemma_add_product_books_nothing(accounts: AddProduct)
    ensures
        sales_step(accounts.marketplace, accounts.counted().marketplace, None),
{
}

/// Over any run of steps the total sales never go down, and they grow by
/// exactly what the purchases among the steps were paid.
///
/// `states` are the marketplace records before the first step and after each
/// one, `sales` says for each step which purchase it booked, if any.
pub proof fn lemma_total_sales_add_up(states: Seq<MarketplaceState>, sales: Seq<Option<Purchase>>)
    requires
        states.len() == sales.len() + 1,
        forall|i: int| 0 <= i < sales.len() ==> sales_step(states[i], #[trigger] states[i + 1], sales[i]),
    ensures
        states.last().total_sales == states[0].total_sales + total_paid(receipts_of(sales)),
        forall|i: int, j: int|
            0 <= i <= j < states.len() ==> (#[trigger] states[i]).total_sales <= (
            #[trigger] states[j]).total_sales,
        0 <= total_paid(receipts_of(sales)),
    decreases sales.len(),
{
    if sales.len() > 0 {
        let earlier_states = states.drop_last();
        let earlier_sales = sales.drop_last();
        assert forall|i: int| 0 <= i < earlier_sales.len() implies sales_step(
            earlier_states[i],
            #[trigger] earlier_states[i + 1],
            earlier_sales[i],
        ) by {
            assert(sales_step(states[i], states[i + 1], sales[i]));
        }
        lemma_total_sales_add_up(earlier_states, earlier_sales);
        let last = sales.len() - 1;
        assert(sales_step(states[last], states[last + 1], sales[last]));
        assert(earlier_states.last() == states[last]);
        match sales.last() {
            Some(receipt) => {
                let receipts = receipts_of(earlier_sales).push(receipt);
                assert(receipts.drop_last() =~= receipts_of(earlier_sales));
            },
            None => {},
        }
        assert forall|i: int, j: int| 0 <= i <= j < states.len() implies (
        #[trigger] states[i]).total_sales <= (#[trigger] states[j]).total_sales by {
            if j == last + 1 {
                if i <= last {
                    assert(earlier_states[i].total_sales <= earlier_states[last].total_sales);
                }
            } else {
                assert(earlier_states[i].total_sales <= earlier_states[j].total_sales);
            }
        }
    } else {
        assert(states.last() == states[0]);
    }
}

} // verus!
