//! Laws of the ledger that relate several operations.

use vstd::prelude::*;

verus! {

use crate::market::{Customer, Market, Product};

/// Listing is idempotent: without an intervening mutation, any two listings
/// taken from the same ledger state are identical. The premises are exactly
/// what `Market::list_customers` and `Market::list_products` ensure.
pub proof fn lemma_listing_idempotent(
    market: Market,
    customers_first: Seq<(usize, Customer)>,
    customers_second: Seq<(usize, Customer)>,
    products_first: Seq<(usize, Product)>,
    products_second: Seq<(usize, Product)>,
)
    requires
        customers_first == market.customer_listing(),
        customers_second == market.customer_listing(),
        products_first == market.product_listing(),
        products_second == market.product_listing(),
    ensures
        customers_first == customers_second,
        products_first == products_second,
{
}

/// A successful purchase touches exactly one customer and one product: both
/// collections keep their length, and every record at another index is
/// unchanged. The premises are exactly what `Market::purchase` ensures on
/// the success path.
pub proof fn lemma_purchase_frame(
    pre: Market,
    post: Market,
    c: int,
    p: int,
    new_customer: Customer,
    new_product: Product,
)
    requires
        pre.valid_customer(c),
        pre.valid_product(p),
        post.customers@ == pre.customers@.update(c, new_customer),
        post.products@ == pre.products@.update(p, new_product),
    ensures
        post.customers@.len() == pre.customers@.len(),
        post.products@.len() == pre.products@.len(),
        forall|i: int|
            pre.valid_customer(i) && i != c ==> post.customers@[i] == pre.customers@[i],
        forall|i: int| pre.valid_product(i) && i != p ==> post.products@[i] == pre.products@[i],
{
}

/// Index stability: appending a customer leaves every previously valid
/// index, of customers and of products alike, referring to the same record.
/// The premises are exactly what `Market::add_customer` ensures.
pub proof fn lemma_add_customer_index_stability(pre: Market, post: Market, record: Customer)
    requires
        post.customers@ == pre.customers@.push(record),
        post.products@ == pre.products@,
    ensures
        forall|i: int|
            pre.valid_customer(i) ==> post.valid_customer(i) && post.customers@[i]
                == pre.customers@[i],
        forall|i: int|
            pre.valid_product(i) ==> post.valid_product(i) && post.products@[i]
                == pre.products@[i],
{
}

/// Index stability: appending a product leaves every previously valid
/// index, of customers and of products alike, referring to the same record.
/// The premises are exactly what `Market::add_product` ensures.
pub proof fn lemma_add_product_index_stability(pre: Market, post: Market, record: Product)
    requires
        post.products@ == pre.products@.push(record),
        post.customers@ == pre.customers@,
    ensures
        forall|i: int|
            pre.valid_customer(i) ==> post.valid_customer(i) && post.customers@[i]
                == pre.customers@[i],
        forall|i: int|
            pre.valid_product(i) ==> post.valid_product(i) && post.products@[i]
                == pre.products@[i],
{
}

} // verus!
