//! The market ledger and its records.
//!
//! Monetary amounts (balances, prices) are held in integral minor currency
//! units (cents), so every amount is a non-negative integer.

use vstd::prelude::*;

verus! {

/// A customer record: identity (not required unique) and a balance in cents.
#[derive(Debug, PartialEq)]
pub struct Customer {
    pub name: String,
    pub surname: String,
    pub balance: u64,
}

impl Clone for Customer {
    fn clone(&self) -> (result: Self)
        ensures
            result == *self,
    {
        Customer { name: self.name.clone(), surname: self.surname.clone(), balance: self.balance }
    }
}

/// A product record: name, unit price in cents, and units in stock.
#[derive(Debug, PartialEq)]
pub struct Product {
    pub name: String,
    pub price: u64,
    pub stock: u32,
}

impl Clone for Product {
    fn clone(&self) -> (result: Self)
        ensures
            result == *self,
    {
        Product { name: self.name.clone(), price: self.price, stock: self.stock }
    }
}

/// Summary of a committed purchase: who bought how many units of what.
#[derive(Debug, PartialEq)]
pub struct Receipt {
    pub customer_name: String,
    pub product_name: String,
    pub quantity: u32,
}

/// The discrete result of a purchase attempt.
#[derive(Debug, PartialEq)]
pub enum PurchaseOutcome {
    /// The transfer was committed; the receipt summarises it.
    Success(Receipt),
    /// A supplied index does not correspond to an existing record.
    OutOfRange,
    /// The requested quantity exceeds the available stock.
    InsufficientStock,
    /// The customer cannot afford the total price.
    InsufficientBalance,
}

/// The ledger: an ordered roster of customers and an ordered catalog of
/// products. A record is referenced externally by its positional index,
/// which stays stable because appending is the only growth operation.
pub struct Market {
    pub customers: Vec<Customer>,
    pub products: Vec<Product>,
}

impl Market {
    /// `i` is the index of an existing customer.
    pub open spec fn valid_customer(self, i: int) -> bool {
        0 <= i < self.customers@.len()
    }

    /// `i` is the index of an existing product.
    pub open spec fn valid_product(self, i: int) -> bool {
        0 <= i < self.products@.len()
    }

    /// Total cost, in cents, of `quantity` units of the product at index `p`,
    /// as an unbounded integer (so it never wraps).
    pub open spec fn total_price(self, p: int, quantity: u32) -> int
        recommends
            self.valid_product(p),
    {
        self.products@[p].price * quantity
    }

    /// The product at index `p` has at least `quantity` units in stock.
    pub open spec fn has_stock(self, p: int, quantity: u32) -> bool
        recommends
            self.valid_product(p),
    {
        quantity <= self.products@[p].stock
    }

    /// The customer at index `c` can afford `quantity` units of the product
    /// at index `p`.
    pub open spec fn can_afford(self, c: int, p: int, quantity: u32) -> bool
        recommends
            self.valid_customer(c),
            self.valid_product(p),
    {
        self.total_price(p, quantity) <= self.customers@[c].balance
    }

    /// The customer record after a successful purchase: same identity, with
    /// the total price deducted from the balance.
    pub open spec fn debited_customer(self, c: int, p: int, quantity: u32) -> Customer
        recommends
            self.valid_customer(c),
            self.valid_product(p),
            self.can_afford(c, p, quantity),
    {
        Customer {
            name: self.customers@[c].name,
            surname: self.customers@[c].surname,
            balance: (self.customers@[c].balance - self.total_price(p, quantity)) as u64,
        }
    }

    /// The product record after a successful purchase: same name and price,
    /// with the quantity deducted from the stock.
    pub open spec fn drawn_product(self, p: int, quantity: u32) -> Product
        recommends
            self.valid_product(p),
            self.has_stock(p, quantity),
    {
        Product {
            name: self.products@[p].name,
            price: self.products@[p].price,
            stock: (self.products@[p].stock - quantity) as u32,
        }
    }

    /// The customer roster as an order-preserving sequence of
    /// (index, record) pairs.
    pub open spec fn customer_listing(self) -> Seq<(usize, Customer)> {
        Seq::new(self.customers@.len(), |i: int| (i as usize, self.customers@[i]))
    }

    /// The product catalog as an order-preserving sequence of
    /// (index, record) pairs.
    pub open spec fn product_listing(self) -> Seq<(usize, Product)> {
        Seq::new(self.products@.len(), |i: int| (i as usize, self.products@[i]))
    }

    pub fn new() -> (market: Market)
        ensures
            market.customers@ == Seq::<Customer>::empty(),
            market.products@ == Seq::<Product>::empty(),
    {
        Market { customers: Vec::new(), products: Vec::new() }
    }

    /// Appends a new customer; its index is the roster length before the
    /// append. Never fails, and existing records are untouched.
    pub fn add_customer(&mut self, name: String, surname: String, balance: u64)
        ensures
            final(self).customers@ == old(self).customers@.push(
                (Customer { name, surname, balance }),
            ),
            final(self).products@ == old(self).products@,
    {
        self.customers.push(Customer { name, surname, balance });
    }

    /// Appends a new product; its index is the catalog length before the
    /// append. Never fails, and existing records are untouched.
    pub fn add_product(&mut self, name: String, price: u64, stock: u32)
        ensures
            final(self).products@ == old(self).products@.push(
                (Product { name, price, stock }),
            ),
            final(self).customers@ == old(self).customers@,
    {
        self.products.push(Product { name, price, stock });
    }

    /// Produces the customer roster as (index, record) pairs, in insertion
    /// order, for display by the caller. Reads only: the ledger is unchanged,
    /// so repeated calls yield identical listings.
    pub fn list_customers(&self) -> (listing: Vec<(usize, Customer)>)
        ensures
            listing@ == self.customer_listing(),
    {
        let mut listing: Vec<(usize, Customer)> = Vec::new();
        let mut i: usize = 0;
        while i < self.customers.len()
            invariant
                i <= self.customers@.len(),
                listing@.len() == i as int,
                forall|j: int| 0 <= j < i ==> listing@[j] == (j as usize, self.customers@[j]),
            decreases self.customers@.len() - i,
        {
            listing.push((i, self.customers[i].clone()));
            i = i + 1;
        }
        proof {
            assert(listing@ =~= self.customer_listing());
        }
        listing
    }

    /// Produces the product catalog as (index, record) pairs, in insertion
    /// order, for display by the caller. Reads only: the ledger is unchanged,
    /// so repeated calls yield identical listings.
    pub fn list_products(&self) -> (listing: Vec<(usize, Product)>)
        ensures
            listing@ == self.product_listing(),
    {
        let mut listing: Vec<(usize, Product)> = Vec::new();
        let mut i: usize = 0;
        while i < self.products.len()
            invariant
                i <= self.products@.len(),
                listing@.len() == i as int,
                forall|j: int| 0 <= j < i ==> listing@[j] == (j as usize, self.products@[j]),
            decreases self.products@.len() - i,
        {
            listing.push((i, self.products[i].clone()));
            i = i + 1;
        }
        proof {
            assert(listing@ =~= self.product_listing());
        }
        listing
    }

    /// Attempts a purchase of `quantity` units of the product at
    /// `product_index` by the customer at `customer_index`.
    ///
    /// The checks run in a fixed order, each short-circuiting the rest:
    /// bounds, then stock, then balance. On any failed check the ledger is
    /// left unchanged. Otherwise the stock and the balance are decremented
    /// atomically and a receipt is returned; all other records are untouched.
    /// A quantity of zero is not special-cased: it trivially passes the
    /// checks and commits a decrement of zero.
    pub fn purchase(
        &mut self,
        customer_index: usize,
        product_index: usize,
        quantity: u32,
    ) -> (outcome: PurchaseOutcome)
        ensures
            !(old(self).valid_customer(customer_index as int) && old(self).valid_product(
                product_index as int,
            )) ==> outcome == PurchaseOutcome::OutOfRange && *final(self) == *old(self),
            old(self).valid_customer(customer_index as int) && old(self).valid_product(
                product_index as int,
            ) && !old(self).has_stock(product_index as int, quantity) ==> outcome
                == PurchaseOutcome::InsufficientStock && *final(self) == *old(self),
            old(self).valid_customer(customer_index as int) && old(self).valid_product(
                product_index as int,
            ) && old(self).has_stock(product_index as int, quantity) && !old(self).can_afford(
                customer_index as int,
                product_index as int,
                quantity,
            ) ==> outcome == PurchaseOutcome::InsufficientBalance && *final(self) == *old(self),
            old(self).valid_customer(customer_index as int) && old(self).valid_product(
                product_index as int,
            ) && old(self).has_stock(product_index as int, quantity) && old(self).can_afford(
                customer_index as int,
                product_index as int,
                quantity,
            ) ==> outcome == PurchaseOutcome::Success(
                (Receipt {
                    customer_name: old(self).customers@[customer_index as int].name,
                    product_name: old(self).products@[product_index as int].name,
                    quantity,
                }),
            ) && final(self).customers@ == old(self).customers@.update(
                customer_index as int,
                old(self).debited_customer(customer_index as int, product_index as int, quantity),
            ) && final(self).products@ == old(self).products@.update(
                product_index as int,
                old(self).drawn_product(product_index as int, quantity),
            ),
    {
        if customer_index >= self.customers.len() || product_index >= self.products.len() {
            return PurchaseOutcome::OutOfRange;
        }
        let price: u64 = self.products[product_index].price;
        let stock: u32 = self.products[product_index].stock;
        let balance: u64 = self.customers[customer_index].balance;
        proof {
            assert((price as int) * (quantity as int) <= (u64::MAX as int) * (u32::MAX as int))
                by (nonlinear_arith)
                requires
                    price as int <= u64::MAX as int,
                    quantity as int <= u32::MAX as int,
            ;
        }
        let total: u128 = (price as u128) * (quantity as u128);
        if stock < quantity {
            PurchaseOutcome::InsufficientStock
        } else if (balance as u128) < total {
            PurchaseOutcome::InsufficientBalance
        } else {
            let customer_name: String = self.customers[customer_index].name.clone();
            let customer_surname: String = self.customers[customer_index].surname.clone();
            let product_name: String = self.products[product_index].name.clone();
            let receipt_customer: String = customer_name.clone();
            let receipt_product: String = product_name.clone();
            let new_balance: u64 = ((balance as u128) - total) as u64;
            let new_stock: u32 = stock - quantity;
            self.customers[customer_index] =
                Customer { name: customer_name, surname: customer_surname, balance: new_balance };
            self.products[product_index] =
                Product { name: product_name, price, stock: new_stock };
            PurchaseOutcome::Success(
                Receipt {
                    customer_name: receipt_customer,
                    product_name: receipt_product,
                    quantity,
                },
            )
        }
    }
}

} // verus!
