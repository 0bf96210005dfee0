//! Per-request value objects of the shipping service.

use vstd::prelude::*;

verus! {

/// One line of a cart: a product and how many of it.
#[derive(Debug, Clone, PartialEq, Eq, Default)]
pub struct CartItem {
    pub product_id: String,
    pub quantity: u32,
}

/// A postal address; only the zip code is ever read.
#[derive(Debug, Clone, PartialEq, Eq, Default)]
pub struct Address {
    pub street_address: String,
    pub city: String,
    pub state: String,
    pub country: String,
    pub zip_code: String,
}

/// A request for the shipping cost of a cart.
#[derive(Debug, Clone, PartialEq, Eq, Default)]
pub struct GetQuoteRequest {
    pub items: Vec<CartItem>,
    pub address: Option<Address>,
}

/// A currency amount in whole units plus billionths of a unit.
#[derive(Debug, Clone, PartialEq, Eq, Default)]
pub struct Money {
    pub currency_code: String,
    pub units: u64,
    pub nanos: u32,
}

/// The answer to a quote request.
#[derive(Debug, Clone, PartialEq, Eq, Default)]
pub struct GetQuoteResponse {
    pub cost_usd: Option<Money>,
}

/// A request to ship an order; its content is accepted and not inspected.
#[derive(Debug, Clone, PartialEq, Eq, Default)]
pub struct ShipOrderRequest {
    pub address: Option<Address>,
    pub items: Vec<CartItem>,
}

/// The answer to a shipping request.
#[derive(Debug, Clone, PartialEq, Eq, Default)]
pub struct ShipOrderResponse {
    pub tracking_id: String,
}

/// Why a quote request did not produce a quote.
#[derive(Debug, Clone, PartialEq, Eq)]
pub enum QuoteError {
    /// The pricing collaborator could not be reached or answered with a failure.
    Upstream(String),
    /// The pricing collaborator's answer is not a non-negative number.
    Decode(String),
    /// The request cannot be priced (its item count does not fit the wire format).
    InvalidInput(String),
}

} // verus!
