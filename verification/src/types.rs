//! Normalized order vocabulary shared by every venue adapter.

use vstd::prelude::*;

use crate::fixed::Fixed;

verus! {

/// Order side.
#[derive(Clone, Copy, Debug, PartialEq, Eq, Structural)]
pub enum Side {
    Buy,
    Sell,
}

/// Order type.
#[derive(Clone, Copy, Debug, PartialEq, Eq, Structural)]
pub enum OrderType {
    Limit,
    Market,
}

/// Normalized order status. Every venue vocabulary translates into this
/// one; a word the translation does not know becomes `Pending`.
#[derive(Clone, Copy, Debug, PartialEq, Eq, Structural)]
pub enum OrderStatus {
    Pending,
    Open,
    Partial,
    Filled,
    Cancelled,
    Rejected,
    Expired,
}

impl OrderStatus {
    /// A terminal status never transitions again.
    pub open spec fn is_terminal(self) -> bool {
        self == OrderStatus::Filled || self == OrderStatus::Cancelled || self
            == OrderStatus::Rejected || self == OrderStatus::Expired
    }

    /// A status under which an order carries no fill: pending, open and
    /// rejected orders have nothing executed yet.
    pub open spec fn spec_no_fill(self) -> bool {
        self == OrderStatus::Pending || self == OrderStatus::Open || self == OrderStatus::Rejected
    }
}

/// Whether a fill agrees with its status: a pending, open or rejected
/// order carries no fill, and a filled order is filled up to the
/// one-percent venue-rounding allowance.
pub fn fill_matches_status(status: OrderStatus, filled: Fixed, quantity: Fixed) -> (r: bool)
    ensures
        r == ((status.spec_no_fill() ==> filled.raw == 0) && (status == OrderStatus::Filled
            ==> 100 * filled.raw >= 99 * quantity.raw)),
{
    let no_fill_ok = match status {
        OrderStatus::Pending => filled.raw == 0,
        OrderStatus::Open => filled.raw == 0,
        OrderStatus::Rejected => filled.raw == 0,
        _ => true,
    };
    let filled_ok = match status {
        OrderStatus::Filled => (filled.raw as u128) * 100 >= (quantity.raw as u128) * 99,
        _ => true,
    };
    no_fill_ok && filled_ok
}

/// An order to place on a venue.
#[derive(Clone, Debug)]
pub struct OrderRequest {
    pub client_order_id: String,
    pub symbol: String,
    pub side: Side,
    pub order_type: OrderType,
    pub price: Option<Fixed>,
    pub quantity: Fixed,
    pub reduce_only: bool,
}

impl OrderRequest {
    /// A request is well formed when its quantity is positive and in range
    /// and a limit order carries a price.
    pub open spec fn wf(self) -> bool {
        &&& self.quantity.wf()
        &&& self.quantity.raw > 0
        &&& (self.order_type == OrderType::Limit ==> self.price is Some)
        &&& (self.price matches Some(p) ==> p.wf())
        &&& self.client_order_id@.len() > 0
    }
}

/// A normalized order as a venue reports it.
#[derive(Clone, Debug)]
pub struct OrderResponse {
    pub exchange_order_id: String,
    pub client_order_id: String,
    pub symbol: String,
    pub side: Side,
    pub order_type: OrderType,
    pub price: Option<Fixed>,
    pub quantity: Fixed,
    pub filled_quantity: Fixed,
    pub avg_fill_price: Option<Fixed>,
    pub status: OrderStatus,
    pub timestamp: i64,
}

impl OrderResponse {
    /// A response is well formed when the filled quantity stays within the
    /// ordered quantity.
    pub open spec fn wf(self) -> bool {
        &&& self.quantity.wf()
        &&& self.filled_quantity.wf()
        &&& self.filled_quantity.raw <= self.quantity.raw
        &&& (self.avg_fill_price matches Some(p) ==> p.wf())
    }

    /// The fill agrees with the status: a pending, open or rejected order
    /// reports no fill, and a filled order is filled up to the one-percent
    /// venue-rounding allowance.
    pub open spec fn status_fill_consistent(self) -> bool {
        &&& (self.status.spec_no_fill() ==> self.filled_quantity.raw == 0)
        &&& (self.status == OrderStatus::Filled ==> 100 * self.filled_quantity.raw >= 99
            * self.quantity.raw)
    }
}

/// Decrypted API credentials. The passphrase is present only for the venues
/// that demand one.
#[derive(Clone, Debug)]
pub struct Credentials {
    pub api_key: String,
    pub api_secret: String,
    pub passphrase: Option<String>,
}

/// Static configuration of one venue.
#[derive(Clone, Debug)]
pub struct ExchangeConfig {
    pub id: String,
    pub rest_url: String,
    pub ws_url: String,
    pub testnet: bool,
}

/// Why a venue interaction failed.
#[derive(Clone, Debug, PartialEq, Eq, Structural)]
pub enum AdapterErrorKind {
    /// The transport returned a non-success HTTP status.
    Http,
    /// The venue acknowledged the call but reported an error code.
    Venue,
    /// The response did not have the promised shape.
    Parse,
}

#[derive(Clone, Debug)]
pub struct AdapterError {
    pub kind: AdapterErrorKind,
    pub detail: String,
}

impl AdapterError {
    pub fn http(code: u16) -> (r: AdapterError)
        ensures
            r.kind == AdapterErrorKind::Http,
    {
        AdapterError { kind: AdapterErrorKind::Http, detail: crate::fixed::u64_to_string(code as u64) }
    }

    pub fn venue(detail: String) -> (r: AdapterError)
        ensures
            r.kind == AdapterErrorKind::Venue,
            r.detail == detail,
    {
        AdapterError { kind: AdapterErrorKind::Venue, detail }
    }

    pub fn parse() -> (r: AdapterError)
        ensures
            r.kind == AdapterErrorKind::Parse,
    {
        AdapterError { kind: AdapterErrorKind::Parse, detail: String::new() }
    }
}

} // verus!
