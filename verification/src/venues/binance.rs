//! Binance futures adapter: signed query strings under `X-MBX-APIKEY`,
//! HMAC-SHA256 in lowercase hex appended as the `signature` parameter.

use vstd::prelude::*;
use vstd::string::StringExecFns;

use crate::exchange::{
    header, push_fixed, push_u64, sign_hex_sha256, sign_hex_sha256_spec, spec_parse_fixed,
    spec_parse_fixed_or_zero, spec_side_upper, spec_type_upper, str_eq, HttpMethod, WireRequest,
    order_type_upper, side_upper,
};
use crate::fixed::{dec_digits, spec_fixed_str, Fixed};
use crate::types::{
    AdapterError, AdapterErrorKind, Credentials, ExchangeConfig, OrderRequest, OrderResponse,
    OrderStatus, OrderType, Side,
};

verus! {

/// The canonical query of a place-order call, in the order it is signed.
pub open spec fn binance_place_query(req: OrderRequest, ts: u64) -> Seq<char> {
    let base = "symbol="@ + req.symbol@ + "&side="@ + spec_side_upper(req.side) + "&type="@
        + spec_type_upper(req.order_type) + "&quantity="@ + spec_fixed_str(req.quantity.raw as nat)
        + "&newClientOrderId="@ + req.client_order_id@ + "&timestamp="@ + dec_digits(ts as nat);
    let with_price = if req.order_type == OrderType::Limit && req.price is Some {
        base + "&price="@ + spec_fixed_str(req.price->Some_0.raw as nat) + "&timeInForce=GTC"@
    } else {
        base
    };
    if req.reduce_only {
        with_price + "&reduceOnly=true"@
    } else {
        with_price
    }
}

/// Build and sign a place-order call.
pub fn binance_place_order(
    config: &ExchangeConfig,
    credentials: &Credentials,
    request: &OrderRequest,
    timestamp_ms: u64,
) -> (r: WireRequest)
    requires
        request.wf(),
    ensures
        r.method == HttpMethod::Post,
        r.body@.len() == 0,
        r.url@ == config.rest_url@ + "/fapi/v1/order?"@ + binance_place_query(
            *request,
            timestamp_ms,
        ) + "&signature="@ + sign_hex_sha256_spec(
            credentials.api_secret@,
            binance_place_query(*request, timestamp_ms),
        ),
        r.headers@.len() == 1,
        r.headers@[0].0@ == "X-MBX-APIKEY"@,
        r.headers@[0].1@ == credentials.api_key@,
{
    let mut q = String::new();
    q.append("symbol=");
    q.append(request.symbol.as_str());
    q.append("&side=");
    q.append(side_upper(request.side));
    q.append("&type=");
    q.append(order_type_upper(request.order_type));
    q.append("&quantity=");
    push_fixed(&mut q, request.quantity);
    q.append("&newClientOrderId=");
    q.append(request.client_order_id.as_str());
    q.append("&timestamp=");
    push_u64(&mut q, timestamp_ms);
    if request.order_type == OrderType::Limit {
        if let Some(price) = request.price {
            q.append("&price=");
            push_fixed(&mut q, price);
            q.append("&timeInForce=GTC");
        }
    }
    if request.reduce_only {
        q.append("&reduceOnly=true");
    }
    proof {
        assert(q@ =~= binance_place_query(*request, timestamp_ms));
    }
    let signature = sign_hex_sha256(credentials.api_secret.as_str(), q.as_str());
    let mut url = String::new();
    url.append(config.rest_url.as_str());
    url.append("/fapi/v1/order?");
    url.append(q.as_str());
    url.append("&signature=");
    url.append(signature.as_str());
    let mut headers: Vec<(String, String)> = Vec::new();
    headers.push(header("X-MBX-APIKEY", credentials.api_key.clone()));
    WireRequest { method: HttpMethod::Post, url, headers, body: String::new() }
}

/// The signed query of a cancel or order lookup.
pub open spec fn binance_order_query(symbol: Seq<char>, order_id: Seq<char>, ts: u64) -> Seq<
    char,
> {
    "symbol="@ + symbol + "&orderId="@ + order_id + "&timestamp="@ + dec_digits(ts as nat)
}

fn binance_signed_order_url(
    config: &ExchangeConfig,
    credentials: &Credentials,
    symbol: &str,
    order_id: &str,
    timestamp_ms: u64,
) -> (r: String)
    ensures
        r@ == config.rest_url@ + "/fapi/v1/order?"@ + binance_order_query(
            symbol@,
            order_id@,
            timestamp_ms,
        ) + "&signature="@ + sign_hex_sha256_spec(
            credentials.api_secret@,
            binance_order_query(symbol@, order_id@, timestamp_ms),
        ),
{
    let mut q = String::new();
    q.append("symbol=");
    q.append(symbol);
    q.append("&orderId=");
    q.append(order_id);
    q.append("&timestamp=");
    push_u64(&mut q, timestamp_ms);
    proof {
        assert(q@ =~= binance_order_query(symbol@, order_id@, timestamp_ms));
    }
    let signature = sign_hex_sha256(credentials.api_secret.as_str(), q.as_str());
    let mut url = String::new();
    url.append(config.rest_url.as_str());
    url.append("/fapi/v1/order?");
    url.append(q.as_str());
    url.append("&signature=");
    url.append(signature.as_str());
    url
}

/// Build and sign a cancel-order call.
pub fn binance_cancel_order(
    config: &ExchangeConfig,
    credentials: &Credentials,
    symbol: &str,
    order_id: &str,
    timestamp_ms: u64,
) -> (r: WireRequest)
    ensures
        r.method == HttpMethod::Delete,
        r.body@.len() == 0,
        r.url@ == config.rest_url@ + "/fapi/v1/order?"@ + binance_order_query(
            symbol@,
            order_id@,
            timestamp_ms,
        ) + "&signature="@ + sign_hex_sha256_spec(
            credentials.api_secret@,
            binance_order_query(symbol@, order_id@, timestamp_ms),
        ),
        r.headers@.len() == 1,
        r.headers@[0].0@ == "X-MBX-APIKEY"@,
        r.headers@[0].1@ == credentials.api_key@,
{
    let url = binance_signed_order_url(config, credentials, symbol, order_id, timestamp_ms);
    let mut headers: Vec<(String, String)> = Vec::new();
    headers.push(header("X-MBX-APIKEY", credentials.api_key.clone()));
    WireRequest { method: HttpMethod::Delete, url, headers, body: String::new() }
}

/// Build and sign an order lookup.
pub fn binance_get_order(
    config: &ExchangeConfig,
    credentials: &Credentials,
    symbol: &str,
    order_id: &str,
    timestamp_ms: u64,
) -> (r: WireRequest)
    ensures
        r.method == HttpMethod::Get,
        r.body@.len() == 0,
        r.url@ == config.rest_url@ + "/fapi/v1/order?"@ + binance_order_query(
            symbol@,
            order_id@,
            timestamp_ms,
        ) + "&signature="@ + sign_hex_sha256_spec(
            credentials.api_secret@,
            binance_order_query(symbol@, order_id@, timestamp_ms),
        ),
        r.headers@.len() == 1,
        r.headers@[0].0@ == "X-MBX-APIKEY"@,
        r.headers@[0].1@ == credentials.api_key@,
{
    let url = binance_signed_order_url(config, credentials, symbol, order_id, timestamp_ms);
    let mut headers: Vec<(String, String)> = Vec::new();
    headers.push(header("X-MBX-APIKEY", credentials.api_key.clone()));
    WireRequest { method: HttpMethod::Get, url, headers, body: String::new() }
}

/// Build the book-ticker lookup for the touch.
pub fn binance_best_price_request(config: &ExchangeConfig, symbol: &str) -> (r: WireRequest)
    ensures
        r.method == HttpMethod::Get,
        r.body@.len() == 0,
        r.headers@.len() == 0,
        r.url@ == config.rest_url@ + "/fapi/v1/ticker/bookTicker?symbol="@ + symbol@,
{
    let mut url = String::new();
    url.append(config.rest_url.as_str());
    url.append("/fapi/v1/ticker/bookTicker?symbol=");
    url.append(symbol);
    WireRequest { method: HttpMethod::Get, url, headers: Vec::new(), body: String::new() }
}

/// An order as Binance reports it, with the fields the adapter reads.
#[derive(Clone, Debug)]
pub struct BinanceOrderRaw {
    pub order_id: i64,
    pub symbol: String,
    pub status: String,
    pub client_order_id: String,
    pub price: String,
    pub orig_qty: String,
    pub executed_qty: String,
    pub avg_price: String,
    pub side: String,
    pub order_type: String,
    pub update_time: i64,
}

/// Binance's status vocabulary, translated. A word outside it reads as
/// `Pending`, never as a terminal status.
pub open spec fn spec_binance_status(s: Seq<char>) -> OrderStatus {
    if s == "NEW"@ {
        OrderStatus::Open
    } else if s == "PARTIALLY_FILLED"@ {
        OrderStatus::Partial
    } else if s == "FILLED"@ {
        OrderStatus::Filled
    } else if s == "CANCELED"@ {
        OrderStatus::Cancelled
    } else if s == "REJECTED"@ {
        OrderStatus::Rejected
    } else if s == "EXPIRED"@ {
        OrderStatus::Expired
    } else {
        OrderStatus::Pending
    }
}

pub fn parse_binance_status(status: &str) -> (r: OrderStatus)
    ensures
        r == spec_binance_status(status@),
{
    if str_eq(status, "NEW") {
        OrderStatus::Open
    } else if str_eq(status, "PARTIALLY_FILLED") {
        OrderStatus::Partial
    } else if str_eq(status, "FILLED") {
        OrderStatus::Filled
    } else if str_eq(status, "CANCELED") {
        OrderStatus::Cancelled
    } else if str_eq(status, "REJECTED") {
        OrderStatus::Rejected
    } else if str_eq(status, "EXPIRED") {
        OrderStatus::Expired
    } else {
        OrderStatus::Pending
    }
}

/// Decode an order from a successful call, reading the order type from the
/// response. Fails on a transport-level status, and on a report that no
/// well-formed response carries: a fill beyond the quantity, or a fill on
/// an order still pending, open or rejected.
pub fn decode_binance_order(http_status: u16, order: BinanceOrderRaw, parse_type: bool) -> (r:
    Result<OrderResponse, AdapterError>)
    ensures
        !(200 <= http_status < 300) ==> (r matches Err(e) && e.kind == AdapterErrorKind::Http),
        r matches Ok(resp) ==> ({
            &&& 200 <= http_status < 300
            &&& resp.wf()
            &&& resp.exchange_order_id@ == dec_digits(order.order_id as nat)
            &&& resp.client_order_id == order.client_order_id
            &&& resp.symbol == order.symbol
            &&& resp.side == (if order.side@ == "BUY"@ {
                Side::Buy
            } else {
                Side::Sell
            })
            &&& resp.order_type == (if parse_type {
                if order.order_type@ == "LIMIT"@ {
                    OrderType::Limit
                } else {
                    OrderType::Market
                }
            } else {
                OrderType::Limit
            })
            &&& resp.price == spec_parse_fixed(order.price@)
            &&& resp.quantity == spec_parse_fixed_or_zero(order.orig_qty@)
            &&& resp.filled_quantity == spec_parse_fixed_or_zero(order.executed_qty@)
            &&& resp.avg_fill_price == spec_parse_fixed(order.avg_price@)
            &&& resp.status == spec_binance_status(order.status@)
            &&& resp.timestamp == order.update_time
            &&& resp.status_fill_consistent()
        }),
        (200 <= http_status < 300 && order.order_id >= 0 && spec_parse_fixed_or_zero(
            order.executed_qty@,
        ).raw <= spec_parse_fixed_or_zero(order.orig_qty@).raw && (spec_binance_status(
            order.status@,
        ).spec_no_fill() ==> spec_parse_fixed_or_zero(order.executed_qty@).raw == 0) && (
        spec_binance_status(order.status@) == OrderStatus::Filled ==> 100
            * spec_parse_fixed_or_zero(order.executed_qty@).raw >= 99 * spec_parse_fixed_or_zero(
            order.orig_qty@,
        ).raw)) ==> r is Ok,
{
    if !(200 <= http_status && http_status < 300) {
        return Err(AdapterError::http(http_status));
    }
    if order.order_id < 0 {
        return Err(AdapterError::parse());
    }
    let quantity = crate::exchange::parse_fixed_or_zero(order.orig_qty.as_str());
    let filled = crate::exchange::parse_fixed_or_zero(order.executed_qty.as_str());
    if filled.raw > quantity.raw {
        return Err(AdapterError::parse());
    }
    let side = if str_eq(order.side.as_str(), "BUY") {
        Side::Buy
    } else {
        Side::Sell
    };
    let order_type = if parse_type {
        if str_eq(order.order_type.as_str(), "LIMIT") {
            OrderType::Limit
        } else {
            OrderType::Market
        }
    } else {
        OrderType::Limit
    };
    let status = parse_binance_status(order.status.as_str());
    if !crate::types::fill_matches_status(status, filled, quantity) {
        return Err(AdapterError::parse());
    }
    Ok(
        OrderResponse {
            exchange_order_id: crate::fixed::u64_to_string(order.order_id as u64),
            client_order_id: order.client_order_id,
            symbol: order.symbol,
            side,
            order_type,
            price: crate::exchange::parse_fixed(order.price.as_str()),
            quantity,
            filled_quantity: filled,
            avg_fill_price: crate::exchange::parse_fixed(order.avg_price.as_str()),
            status,
            timestamp: order.update_time,
        },
    )
}

/// Decode a book ticker: both sides of the touch must parse.
pub fn decode_binance_ticker(http_status: u16, bid_price: &str, ask_price: &str) -> (r: Result<
    (Fixed, Fixed),
    AdapterError,
>)
    ensures
        !(200 <= http_status < 300) ==> (r matches Err(e) && e.kind == AdapterErrorKind::Http),
        r matches Ok(p) ==> ({
            &&& 200 <= http_status < 300
            &&& spec_parse_fixed(bid_price@) == Some(p.0)
            &&& spec_parse_fixed(ask_price@) == Some(p.1)
            &&& p.0.wf()
            &&& p.1.wf()
        }),
        (200 <= http_status < 300) ==> (r is Err <==> (spec_parse_fixed(bid_price@) is None
            || spec_parse_fixed(ask_price@) is None)),
{
    if !(200 <= http_status && http_status < 300) {
        return Err(AdapterError::http(http_status));
    }
    let bid = match crate::exchange::parse_fixed(bid_price) {
        Some(v) => v,
        None => {
            return Err(AdapterError::parse());
        },
    };
    let ask = match crate::exchange::parse_fixed(ask_price) {
        Some(v) => v,
        None => {
            return Err(AdapterError::parse());
        },
    };
    Ok((bid, ask))
}

} // verus!
