//! MEXC futures adapter: query parameters in insertion order, HMAC-SHA256
//! in lowercase hex, key and signature in headers.

use vstd::prelude::*;
use vstd::string::StringExecFns;

use crate::exchange::{
    header, push_fixed, push_u64, sign_hex_sha256, sign_hex_sha256_spec, spec_parse_fixed,
    spec_parse_fixed_or_zero, HttpMethod, WireRequest,
};
use crate::fixed::{dec_digits, spec_fixed_str, u64_to_string, Fixed};
use crate::types::{
    AdapterError, AdapterErrorKind, Credentials, ExchangeConfig, OrderRequest, OrderResponse,
    OrderStatus, OrderType, Side,
};

verus! {

/// The numeric side code MEXC uses for a position-opening order: one opens
/// a long, three opens a short.
pub open spec fn mexc_side_code(side: Side) -> int {
    match side {
        Side::Buy => 1,
        Side::Sell => 3,
    }
}

/// The numeric order-type code: one for limit, five for market.
pub open spec fn mexc_type_code(t: OrderType) -> int {
    match t {
        OrderType::Limit => 1,
        OrderType::Market => 5,
    }
}

/// The place-order parameter string in the order it is built and signed.
pub open spec fn mexc_place_query(req: OrderRequest, ts: u64) -> Seq<char> {
    let base = "symbol="@ + req.symbol@ + "&side="@ + dec_digits(mexc_side_code(req.side) as nat)
        + "&openType=2"@ + "&type="@ + dec_digits(mexc_type_code(req.order_type) as nat)
        + "&vol="@ + spec_fixed_str(req.quantity.raw as nat) + "&timestamp="@ + dec_digits(
        ts as nat,
    );
    let with_price = if req.price is Some {
        base + "&price="@ + spec_fixed_str(req.price->Some_0.raw as nat)
    } else {
        base
    };
    with_price + "&externalOid="@ + req.client_order_id@
}

/// Build and sign a place-order call. The signed parameters travel as the
/// body, and the signature stands in the query and in a header.
pub fn mexc_place_order(
    config: &ExchangeConfig,
    credentials: &Credentials,
    request: &OrderRequest,
    timestamp_ms: u64,
) -> (r: WireRequest)
    requires
        request.wf(),
    ensures
        r.method == HttpMethod::Post,
        r.body@ == mexc_place_query(*request, timestamp_ms),
        r.url@ == config.rest_url@ + "/api/v1/private/order/submit?signature="@
            + sign_hex_sha256_spec(
            credentials.api_secret@,
            mexc_place_query(*request, timestamp_ms),
        ),
        r.headers@.len() == 3,
        r.headers@[0].0@ == "ApiKey"@,
        r.headers@[0].1@ == credentials.api_key@,
        r.headers@[1].0@ == "Request-Time"@,
        r.headers@[1].1@ == dec_digits(timestamp_ms as nat),
        r.headers@[2].0@ == "Signature"@,
        r.headers@[2].1@ == sign_hex_sha256_spec(
            credentials.api_secret@,
            mexc_place_query(*request, timestamp_ms),
        ),
{
    let mut q = String::new();
    q.append("symbol=");
    q.append(request.symbol.as_str());
    q.append("&side=");
    match request.side {
        Side::Buy => push_u64(&mut q, 1),
        Side::Sell => push_u64(&mut q, 3),
    }
    q.append("&openType=2");
    q.append("&type=");
    match request.order_type {
        OrderType::Limit => push_u64(&mut q, 1),
        OrderType::Market => push_u64(&mut q, 5),
    }
    q.append("&vol=");
    push_fixed(&mut q, request.quantity);
    q.append("&timestamp=");
    push_u64(&mut q, timestamp_ms);
    if let Some(price) = request.price {
        q.append("&price=");
        push_fixed(&mut q, price);
    }
    q.append("&externalOid=");
    q.append(request.client_order_id.as_str());
    proof {
        assert(q@ =~= mexc_place_query(*request, timestamp_ms));
    }
    let signature = sign_hex_sha256(credentials.api_secret.as_str(), q.as_str());
    let mut url = String::new();
    url.append(config.rest_url.as_str());
    url.append("/api/v1/private/order/submit?signature=");
    url.append(signature.as_str());
    let mut headers: Vec<(String, String)> = Vec::new();
    headers.push(header("ApiKey", credentials.api_key.clone()));
    headers.push(header("Request-Time", u64_to_string(timestamp_ms)));
    headers.push(header("Signature", signature));
    WireRequest { method: HttpMethod::Post, url, headers, body: q }
}

/// The signed parameter string of a cancel.
pub open spec fn mexc_cancel_query(symbol: Seq<char>, order_id: Seq<char>, ts: u64) -> Seq<char> {
    "symbol="@ + symbol + "&orderId="@ + order_id + "&timestamp="@ + dec_digits(ts as nat)
}

/// Build and sign a cancel-order call.
pub fn mexc_cancel_order(
    config: &ExchangeConfig,
    credentials: &Credentials,
    symbol: &str,
    order_id: &str,
    timestamp_ms: u64,
) -> (r: WireRequest)
    ensures
        r.method == HttpMethod::Post,
        r.body@ == mexc_cancel_query(symbol@, order_id@, timestamp_ms),
        r.url@ == config.rest_url@ + "/api/v1/private/order/cancel?signature="@
            + sign_hex_sha256_spec(
            credentials.api_secret@,
            mexc_cancel_query(symbol@, order_id@, timestamp_ms),
        ),
        r.headers@.len() == 3,
        r.headers@[0].0@ == "ApiKey"@,
        r.headers@[0].1@ == credentials.api_key@,
        r.headers@[1].0@ == "Request-Time"@,
        r.headers@[1].1@ == dec_digits(timestamp_ms as nat),
        r.headers@[2].0@ == "Signature"@,
{
    let mut q = String::new();
    q.append("symbol=");
    q.append(symbol);
    q.append("&orderId=");
    q.append(order_id);
    q.append("&timestamp=");
    push_u64(&mut q, timestamp_ms);
    proof {
        assert(q@ =~= mexc_cancel_query(symbol@, order_id@, timestamp_ms));
    }
    let signature = sign_hex_sha256(credentials.api_secret.as_str(), q.as_str());
    let mut url = String::new();
    url.append(config.rest_url.as_str());
    url.append("/api/v1/private/order/cancel?signature=");
    url.append(signature.as_str());
    let mut headers: Vec<(String, String)> = Vec::new();
    headers.push(header("ApiKey", credentials.api_key.clone()));
    headers.push(header("Request-Time", u64_to_string(timestamp_ms)));
    headers.push(header("Signature", signature));
    WireRequest { method: HttpMethod::Post, url, headers, body: q }
}

/// The signed parameter string of an order lookup.
pub open spec fn mexc_get_query(symbol: Seq<char>, order_id: Seq<char>, ts: u64) -> Seq<char> {
    "symbol="@ + symbol + "&order_id="@ + order_id + "&timestamp="@ + dec_digits(ts as nat)
}

/// Build and sign an order lookup.
pub fn mexc_get_order(
    config: &ExchangeConfig,
    credentials: &Credentials,
    symbol: &str,
    order_id: &str,
    timestamp_ms: u64,
) -> (r: WireRequest)
    ensures
        r.method == HttpMethod::Get,
        r.body@.len() == 0,
        r.url@ == config.rest_url@ + "/api/v1/private/order/get/"@ + order_id@,
        r.headers@.len() == 3,
        r.headers@[0].0@ == "ApiKey"@,
        r.headers@[0].1@ == credentials.api_key@,
        r.headers@[1].0@ == "Request-Time"@,
        r.headers@[1].1@ == dec_digits(timestamp_ms as nat),
        r.headers@[2].0@ == "Signature"@,
        r.headers@[2].1@ == sign_hex_sha256_spec(
            credentials.api_secret@,
            mexc_get_query(symbol@, order_id@, timestamp_ms),
        ),
{
    let mut q = String::new();
    q.append("symbol=");
    q.append(symbol);
    q.append("&order_id=");
    q.append(order_id);
    q.append("&timestamp=");
    push_u64(&mut q, timestamp_ms);
    proof {
        assert(q@ =~= mexc_get_query(symbol@, order_id@, timestamp_ms));
    }
    let signature = sign_hex_sha256(credentials.api_secret.as_str(), q.as_str());
    let mut url = String::new();
    url.append(config.rest_url.as_str());
    url.append("/api/v1/private/order/get/");
    url.append(order_id);
    let mut headers: Vec<(String, String)> = Vec::new();
    headers.push(header("ApiKey", credentials.api_key.clone()));
    headers.push(header("Request-Time", u64_to_string(timestamp_ms)));
    headers.push(header("Signature", signature));
    WireRequest { method: HttpMethod::Get, url, headers, body: String::new() }
}

/// Build the contract ticker lookup.
pub fn mexc_best_price_request(config: &ExchangeConfig, symbol: &str) -> (r: WireRequest)
    ensures
        r.method == HttpMethod::Get,
        r.body@.len() == 0,
        r.headers@.len() == 0,
        r.url@ == config.rest_url@ + "/api/v1/contract/ticker?symbol="@ + symbol@,
{
    let mut url = String::new();
    url.append(config.rest_url.as_str());
    url.append("/api/v1/contract/ticker?symbol=");
    url.append(symbol);
    WireRequest { method: HttpMethod::Get, url, headers: Vec::new(), body: String::new() }
}

/// An order as MEXC reports it, with its numeric codes.
#[derive(Clone, Debug)]
pub struct MexcOrderRaw {
    pub order_id: String,
    pub client_order_id: Option<String>,
    pub symbol: String,
    pub side: i32,
    pub order_type: i32,
    pub price: String,
    pub vol: String,
    pub deal_vol: String,
    pub deal_avg_price: String,
    pub state: i32,
    pub create_time: i64,
}

/// MEXC's numeric states, translated. A code outside the vocabulary reads
/// as `Pending`, never as a terminal status.
pub open spec fn spec_mexc_status(state: int) -> OrderStatus {
    if state == 1 {
        OrderStatus::Pending
    } else if state == 2 {
        OrderStatus::Filled
    } else if state == 3 {
        OrderStatus::Partial
    } else if state == 4 {
        OrderStatus::Cancelled
    } else {
        OrderStatus::Pending
    }
}

pub fn parse_mexc_status(state: i32) -> (r: OrderStatus)
    ensures
        r == spec_mexc_status(state as int),
{
    match state {
        1 => OrderStatus::Pending,
        2 => OrderStatus::Filled,
        3 => OrderStatus::Partial,
        4 => OrderStatus::Cancelled,
        _ => OrderStatus::Pending,
    }
}

/// Decode an order from a venue answer; sides one and two read as buys,
/// the rest as sells. On a cancel the status is the cancellation itself.
/// A report with a fill beyond the quantity, or a fill on an order still
/// pending, open or rejected, is refused as malformed.
pub fn decode_mexc_order(
    http_status: u16,
    code: i64,
    order: Option<MexcOrderRaw>,
    cancelled: bool,
) -> (r: Result<OrderResponse, AdapterError>)
    ensures
        !(200 <= http_status < 300) ==> (r matches Err(e) && e.kind == AdapterErrorKind::Http),
        (200 <= http_status < 300 && code != 0) ==> (r matches Err(e) && e.kind
            == AdapterErrorKind::Venue),
        (200 <= http_status < 300 && code == 0 && order is None) ==> (r matches Err(e) && e.kind
            == AdapterErrorKind::Parse),
        (200 <= http_status < 300 && code == 0 && (order matches Some(o)
            && spec_parse_fixed_or_zero(o.deal_vol@).raw <= spec_parse_fixed_or_zero(
            o.vol@,
        ).raw && ((!cancelled && spec_mexc_status(o.state as int).spec_no_fill())
            ==> spec_parse_fixed_or_zero(o.deal_vol@).raw == 0) && ((!cancelled
            && spec_mexc_status(o.state as int) == OrderStatus::Filled) ==> 100
            * spec_parse_fixed_or_zero(o.deal_vol@).raw >= 99 * spec_parse_fixed_or_zero(
            o.vol@,
        ).raw))) ==> r is Ok,
        r matches Ok(resp) ==> ({
            &&& 200 <= http_status < 300
            &&& code == 0
            &&& order matches Some(o)
            &&& resp.wf()
            &&& resp.exchange_order_id == o.order_id
            &&& resp.side == (if o.side == 1 || o.side == 2 {
                Side::Buy
            } else {
                Side::Sell
            })
            &&& resp.order_type == (if cancelled {
                OrderType::Limit
            } else if o.order_type == 1 {
                OrderType::Limit
            } else {
                OrderType::Market
            })
            &&& resp.price == spec_parse_fixed(o.price@)
            &&& resp.quantity == spec_parse_fixed_or_zero(o.vol@)
            &&& resp.filled_quantity == spec_parse_fixed_or_zero(o.deal_vol@)
            &&& resp.avg_fill_price == spec_parse_fixed(o.deal_avg_price@)
            &&& resp.status == (if cancelled {
                OrderStatus::Cancelled
            } else {
                spec_mexc_status(o.state as int)
            })
            &&& resp.timestamp == o.create_time
            &&& resp.status_fill_consistent()
        }),
{
    if !(200 <= http_status && http_status < 300) {
        return Err(AdapterError::http(http_status));
    }
    if code != 0 {
        return Err(AdapterError::venue(String::new()));
    }
    let o = match order {
        Some(o) => o,
        None => {
            return Err(AdapterError::parse());
        },
    };
    let quantity = crate::exchange::parse_fixed_or_zero(o.vol.as_str());
    let filled = crate::exchange::parse_fixed_or_zero(o.deal_vol.as_str());
    if filled.raw > quantity.raw {
        return Err(AdapterError::parse());
    }
    let side = if o.side == 1 || o.side == 2 {
        Side::Buy
    } else {
        Side::Sell
    };
    let order_type = if cancelled {
        OrderType::Limit
    } else if o.order_type == 1 {
        OrderType::Limit
    } else {
        OrderType::Market
    };
    let status = if cancelled {
        OrderStatus::Cancelled
    } else {
        parse_mexc_status(o.state)
    };
    if !crate::types::fill_matches_status(status, filled, quantity) {
        return Err(AdapterError::parse());
    }
    let client_order_id = match o.client_order_id {
        Some(c) => c,
        None => String::new(),
    };
    Ok(
        OrderResponse {
            exchange_order_id: o.order_id,
            client_order_id,
            symbol: o.symbol,
            side,
            order_type,
            price: crate::exchange::parse_fixed(o.price.as_str()),
            quantity,
            filled_quantity: filled,
            avg_fill_price: crate::exchange::parse_fixed(o.deal_avg_price.as_str()),
            status,
            timestamp: o.create_time,
        },
    )
}

/// Decode a contract ticker: both sides of the touch must parse.
pub fn decode_mexc_ticker(http_status: u16, code: i64, bid: &str, ask: &str) -> (r: Result<
    (Fixed, Fixed),
    AdapterError,
>)
    ensures
        !(200 <= http_status < 300) ==> (r matches Err(e) && e.kind == AdapterErrorKind::Http),
        (200 <= http_status < 300 && code != 0) ==> (r matches Err(e) && e.kind
            == AdapterErrorKind::Venue),
        r matches Ok(p) ==> ({
            &&& 200 <= http_status < 300
            &&& code == 0
            &&& spec_parse_fixed(bid@) == Some(p.0)
            &&& spec_parse_fixed(ask@) == Some(p.1)
            &&& p.0.wf()
            &&& p.1.wf()
        }),
        (200 <= http_status < 300 && code == 0) ==> (r is Err <==> (spec_parse_fixed(bid@)
            is None || spec_parse_fixed(ask@) is None)),
{
    if !(200 <= http_status && http_status < 300) {
        return Err(AdapterError::http(http_status));
    }
    if code != 0 {
        return Err(AdapterError::venue(String::new()));
    }
    let b = match crate::exchange::parse_fixed(bid) {
        Some(v) => v,
        None => {
            return Err(AdapterError::parse());
        },
    };
    let a = match crate::exchange::parse_fixed(ask) {
        Some(v) => v,
        None => {
            return Err(AdapterError::parse());
        },
    };
    Ok((b, a))
}

} // verus!
