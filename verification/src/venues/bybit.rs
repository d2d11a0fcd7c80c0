//! Bybit futures adapter: JSON bodies with keys in lexical order, signed as
//! timestamp, key, receive window and payload under HMAC-SHA256 hex.

use vstd::prelude::*;
use vstd::string::StringExecFns;

use crate::exchange::{
    header, json_str, push_json_str, push_u64, sign_hex_sha256, sign_hex_sha256_spec,
    spec_parse_fixed, spec_parse_fixed_or_zero, spec_side_title, spec_type_title, str_eq,
    HttpMethod, WireRequest, order_type_title, side_title,
};
use crate::fixed::{dec_digits, spec_fixed_str, u64_to_string, Fixed};
use crate::types::{
    AdapterError, AdapterErrorKind, Credentials, ExchangeConfig, OrderRequest, OrderResponse,
    OrderStatus, OrderType, Side,
};

verus! {

/// The receive window every signed call carries, in milliseconds.
pub const BYBIT_RECV_WINDOW: u64 = 5000;

/// The place-order JSON body, keys in lexical order.
pub open spec fn bybit_place_body(req: OrderRequest) -> Seq<char> {
    "{\"category\":\"linear\",\"orderLinkId\":"@ + json_str(req.client_order_id@)
        + ",\"orderType\":"@ + json_str(spec_type_title(req.order_type)) + ",\"price\":"@ + (
    if req.price is Some {
        json_str(spec_fixed_str(req.price->Some_0.raw as nat))
    } else {
        "null"@
    }) + ",\"qty\":"@ + json_str(spec_fixed_str(req.quantity.raw as nat)) + ",\"reduceOnly\":"@
        + (if req.reduce_only {
        "true"@
    } else {
        "false"@
    }) + ",\"side\":"@ + json_str(spec_side_title(req.side)) + ",\"symbol\":"@ + json_str(
        req.symbol@,
    ) + ",\"timeInForce\":\"GTC\"}"@
}

/// What a signed call's tag covers: timestamp, key, receive window, then
/// the body or query.
pub open spec fn bybit_sign_payload(ts: u64, api_key: Seq<char>, payload: Seq<char>) -> Seq<
    char,
> {
    dec_digits(ts as nat) + api_key + dec_digits(BYBIT_RECV_WINDOW as nat) + payload
}

fn bybit_sign(credentials: &Credentials, timestamp_ms: u64, payload: &str) -> (r: String)
    ensures
        r@ == sign_hex_sha256_spec(
            credentials.api_secret@,
            bybit_sign_payload(timestamp_ms, credentials.api_key@, payload@),
        ),
{
    let mut msg = String::new();
    push_u64(&mut msg, timestamp_ms);
    msg.append(credentials.api_key.as_str());
    push_u64(&mut msg, BYBIT_RECV_WINDOW);
    msg.append(payload);
    proof {
        assert(msg@ =~= bybit_sign_payload(timestamp_ms, credentials.api_key@, payload@));
    }
    sign_hex_sha256(credentials.api_secret.as_str(), msg.as_str())
}

fn bybit_headers(credentials: &Credentials, signature: String, timestamp_ms: u64) -> (r: Vec<
    (String, String),
>)
    ensures
        r@.len() == 5,
        r@[0].0@ == "X-BAPI-API-KEY"@ && r@[0].1@ == credentials.api_key@,
        r@[1].0@ == "X-BAPI-SIGN"@ && r@[1].1 == signature,
        r@[2].0@ == "X-BAPI-TIMESTAMP"@ && r@[2].1@ == dec_digits(timestamp_ms as nat),
        r@[3].0@ == "X-BAPI-RECV-WINDOW"@ && r@[3].1@ == dec_digits(BYBIT_RECV_WINDOW as nat),
        r@[4].0@ == "Content-Type"@ && r@[4].1@ == "application/json"@,
{
    let mut headers: Vec<(String, String)> = Vec::new();
    headers.push(header("X-BAPI-API-KEY", credentials.api_key.clone()));
    headers.push(header("X-BAPI-SIGN", signature));
    headers.push(header("X-BAPI-TIMESTAMP", u64_to_string(timestamp_ms)));
    headers.push(header("X-BAPI-RECV-WINDOW", u64_to_string(BYBIT_RECV_WINDOW)));
    headers.push(header("Content-Type", String::from_str("application/json")));
    headers
}

/// Build and sign a place-order call.
pub fn bybit_place_order(
    config: &ExchangeConfig,
    credentials: &Credentials,
    request: &OrderRequest,
    timestamp_ms: u64,
) -> (r: WireRequest)
    requires
        request.wf(),
    ensures
        r.method == HttpMethod::Post,
        r.body@ == bybit_place_body(*request),
        r.url@ == config.rest_url@ + "/v5/order/create"@,
        r.headers@.len() == 5,
        r.headers@[0].0@ == "X-BAPI-API-KEY"@ && r.headers@[0].1@ == credentials.api_key@,
        r.headers@[1].0@ == "X-BAPI-SIGN"@ && r.headers@[1].1@ == sign_hex_sha256_spec(
            credentials.api_secret@,
            bybit_sign_payload(timestamp_ms, credentials.api_key@, bybit_place_body(*request)),
        ),
        r.headers@[2].0@ == "X-BAPI-TIMESTAMP"@ && r.headers@[2].1@ == dec_digits(
            timestamp_ms as nat,
        ),
        r.headers@[3].0@ == "X-BAPI-RECV-WINDOW"@,
        r.headers@[4].0@ == "Content-Type"@,
{
    let mut body = String::new();
    body.append("{\"category\":\"linear\",\"orderLinkId\":");
    push_json_str(&mut body, request.client_order_id.as_str());
    body.append(",\"orderType\":");
    push_json_str(&mut body, order_type_title(request.order_type));
    body.append(",\"price\":");
    if let Some(price) = request.price {
        let ps = price.to_string();
        push_json_str(&mut body, ps.as_str());
    } else {
        body.append("null");
    }
    body.append(",\"qty\":");
    let qs = request.quantity.to_string();
    push_json_str(&mut body, qs.as_str());
    body.append(",\"reduceOnly\":");
    if request.reduce_only {
        body.append("true");
    } else {
        body.append("false");
    }
    body.append(",\"side\":");
    push_json_str(&mut body, side_title(request.side));
    body.append(",\"symbol\":");
    push_json_str(&mut body, request.symbol.as_str());
    body.append(",\"timeInForce\":\"GTC\"}");
    proof {
        assert(body@ =~= bybit_place_body(*request));
    }
    let signature = bybit_sign(credentials, timestamp_ms, body.as_str());
    let mut url = String::new();
    url.append(config.rest_url.as_str());
    url.append("/v5/order/create");
    let headers = bybit_headers(credentials, signature, timestamp_ms);
    WireRequest { method: HttpMethod::Post, url, headers, body }
}

/// The cancel JSON body, keys in lexical order.
pub open spec fn bybit_cancel_body(symbol: Seq<char>, order_id: Seq<char>) -> Seq<char> {
    "{\"category\":\"linear\",\"orderId\":"@ + json_str(order_id) + ",\"symbol\":"@ + json_str(
        symbol,
    ) + "}"@
}

/// Build and sign a cancel-order call.
pub fn bybit_cancel_order(
    config: &ExchangeConfig,
    credentials: &Credentials,
    symbol: &str,
    order_id: &str,
    timestamp_ms: u64,
) -> (r: WireRequest)
    ensures
        r.method == HttpMethod::Post,
        r.body@ == bybit_cancel_body(symbol@, order_id@),
        r.url@ == config.rest_url@ + "/v5/order/cancel"@,
        r.headers@.len() == 5,
        r.headers@[0].0@ == "X-BAPI-API-KEY"@ && r.headers@[0].1@ == credentials.api_key@,
        r.headers@[1].0@ == "X-BAPI-SIGN"@ && r.headers@[1].1@ == sign_hex_sha256_spec(
            credentials.api_secret@,
            bybit_sign_payload(
                timestamp_ms,
                credentials.api_key@,
                bybit_cancel_body(symbol@, order_id@),
            ),
        ),
        r.headers@[2].0@ == "X-BAPI-TIMESTAMP"@,
        r.headers@[3].0@ == "X-BAPI-RECV-WINDOW"@,
        r.headers@[4].0@ == "Content-Type"@,
{
    let mut body = String::new();
    body.append("{\"category\":\"linear\",\"orderId\":");
    push_json_str(&mut body, order_id);
    body.append(",\"symbol\":");
    push_json_str(&mut body, symbol);
    body.append("}");
    proof {
        assert(body@ =~= bybit_cancel_body(symbol@, order_id@));
    }
    let signature = bybit_sign(credentials, timestamp_ms, body.as_str());
    let mut url = String::new();
    url.append(config.rest_url.as_str());
    url.append("/v5/order/cancel");
    let headers = bybit_headers(credentials, signature, timestamp_ms);
    WireRequest { method: HttpMethod::Post, url, headers, body }
}

/// The signed query of an order lookup.
pub open spec fn bybit_get_query(symbol: Seq<char>, order_id: Seq<char>) -> Seq<char> {
    "category=linear&symbol="@ + symbol + "&orderId="@ + order_id
}

/// Build and sign an order lookup.
pub fn bybit_get_order(
    config: &ExchangeConfig,
    credentials: &Credentials,
    symbol: &str,
    order_id: &str,
    timestamp_ms: u64,
) -> (r: WireRequest)
    ensures
        r.method == HttpMethod::Get,
        r.body@.len() == 0,
        r.url@ == config.rest_url@ + "/v5/order/realtime?"@ + bybit_get_query(
            symbol@,
            order_id@,
        ),
        r.headers@.len() == 5,
        r.headers@[0].0@ == "X-BAPI-API-KEY"@ && r.headers@[0].1@ == credentials.api_key@,
        r.headers@[1].0@ == "X-BAPI-SIGN"@ && r.headers@[1].1@ == sign_hex_sha256_spec(
            credentials.api_secret@,
            bybit_sign_payload(
                timestamp_ms,
                credentials.api_key@,
                bybit_get_query(symbol@, order_id@),
            ),
        ),
        r.headers@[2].0@ == "X-BAPI-TIMESTAMP"@,
        r.headers@[3].0@ == "X-BAPI-RECV-WINDOW"@,
        r.headers@[4].0@ == "Content-Type"@,
{
    let mut q = String::new();
    q.append("category=linear&symbol=");
    q.append(symbol);
    q.append("&orderId=");
    q.append(order_id);
    proof {
        assert(q@ =~= bybit_get_query(symbol@, order_id@));
    }
    let signature = bybit_sign(credentials, timestamp_ms, q.as_str());
    let mut url = String::new();
    url.append(config.rest_url.as_str());
    url.append("/v5/order/realtime?");
    url.append(q.as_str());
    let headers = bybit_headers(credentials, signature, timestamp_ms);
    WireRequest { method: HttpMethod::Get, url, headers, body: String::new() }
}

/// Build the ticker lookup.
pub fn bybit_best_price_request(config: &ExchangeConfig, symbol: &str) -> (r: WireRequest)
    ensures
        r.method == HttpMethod::Get,
        r.body@.len() == 0,
        r.headers@.len() == 0,
        r.url@ == config.rest_url@ + "/v5/market/tickers?category=linear&symbol="@ + symbol@,
{
    let mut url = String::new();
    url.append(config.rest_url.as_str());
    url.append("/v5/market/tickers?category=linear&symbol=");
    url.append(symbol);
    WireRequest { method: HttpMethod::Get, url, headers: Vec::new(), body: String::new() }
}

/// The order identifiers a placement or cancellation acknowledges.
#[derive(Clone, Debug)]
pub struct BybitOrderIdsRaw {
    pub order_id: String,
    pub order_link_id: String,
}

/// A full order as the realtime lookup reports it.
#[derive(Clone, Debug)]
pub struct BybitOrderRaw {
    pub order_id: String,
    pub order_link_id: String,
    pub symbol: String,
    pub side: String,
    pub order_type: String,
    pub price: String,
    pub qty: String,
    pub cum_exec_qty: String,
    pub avg_price: String,
    pub order_status: String,
    pub updated_time: String,
}

/// Bybit's status vocabulary, translated. A word outside it reads as
/// `Pending`, never as a terminal status.
pub open spec fn spec_bybit_status(s: Seq<char>) -> OrderStatus {
    if s == "New"@ {
        OrderStatus::Open
    } else if s == "PartiallyFilled"@ {
        OrderStatus::Partial
    } else if s == "Filled"@ {
        OrderStatus::Filled
    } else if s == "Cancelled"@ {
        OrderStatus::Cancelled
    } else if s == "Rejected"@ {
        OrderStatus::Rejected
    } else {
        OrderStatus::Pending
    }
}

pub fn parse_bybit_status(status: &str) -> (r: OrderStatus)
    ensures
        r == spec_bybit_status(status@),
{
    if str_eq(status, "New") {
        OrderStatus::Open
    } else if str_eq(status, "PartiallyFilled") {
        OrderStatus::Partial
    } else if str_eq(status, "Filled") {
        OrderStatus::Filled
    } else if str_eq(status, "Cancelled") {
        OrderStatus::Cancelled
    } else if str_eq(status, "Rejected") {
        OrderStatus::Rejected
    } else {
        OrderStatus::Pending
    }
}

/// Decode a placement acknowledgement: the venue echoes only the order
/// identifiers, so the response repeats the request with nothing filled
/// and the order standing open.
pub fn decode_bybit_place(
    http_status: u16,
    ret_code: i64,
    result: Option<BybitOrderIdsRaw>,
    request: &OrderRequest,
    timestamp_ms: u64,
) -> (r: Result<OrderResponse, AdapterError>)
    requires
        request.wf(),
    ensures
        !(200 <= http_status < 300) ==> (r matches Err(e) && e.kind == AdapterErrorKind::Http),
        (200 <= http_status < 300 && ret_code != 0) ==> (r matches Err(e) && e.kind
            == AdapterErrorKind::Venue),
        (200 <= http_status < 300 && ret_code == 0 && result is None) ==> (r matches Err(e)
            && e.kind == AdapterErrorKind::Parse),
        (200 <= http_status < 300 && ret_code == 0 && result is Some) ==> r is Ok,
        r matches Ok(resp) ==> ({
            &&& result matches Some(ids)
            &&& resp.wf()
            &&& resp.exchange_order_id == ids.order_id
            &&& resp.client_order_id == ids.order_link_id
            &&& resp.symbol == request.symbol
            &&& resp.side == request.side
            &&& resp.order_type == request.order_type
            &&& resp.price == request.price
            &&& resp.quantity == request.quantity
            &&& resp.filled_quantity.raw == 0
            &&& resp.avg_fill_price is None
            &&& resp.status == OrderStatus::Open
            &&& resp.timestamp == timestamp_ms as i64
            &&& resp.status_fill_consistent()
        }),
{
    if !(200 <= http_status && http_status < 300) {
        return Err(AdapterError::http(http_status));
    }
    if ret_code != 0 {
        return Err(AdapterError::venue(String::new()));
    }
    let ids = match result {
        Some(ids) => ids,
        None => {
            return Err(AdapterError::parse());
        },
    };
    Ok(
        OrderResponse {
            exchange_order_id: ids.order_id,
            client_order_id: ids.order_link_id,
            symbol: request.symbol.clone(),
            side: request.side,
            order_type: request.order_type,
            price: request.price,
            quantity: request.quantity,
            filled_quantity: Fixed { raw: 0 },
            avg_fill_price: None,
            status: OrderStatus::Open,
            timestamp: timestamp_ms as i64,
        },
    )
}

/// Decode a cancel acknowledgement. The cancel endpoint echoes only the
/// identifiers; the other fields are placeholders and consumers may not
/// rely on them.
pub fn decode_bybit_cancel(
    http_status: u16,
    result: Option<BybitOrderIdsRaw>,
    symbol: &str,
    timestamp_ms: u64,
) -> (r: Result<OrderResponse, AdapterError>)
    ensures
        !(200 <= http_status < 300) ==> (r matches Err(e) && e.kind == AdapterErrorKind::Http),
        (200 <= http_status < 300 && result is None) ==> (r matches Err(e) && e.kind
            == AdapterErrorKind::Parse),
        r matches Ok(resp) ==> ({
            &&& result matches Some(ids)
            &&& resp.wf()
            &&& resp.exchange_order_id == ids.order_id
            &&& resp.client_order_id == ids.order_link_id
            &&& resp.symbol@ == symbol@
            &&& resp.status == OrderStatus::Cancelled
            &&& resp.filled_quantity.raw == 0
            &&& resp.timestamp == timestamp_ms as i64
        }),
{
    if !(200 <= http_status && http_status < 300) {
        return Err(AdapterError::http(http_status));
    }
    let ids = match result {
        Some(ids) => ids,
        None => {
            return Err(AdapterError::parse());
        },
    };
    Ok(
        OrderResponse {
            exchange_order_id: ids.order_id,
            client_order_id: ids.order_link_id,
            symbol: String::from_str(symbol),
            side: Side::Buy,
            order_type: OrderType::Limit,
            price: None,
            quantity: Fixed { raw: 0 },
            filled_quantity: Fixed { raw: 0 },
            avg_fill_price: None,
            status: OrderStatus::Cancelled,
            timestamp: timestamp_ms as i64,
        },
    )
}

/// Decode an order from the realtime lookup. A report with a fill beyond
/// the quantity, or a fill on an order still pending, open or rejected,
/// is refused as malformed.
pub fn decode_bybit_order(http_status: u16, order: Option<BybitOrderRaw>) -> (r: Result<
    OrderResponse,
    AdapterError,
>)
    ensures
        !(200 <= http_status < 300) ==> (r matches Err(e) && e.kind == AdapterErrorKind::Http),
        (200 <= http_status < 300 && order is None) ==> (r matches Err(e) && e.kind
            == AdapterErrorKind::Parse),
        (200 <= http_status < 300 && (order matches Some(o) && spec_parse_fixed_or_zero(
            o.cum_exec_qty@,
        ).raw <= spec_parse_fixed_or_zero(o.qty@).raw && (spec_bybit_status(
            o.order_status@,
        ).spec_no_fill() ==> spec_parse_fixed_or_zero(o.cum_exec_qty@).raw == 0) && (
        spec_bybit_status(o.order_status@) == OrderStatus::Filled ==> 100
            * spec_parse_fixed_or_zero(o.cum_exec_qty@).raw >= 99 * spec_parse_fixed_or_zero(
            o.qty@,
        ).raw))) ==> r is Ok,
        r matches Ok(resp) ==> ({
            &&& order matches Some(o)
            &&& resp.wf()
            &&& resp.exchange_order_id == o.order_id
            &&& resp.client_order_id == o.order_link_id
            &&& resp.symbol == o.symbol
            &&& resp.side == (if o.side@ == "Buy"@ {
                Side::Buy
            } else {
                Side::Sell
            })
            &&& resp.order_type == (if o.order_type@ == "Limit"@ {
                OrderType::Limit
            } else {
                OrderType::Market
            })
            &&& resp.price == spec_parse_fixed(o.price@)
            &&& resp.quantity == spec_parse_fixed_or_zero(o.qty@)
            &&& resp.filled_quantity == spec_parse_fixed_or_zero(o.cum_exec_qty@)
            &&& resp.avg_fill_price == spec_parse_fixed(o.avg_price@)
            &&& resp.status == spec_bybit_status(o.order_status@)
            &&& resp.timestamp == crate::exchange::spec_timestamp_ms(o.updated_time@)
            &&& resp.status_fill_consistent()
        }),
{
    if !(200 <= http_status && http_status < 300) {
        return Err(AdapterError::http(http_status));
    }
    let o = match order {
        Some(o) => o,
        None => {
            return Err(AdapterError::parse());
        },
    };
    let quantity = crate::exchange::parse_fixed_or_zero(o.qty.as_str());
    let filled = crate::exchange::parse_fixed_or_zero(o.cum_exec_qty.as_str());
    if filled.raw > quantity.raw {
        return Err(AdapterError::parse());
    }
    let side = if str_eq(o.side.as_str(), "Buy") {
        Side::Buy
    } else {
        Side::Sell
    };
    let order_type = if str_eq(o.order_type.as_str(), "Limit") {
        OrderType::Limit
    } else {
        OrderType::Market
    };
    let status = parse_bybit_status(o.order_status.as_str());
    if !crate::types::fill_matches_status(status, filled, quantity) {
        return Err(AdapterError::parse());
    }
    let ts: i64 = crate::exchange::parse_timestamp_ms(o.updated_time.as_str());
    Ok(
        OrderResponse {
            exchange_order_id: o.order_id,
            client_order_id: o.order_link_id,
            symbol: o.symbol,
            side,
            order_type,
            price: crate::exchange::parse_fixed(o.price.as_str()),
            quantity,
            filled_quantity: filled,
            avg_fill_price: crate::exchange::parse_fixed(o.avg_price.as_str()),
            status,
            timestamp: ts,
        },
    )
}

/// Decode a ticker: both sides of the touch must parse.
pub fn decode_bybit_ticker(http_status: u16, bid_price: &str, ask_price: &str) -> (r: Result<
    (Fixed, Fixed),
    AdapterError,
>)
    ensures
        !(200 <= http_status < 300) ==> (r matches Err(e) && e.kind == AdapterErrorKind::Http),
        r matches Ok(p) ==> ({
            &&& 200 <= http_status < 300
            &&& spec_parse_fixed(bid_price@) == Some(p.0)
            &&& spec_parse_fixed(ask_price@) == Some(p.1)
            &&& p.0.wf()
            &&& p.1.wf()
        }),
        (200 <= http_status < 300) ==> (r is Err <==> (spec_parse_fixed(bid_price@) is None
            || spec_parse_fixed(ask_price@) is None)),
{
    if !(200 <= http_status && http_status < 300) {
        return Err(AdapterError::http(http_status));
    }
    let bid = match crate::exchange::parse_fixed(bid_price) {
        Some(v) => v,
        None => {
            return Err(AdapterError::parse());
        },
    };
    let ask = match crate::exchange::parse_fixed(ask_price) {
        Some(v) => v,
        None => {
            return Err(AdapterError::parse());
        },
    };
    Ok((bid, ask))
}

} // verus!
