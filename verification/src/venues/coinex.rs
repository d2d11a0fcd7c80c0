//! CoinEx futures adapter: JSON bodies with numeric side and type codes,
//! HMAC-SHA256 in lowercase hex over method, path, body and the
//! millisecond timestamp.

use vstd::prelude::*;
use vstd::string::StringExecFns;

use crate::exchange::{spec_parse_opt, spec_parse_opt_or_zero, 
    header, json_str, push_json_str, push_u64, sign_hex_sha256, sign_hex_sha256_spec,
    spec_parse_fixed, spec_timestamp_ms, str_eq, HttpMethod, WireRequest,
};
use crate::fixed::{dec_digits, spec_fixed_str, u64_to_string, Fixed};
use crate::types::{
    AdapterError, AdapterErrorKind, Credentials, ExchangeConfig, OrderRequest, OrderResponse,
    OrderStatus, OrderType, Side,
};

verus! {

/// The numeric side code: one buys, two sells.
pub open spec fn coinex_side_code(side: Side) -> int {
    match side {
        Side::Buy => 1,
        Side::Sell => 2,
    }
}

/// The numeric order-type code: one for limit, two for market.
pub open spec fn coinex_type_code(t: OrderType) -> int {
    match t {
        OrderType::Limit => 1,
        OrderType::Market => 2,
    }
}

/// The place-order JSON body, keys in lexical order.
pub open spec fn coinex_place_body(req: OrderRequest) -> Seq<char> {
    "{\"amount\":"@ + json_str(spec_fixed_str(req.quantity.raw as nat)) + ",\"client_id\":"@
        + json_str(req.client_order_id@) + ",\"market\":"@ + json_str(req.symbol@)
        + ",\"price\":"@ + (if req.price is Some {
        json_str(spec_fixed_str(req.price->Some_0.raw as nat))
    } else {
        "null"@
    }) + ",\"side\":"@ + dec_digits(coinex_side_code(req.side) as nat) + ",\"type\":"@
        + dec_digits(coinex_type_code(req.order_type) as nat) + "}"@
}

/// What the tag covers: method, path, body, millisecond timestamp.
pub open spec fn coinex_sign_payload(method: Seq<char>, path: Seq<char>, body: Seq<char>, ts:
    u64) -> Seq<char> {
    method + path + body + dec_digits(ts as nat)
}

fn coinex_sign(credentials: &Credentials, method: &str, path: &str, body: &str, timestamp_ms:
    u64) -> (r: String)
    ensures
        r@ == sign_hex_sha256_spec(
            credentials.api_secret@,
            coinex_sign_payload(method@, path@, body@, timestamp_ms),
        ),
{
    let mut msg = String::new();
    msg.append(method);
    msg.append(path);
    msg.append(body);
    push_u64(&mut msg, timestamp_ms);
    proof {
        assert(msg@ =~= coinex_sign_payload(method@, path@, body@, timestamp_ms));
    }
    sign_hex_sha256(credentials.api_secret.as_str(), msg.as_str())
}

fn coinex_headers(credentials: &Credentials, signature: String, timestamp_ms: u64,
    with_content_type: bool) -> (r: Vec<(String, String)>)
    ensures
        r@.len() == (if with_content_type {
            4int
        } else {
            3int
        }),
        r@[0].0@ == "X-COINEX-KEY"@ && r@[0].1@ == credentials.api_key@,
        r@[1].0@ == "X-COINEX-SIGN"@ && r@[1].1 == signature,
        r@[2].0@ == "X-COINEX-TIMESTAMP"@ && r@[2].1@ == dec_digits(timestamp_ms as nat),
        with_content_type ==> r@[3].0@ == "Content-Type"@ && r@[3].1@ == "application/json"@,
{
    let mut headers: Vec<(String, String)> = Vec::new();
    headers.push(header("X-COINEX-KEY", credentials.api_key.clone()));
    headers.push(header("X-COINEX-SIGN", signature));
    headers.push(header("X-COINEX-TIMESTAMP", u64_to_string(timestamp_ms)));
    if with_content_type {
        headers.push(header("Content-Type", String::from_str("application/json")));
    }
    headers
}

/// Build and sign a place-order call.
pub fn coinex_place_order(
    config: &ExchangeConfig,
    credentials: &Credentials,
    request: &OrderRequest,
    timestamp_ms: u64,
) -> (r: WireRequest)
    requires
        request.wf(),
    ensures
        r.method == HttpMethod::Post,
        r.body@ == coinex_place_body(*request),
        r.url@ == config.rest_url@ + "/v2/futures/order"@,
        r.headers@.len() == 4,
        r.headers@[0].0@ == "X-COINEX-KEY"@ && r.headers@[0].1@ == credentials.api_key@,
        r.headers@[1].0@ == "X-COINEX-SIGN"@ && r.headers@[1].1@ == sign_hex_sha256_spec(
            credentials.api_secret@,
            coinex_sign_payload(
                "POST"@,
                "/v2/futures/order"@,
                coinex_place_body(*request),
                timestamp_ms,
            ),
        ),
        r.headers@[2].0@ == "X-COINEX-TIMESTAMP"@,
        r.headers@[3].0@ == "Content-Type"@,
{
    let mut body = String::new();
    body.append("{\"amount\":");
    let qs = request.quantity.to_string();
    push_json_str(&mut body, qs.as_str());
    body.append(",\"client_id\":");
    push_json_str(&mut body, request.client_order_id.as_str());
    body.append(",\"market\":");
    push_json_str(&mut body, request.symbol.as_str());
    body.append(",\"price\":");
    if let Some(price) = request.price {
        let ps = price.to_string();
        push_json_str(&mut body, ps.as_str());
    } else {
        body.append("null");
    }
    body.append(",\"side\":");
    match request.side {
        Side::Buy => push_u64(&mut body, 1),
        Side::Sell => push_u64(&mut body, 2),
    }
    body.append(",\"type\":");
    match request.order_type {
        OrderType::Limit => push_u64(&mut body, 1),
        OrderType::Market => push_u64(&mut body, 2),
    }
    body.append("}");
    proof {
        assert(body@ =~= coinex_place_body(*request));
    }
    let signature = coinex_sign(credentials, "POST", "/v2/futures/order", body.as_str(),
        timestamp_ms);
    let mut url = String::new();
    url.append(config.rest_url.as_str());
    url.append("/v2/futures/order");
    let headers = coinex_headers(credentials, signature, timestamp_ms, true);
    WireRequest { method: HttpMethod::Post, url, headers, body }
}

/// The cancel JSON body: the market, and the order number its identifier
/// string denotes, or zero where it does not denote one.
pub open spec fn coinex_cancel_body(symbol: Seq<char>, order_id: Seq<char>) -> Seq<char> {
    "{\"market\":"@ + json_str(symbol) + ",\"order_id\":"@ + dec_digits(
        spec_timestamp_ms(order_id) as nat,
    ) + "}"@
}

/// Build and sign a cancel-order call.
pub fn coinex_cancel_order(
    config: &ExchangeConfig,
    credentials: &Credentials,
    symbol: &str,
    order_id: &str,
    timestamp_ms: u64,
) -> (r: WireRequest)
    ensures
        r.method == HttpMethod::Delete,
        r.body@ == coinex_cancel_body(symbol@, order_id@),
        r.url@ == config.rest_url@ + "/v2/futures/order"@,
        r.headers@.len() == 4,
        r.headers@[1].0@ == "X-COINEX-SIGN"@ && r.headers@[1].1@ == sign_hex_sha256_spec(
            credentials.api_secret@,
            coinex_sign_payload(
                "DELETE"@,
                "/v2/futures/order"@,
                coinex_cancel_body(symbol@, order_id@),
                timestamp_ms,
            ),
        ),
{
    let mut body = String::new();
    body.append("{\"market\":");
    push_json_str(&mut body, symbol);
    body.append(",\"order_id\":");
    let oid = crate::exchange::parse_timestamp_ms(order_id);
    push_u64(&mut body, oid as u64);
    body.append("}");
    proof {
        assert(body@ =~= coinex_cancel_body(symbol@, order_id@));
    }
    let signature = coinex_sign(credentials, "DELETE", "/v2/futures/order", body.as_str(),
        timestamp_ms);
    let mut url = String::new();
    url.append(config.rest_url.as_str());
    url.append("/v2/futures/order");
    let headers = coinex_headers(credentials, signature, timestamp_ms, true);
    WireRequest { method: HttpMethod::Delete, url, headers, body }
}

/// The queried path of an order lookup, which the tag covers whole.
pub open spec fn coinex_get_path(symbol: Seq<char>, order_id: Seq<char>) -> Seq<char> {
    "/v2/futures/order?market="@ + symbol + "&order_id="@ + order_id
}

/// Build and sign an order lookup.
pub fn coinex_get_order(
    config: &ExchangeConfig,
    credentials: &Credentials,
    symbol: &str,
    order_id: &str,
    timestamp_ms: u64,
) -> (r: WireRequest)
    ensures
        r.method == HttpMethod::Get,
        r.body@.len() == 0,
        r.url@ == config.rest_url@ + coinex_get_path(symbol@, order_id@),
        r.headers@.len() == 3,
        r.headers@[1].0@ == "X-COINEX-SIGN"@ && r.headers@[1].1@ == sign_hex_sha256_spec(
            credentials.api_secret@,
            coinex_sign_payload(
                "GET"@,
                coinex_get_path(symbol@, order_id@),
                Seq::empty(),
                timestamp_ms,
            ),
        ),
{
    let mut path = String::new();
    path.append("/v2/futures/order?market=");
    path.append(symbol);
    path.append("&order_id=");
    path.append(order_id);
    proof {
        assert(path@ =~= coinex_get_path(symbol@, order_id@));
        reveal_strlit("");
        assert(""@ =~= Seq::<char>::empty());
    }
    let signature = coinex_sign(credentials, "GET", path.as_str(), "", timestamp_ms);
    let mut url = String::new();
    url.append(config.rest_url.as_str());
    url.append(path.as_str());
    proof {
        assert(url@ =~= config.rest_url@ + coinex_get_path(symbol@, order_id@));
    }
    let headers = coinex_headers(credentials, signature, timestamp_ms, false);
    WireRequest { method: HttpMethod::Get, url, headers, body: String::new() }
}

/// Build the ticker lookup.
pub fn coinex_best_price_request(config: &ExchangeConfig, symbol: &str) -> (r: WireRequest)
    ensures
        r.method == HttpMethod::Get,
        r.body@.len() == 0,
        r.headers@.len() == 0,
        r.url@ == config.rest_url@ + "/v2/futures/ticker?market="@ + symbol@,
{
    let mut url = String::new();
    url.append(config.rest_url.as_str());
    url.append("/v2/futures/ticker?market=");
    url.append(symbol);
    WireRequest { method: HttpMethod::Get, url, headers: Vec::new(), body: String::new() }
}

/// An order as CoinEx reports it.
#[derive(Clone, Debug)]
pub struct CoinexOrderRaw {
    pub order_id: i64,
    pub market: String,
    pub side: i32,
    pub order_type: i32,
    pub amount: String,
    pub price: String,
    pub deal_amount: Option<String>,
    pub avg_price: Option<String>,
    pub status: String,
    pub created_at: i64,
    pub client_id: Option<String>,
}

/// CoinEx's status vocabulary, translated. A word outside it reads as
/// `Pending`, never as a terminal status.
pub open spec fn spec_coinex_status(s: Seq<char>) -> OrderStatus {
    if s == "open"@ || s == "not_deal"@ {
        OrderStatus::Open
    } else if s == "part_deal"@ {
        OrderStatus::Partial
    } else if s == "done"@ || s == "filled"@ {
        OrderStatus::Filled
    } else if s == "cancel"@ || s == "canceled"@ {
        OrderStatus::Cancelled
    } else {
        OrderStatus::Pending
    }
}

pub fn parse_coinex_status(status: &str) -> (r: OrderStatus)
    ensures
        r == spec_coinex_status(status@),
{
    if str_eq(status, "open") || str_eq(status, "not_deal") {
        OrderStatus::Open
    } else if str_eq(status, "part_deal") {
        OrderStatus::Partial
    } else if str_eq(status, "done") || str_eq(status, "filled") {
        OrderStatus::Filled
    } else if str_eq(status, "cancel") || str_eq(status, "canceled") {
        OrderStatus::Cancelled
    } else {
        OrderStatus::Pending
    }
}

/// Decode an order from a venue answer whose code was zero. A report
/// with a fill beyond the quantity, or a fill on an order still pending,
/// open or rejected, is refused as malformed.
pub fn decode_coinex_order(
    http_status: u16,
    code: i64,
    order: Option<CoinexOrderRaw>,
    parse_type: bool,
    force_cancelled: bool,
) -> (r: Result<OrderResponse, AdapterError>)
    ensures
        !(200 <= http_status < 300) ==> (r matches Err(e) && e.kind == AdapterErrorKind::Http),
        (200 <= http_status < 300 && code != 0) ==> (r matches Err(e) && e.kind
            == AdapterErrorKind::Venue),
        (200 <= http_status < 300 && code == 0 && order is None) ==> (r matches Err(e) && e.kind
            == AdapterErrorKind::Parse),
        (200 <= http_status < 300 && code == 0 && (order matches Some(o) && o.order_id >= 0
            && spec_parse_opt_or_zero(o.deal_amount).raw
            <= crate::exchange::spec_parse_fixed_or_zero(o.amount@).raw && ((!force_cancelled
            && spec_coinex_status(o.status@).spec_no_fill()) ==> spec_parse_opt_or_zero(
            o.deal_amount,
        ).raw == 0) && ((!force_cancelled && spec_coinex_status(o.status@)
            == OrderStatus::Filled) ==> 100 * spec_parse_opt_or_zero(o.deal_amount).raw >= 99
            * crate::exchange::spec_parse_fixed_or_zero(o.amount@).raw))) ==> r is Ok,
        r matches Ok(resp) ==> ({
            &&& 200 <= http_status < 300
            &&& code == 0
            &&& order matches Some(o)
            &&& o.order_id >= 0
            &&& resp.wf()
            &&& resp.exchange_order_id@ == dec_digits(o.order_id as nat)
            &&& resp.client_order_id@ == (match o.client_id {
                Some(c) => c@,
                None => Seq::<char>::empty(),
            })
            &&& resp.symbol == o.market
            &&& resp.side == (if o.side == 1 {
                Side::Buy
            } else {
                Side::Sell
            })
            &&& resp.order_type == (if parse_type {
                if o.order_type == 1 {
                    OrderType::Limit
                } else {
                    OrderType::Market
                }
            } else {
                OrderType::Limit
            })
            &&& resp.price == spec_parse_fixed(o.price@)
            &&& resp.quantity == crate::exchange::spec_parse_fixed_or_zero(o.amount@)
            &&& resp.filled_quantity == spec_parse_opt_or_zero(o.deal_amount)
            &&& resp.avg_fill_price == spec_parse_opt(o.avg_price)
            &&& resp.status == (if force_cancelled {
                OrderStatus::Cancelled
            } else {
                spec_coinex_status(o.status@)
            })
            &&& resp.timestamp == o.created_at
            &&& resp.status_fill_consistent()
        }),
{
    if !(200 <= http_status && http_status < 300) {
        return Err(AdapterError::http(http_status));
    }
    if code != 0 {
        return Err(AdapterError::venue(String::new()));
    }
    let o = match order {
        Some(o) => o,
        None => {
            return Err(AdapterError::parse());
        },
    };
    if o.order_id < 0 {
        return Err(AdapterError::parse());
    }
    let quantity = crate::exchange::parse_fixed_or_zero(o.amount.as_str());
    let filled = match &o.deal_amount {
        Some(s) => crate::exchange::parse_fixed_or_zero(s.as_str()),
        None => Fixed { raw: 0 },
    };
    if filled.raw > quantity.raw {
        return Err(AdapterError::parse());
    }
    let side = if o.side == 1 {
        Side::Buy
    } else {
        Side::Sell
    };
    let order_type = if parse_type {
        if o.order_type == 1 {
            OrderType::Limit
        } else {
            OrderType::Market
        }
    } else {
        OrderType::Limit
    };
    let status = if force_cancelled {
        OrderStatus::Cancelled
    } else {
        parse_coinex_status(o.status.as_str())
    };
    if !crate::types::fill_matches_status(status, filled, quantity) {
        return Err(AdapterError::parse());
    }
    let avg = match o.avg_price {
        Some(p) => crate::exchange::parse_fixed(p.as_str()),
        None => None,
    };
    let client_order_id = match o.client_id {
        Some(c) => c,
        None => String::new(),
    };
    Ok(
        OrderResponse {
            exchange_order_id: crate::fixed::u64_to_string(o.order_id as u64),
            client_order_id,
            symbol: o.market,
            side,
            order_type,
            price: crate::exchange::parse_fixed(o.price.as_str()),
            quantity,
            filled_quantity: filled,
            avg_fill_price: avg,
            status,
            timestamp: o.created_at,
        },
    )
}

/// Decode a ticker: both sides of the touch must parse.
pub fn decode_coinex_ticker(http_status: u16, code: i64, best_bid: &str, best_ask: &str) -> (r:
    Result<(Fixed, Fixed), AdapterError>)
    ensures
        !(200 <= http_status < 300) ==> (r matches Err(e) && e.kind == AdapterErrorKind::Http),
        (200 <= http_status < 300 && code != 0) ==> (r matches Err(e) && e.kind
            == AdapterErrorKind::Venue),
        r matches Ok(p) ==> ({
            &&& 200 <= http_status < 300
            &&& code == 0
            &&& spec_parse_fixed(best_bid@) == Some(p.0)
            &&& spec_parse_fixed(best_ask@) == Some(p.1)
            &&& p.0.wf()
            &&& p.1.wf()
        }),
        (200 <= http_status < 300 && code == 0) ==> (r is Err <==> (spec_parse_fixed(best_bid@)
            is None || spec_parse_fixed(best_ask@) is None)),
{
    if !(200 <= http_status && http_status < 300) {
        return Err(AdapterError::http(http_status));
    }
    if code != 0 {
        return Err(AdapterError::venue(String::new()));
    }
    let bid = match crate::exchange::parse_fixed(best_bid) {
        Some(v) => v,
        None => {
            return Err(AdapterError::parse());
        },
    };
    let ask = match crate::exchange::parse_fixed(best_ask) {
        Some(v) => v,
        None => {
            return Err(AdapterError::parse());
        },
    };
    Ok((bid, ask))
}

} // verus!
