//! BingX futures adapter: query parameters sorted by key, HMAC-SHA256 in
//! lowercase hex appended as `signature`, key in `X-BX-APIKEY`.

use vstd::prelude::*;
use vstd::string::StringExecFns;

use crate::exchange::{
    header, push_fixed, push_u64, sign_hex_sha256, sign_hex_sha256_spec, spec_parse_fixed,
    spec_parse_fixed_or_zero, spec_parse_opt, spec_side_upper, spec_type_upper, str_eq, HttpMethod, WireRequest,
    order_type_upper, side_upper,
};
use crate::fixed::{dec_digits, spec_fixed_str, Fixed};
use crate::types::{
    AdapterError, AdapterErrorKind, Credentials, ExchangeConfig, OrderRequest, OrderResponse,
    OrderStatus, OrderType, Side,
};

verus! {

/// The place-order query with its keys in ascending order, as they are
/// signed.
pub open spec fn bingx_place_query(req: OrderRequest, ts: u64) -> Seq<char> {
    let head = "clientOrderId="@ + req.client_order_id@;
    let with_price = if req.price is Some {
        head + "&price="@ + spec_fixed_str(req.price->Some_0.raw as nat)
    } else {
        head
    };
    with_price + "&quantity="@ + spec_fixed_str(req.quantity.raw as nat) + "&side="@
        + spec_side_upper(req.side) + "&symbol="@ + req.symbol@ + "&timestamp="@ + dec_digits(
        ts as nat,
    ) + "&type="@ + spec_type_upper(req.order_type)
}

/// Build and sign a place-order call.
pub fn bingx_place_order(
    config: &ExchangeConfig,
    credentials: &Credentials,
    request: &OrderRequest,
    timestamp_ms: u64,
) -> (r: WireRequest)
    requires
        request.wf(),
    ensures
        r.method == HttpMethod::Post,
        r.body@.len() == 0,
        r.url@ == config.rest_url@ + "/openApi/swap/v2/trade/order?"@ + bingx_place_query(
            *request,
            timestamp_ms,
        ) + "&signature="@ + sign_hex_sha256_spec(
            credentials.api_secret@,
            bingx_place_query(*request, timestamp_ms),
        ),
        r.headers@.len() == 1,
        r.headers@[0].0@ == "X-BX-APIKEY"@,
        r.headers@[0].1@ == credentials.api_key@,
{
    let mut q = String::new();
    q.append("clientOrderId=");
    q.append(request.client_order_id.as_str());
    if let Some(price) = request.price {
        q.append("&price=");
        push_fixed(&mut q, price);
    }
    q.append("&quantity=");
    push_fixed(&mut q, request.quantity);
    q.append("&side=");
    q.append(side_upper(request.side));
    q.append("&symbol=");
    q.append(request.symbol.as_str());
    q.append("&timestamp=");
    push_u64(&mut q, timestamp_ms);
    q.append("&type=");
    q.append(order_type_upper(request.order_type));
    proof {
        assert(q@ =~= bingx_place_query(*request, timestamp_ms));
    }
    let signature = sign_hex_sha256(credentials.api_secret.as_str(), q.as_str());
    let mut url = String::new();
    url.append(config.rest_url.as_str());
    url.append("/openApi/swap/v2/trade/order?");
    url.append(q.as_str());
    url.append("&signature=");
    url.append(signature.as_str());
    let mut headers: Vec<(String, String)> = Vec::new();
    headers.push(header("X-BX-APIKEY", credentials.api_key.clone()));
    WireRequest { method: HttpMethod::Post, url, headers, body: String::new() }
}

/// The signed query of a cancel or order lookup.
pub open spec fn bingx_order_query(symbol: Seq<char>, order_id: Seq<char>, ts: u64) -> Seq<char> {
    "orderId="@ + order_id + "&symbol="@ + symbol + "&timestamp="@ + dec_digits(ts as nat)
}

fn bingx_signed_order_url(
    config: &ExchangeConfig,
    credentials: &Credentials,
    symbol: &str,
    order_id: &str,
    timestamp_ms: u64,
) -> (r: String)
    ensures
        r@ == config.rest_url@ + "/openApi/swap/v2/trade/order?"@ + bingx_order_query(
            symbol@,
            order_id@,
            timestamp_ms,
        ) + "&signature="@ + sign_hex_sha256_spec(
            credentials.api_secret@,
            bingx_order_query(symbol@, order_id@, timestamp_ms),
        ),
{
    let mut q = String::new();
    q.append("orderId=");
    q.append(order_id);
    q.append("&symbol=");
    q.append(symbol);
    q.append("&timestamp=");
    push_u64(&mut q, timestamp_ms);
    proof {
        assert(q@ =~= bingx_order_query(symbol@, order_id@, timestamp_ms));
    }
    let signature = sign_hex_sha256(credentials.api_secret.as_str(), q.as_str());
    let mut url = String::new();
    url.append(config.rest_url.as_str());
    url.append("/openApi/swap/v2/trade/order?");
    url.append(q.as_str());
    url.append("&signature=");
    url.append(signature.as_str());
    url
}

/// Build and sign a cancel-order call.
pub fn bingx_cancel_order(
    config: &ExchangeConfig,
    credentials: &Credentials,
    symbol: &str,
    order_id: &str,
    timestamp_ms: u64,
) -> (r: WireRequest)
    ensures
        r.method == HttpMethod::Delete,
        r.body@.len() == 0,
        r.url@ == config.rest_url@ + "/openApi/swap/v2/trade/order?"@ + bingx_order_query(
            symbol@,
            order_id@,
            timestamp_ms,
        ) + "&signature="@ + sign_hex_sha256_spec(
            credentials.api_secret@,
            bingx_order_query(symbol@, order_id@, timestamp_ms),
        ),
        r.headers@.len() == 1,
        r.headers@[0].0@ == "X-BX-APIKEY"@,
        r.headers@[0].1@ == credentials.api_key@,
{
    let url = bingx_signed_order_url(config, credentials, symbol, order_id, timestamp_ms);
    let mut headers: Vec<(String, String)> = Vec::new();
    headers.push(header("X-BX-APIKEY", credentials.api_key.clone()));
    WireRequest { method: HttpMethod::Delete, url, headers, body: String::new() }
}

/// Build and sign an order lookup.
pub fn bingx_get_order(
    config: &ExchangeConfig,
    credentials: &Credentials,
    symbol: &str,
    order_id: &str,
    timestamp_ms: u64,
) -> (r: WireRequest)
    ensures
        r.method == HttpMethod::Get,
        r.body@.len() == 0,
        r.url@ == config.rest_url@ + "/openApi/swap/v2/trade/order?"@ + bingx_order_query(
            symbol@,
            order_id@,
            timestamp_ms,
        ) + "&signature="@ + sign_hex_sha256_spec(
            credentials.api_secret@,
            bingx_order_query(symbol@, order_id@, timestamp_ms),
        ),
        r.headers@.len() == 1,
        r.headers@[0].0@ == "X-BX-APIKEY"@,
        r.headers@[0].1@ == credentials.api_key@,
{
    let url = bingx_signed_order_url(config, credentials, symbol, order_id, timestamp_ms);
    let mut headers: Vec<(String, String)> = Vec::new();
    headers.push(header("X-BX-APIKEY", credentials.api_key.clone()));
    WireRequest { method: HttpMethod::Get, url, headers, body: String::new() }
}

/// Build the ticker lookup for the touch.
pub fn bingx_best_price_request(config: &ExchangeConfig, symbol: &str) -> (r: WireRequest)
    ensures
        r.method == HttpMethod::Get,
        r.body@.len() == 0,
        r.headers@.len() == 0,
        r.url@ == config.rest_url@ + "/openApi/swap/v2/quote/ticker?symbol="@ + symbol@,
{
    let mut url = String::new();
    url.append(config.rest_url.as_str());
    url.append("/openApi/swap/v2/quote/ticker?symbol=");
    url.append(symbol);
    WireRequest { method: HttpMethod::Get, url, headers: Vec::new(), body: String::new() }
}

/// An order as BingX reports it.
#[derive(Clone, Debug)]
pub struct BingxOrderRaw {
    pub order_id: String,
    pub symbol: String,
    pub client_order_id: Option<String>,
    pub side: String,
    pub order_type: String,
    pub price: Option<String>,
    pub orig_qty: String,
    pub executed_qty: String,
    pub avg_price: Option<String>,
    pub status: String,
    pub time: i64,
}

/// BingX's status vocabulary, translated. A word outside it reads as
/// `Pending`, never as a terminal status.
pub open spec fn spec_bingx_status(s: Seq<char>) -> OrderStatus {
    if s == "NEW"@ || s == "PENDING"@ {
        OrderStatus::Open
    } else if s == "PARTIALLY_FILLED"@ {
        OrderStatus::Partial
    } else if s == "FILLED"@ {
        OrderStatus::Filled
    } else if s == "CANCELED"@ || s == "CANCELLED"@ {
        OrderStatus::Cancelled
    } else {
        OrderStatus::Pending
    }
}

pub fn parse_bingx_status(status: &str) -> (r: OrderStatus)
    ensures
        r == spec_bingx_status(status@),
{
    if str_eq(status, "NEW") || str_eq(status, "PENDING") {
        OrderStatus::Open
    } else if str_eq(status, "PARTIALLY_FILLED") {
        OrderStatus::Partial
    } else if str_eq(status, "FILLED") {
        OrderStatus::Filled
    } else if str_eq(status, "CANCELED") || str_eq(status, "CANCELLED") {
        OrderStatus::Cancelled
    } else {
        OrderStatus::Pending
    }
}

/// Decode an order from a successful venue answer. The venue code must be
/// zero; the order type is read from the response only on a placement or
/// lookup. A report with a fill beyond the quantity, or a fill on an
/// order still pending, open or rejected, is refused as malformed.
pub fn decode_bingx_order(http_status: u16, code: i64, order: Option<BingxOrderRaw>, parse_type:
    bool) -> (r: Result<OrderResponse, AdapterError>)
    ensures
        !(200 <= http_status < 300) ==> (r matches Err(e) && e.kind == AdapterErrorKind::Http),
        (200 <= http_status < 300 && code != 0) ==> (r matches Err(e) && e.kind
            == AdapterErrorKind::Venue),
        (200 <= http_status < 300 && code == 0 && order is None) ==> (r matches Err(e) && e.kind
            == AdapterErrorKind::Parse),
        (200 <= http_status < 300 && code == 0 && (order matches Some(o)
            && spec_parse_fixed_or_zero(o.executed_qty@).raw <= spec_parse_fixed_or_zero(
            o.orig_qty@,
        ).raw && (spec_bingx_status(o.status@).spec_no_fill() ==> spec_parse_fixed_or_zero(
            o.executed_qty@,
        ).raw == 0) && (spec_bingx_status(o.status@) == OrderStatus::Filled ==> 100
            * spec_parse_fixed_or_zero(o.executed_qty@).raw >= 99 * spec_parse_fixed_or_zero(
            o.orig_qty@,
        ).raw))) ==> r is Ok,
        r matches Ok(resp) ==> ({
            &&& 200 <= http_status < 300
            &&& code == 0
            &&& order matches Some(o)
            &&& resp.wf()
            &&& resp.exchange_order_id == o.order_id
            &&& resp.client_order_id@ == (match o.client_order_id {
                Some(c) => c@,
                None => Seq::<char>::empty(),
            })
            &&& resp.symbol == o.symbol
            &&& resp.side == (if o.side@ == "BUY"@ {
                Side::Buy
            } else {
                Side::Sell
            })
            &&& resp.order_type == (if parse_type {
                if o.order_type@ == "LIMIT"@ {
                    OrderType::Limit
                } else {
                    OrderType::Market
                }
            } else {
                OrderType::Limit
            })
            &&& resp.price == spec_parse_opt(o.price)
            &&& resp.quantity == spec_parse_fixed_or_zero(o.orig_qty@)
            &&& resp.filled_quantity == spec_parse_fixed_or_zero(o.executed_qty@)
            &&& resp.avg_fill_price == spec_parse_opt(o.avg_price)
            &&& resp.status == spec_bingx_status(o.status@)
            &&& resp.timestamp == o.time
            &&& resp.status_fill_consistent()
        }),
{
    if !(200 <= http_status && http_status < 300) {
        return Err(AdapterError::http(http_status));
    }
    if code != 0 {
        return Err(AdapterError::venue(String::new()));
    }
    let o = match order {
        Some(o) => o,
        None => {
            return Err(AdapterError::parse());
        },
    };
    let quantity = crate::exchange::parse_fixed_or_zero(o.orig_qty.as_str());
    let filled = crate::exchange::parse_fixed_or_zero(o.executed_qty.as_str());
    if filled.raw > quantity.raw {
        return Err(AdapterError::parse());
    }
    let side = if str_eq(o.side.as_str(), "BUY") {
        Side::Buy
    } else {
        Side::Sell
    };
    let order_type = if parse_type {
        if str_eq(o.order_type.as_str(), "LIMIT") {
            OrderType::Limit
        } else {
            OrderType::Market
        }
    } else {
        OrderType::Limit
    };
    let price = match o.price {
        Some(p) => crate::exchange::parse_fixed(p.as_str()),
        None => None,
    };
    let avg = match o.avg_price {
        Some(p) => crate::exchange::parse_fixed(p.as_str()),
        None => None,
    };
    let client_order_id = match o.client_order_id {
        Some(c) => c,
        None => String::new(),
    };
    let status = parse_bingx_status(o.status.as_str());
    if !crate::types::fill_matches_status(status, filled, quantity) {
        return Err(AdapterError::parse());
    }
    Ok(
        OrderResponse {
            exchange_order_id: o.order_id,
            client_order_id,
            symbol: o.symbol,
            side,
            order_type,
            price,
            quantity,
            filled_quantity: filled,
            avg_fill_price: avg,
            status,
            timestamp: o.time,
        },
    )
}

/// Decode a ticker: both sides of the touch must parse.
pub fn decode_bingx_ticker(http_status: u16, code: i64, bid_price: &str, ask_price: &str) -> (r:
    Result<(Fixed, Fixed), AdapterError>)
    ensures
        !(200 <= http_status < 300) ==> (r matches Err(e) && e.kind == AdapterErrorKind::Http),
        (200 <= http_status < 300 && code != 0) ==> (r matches Err(e) && e.kind
            == AdapterErrorKind::Venue),
        r matches Ok(p) ==> ({
            &&& 200 <= http_status < 300
            &&& code == 0
            &&& spec_parse_fixed(bid_price@) == Some(p.0)
            &&& spec_parse_fixed(ask_price@) == Some(p.1)
            &&& p.0.wf()
            &&& p.1.wf()
        }),
        (200 <= http_status < 300 && code == 0) ==> (r is Err <==> (spec_parse_fixed(bid_price@)
            is None || spec_parse_fixed(ask_price@) is None)),
{
    if !(200 <= http_status && http_status < 300) {
        return Err(AdapterError::http(http_status));
    }
    if code != 0 {
        return Err(AdapterError::venue(String::new()));
    }
    let bid = match crate::exchange::parse_fixed(bid_price) {
        Some(v) => v,
        None => {
            return Err(AdapterError::parse());
        },
    };
    let ask = match crate::exchange::parse_fixed(ask_price) {
        Some(v) => v,
        None => {
            return Err(AdapterError::parse());
        },
    };
    Ok((bid, ask))
}

} // verus!
