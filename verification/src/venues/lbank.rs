//! LBank futures adapter: form-encoded parameters sorted by key with the
//! API key among them, HMAC-SHA256 in lowercase hex appended as `sign`.

use vstd::prelude::*;
use vstd::string::StringExecFns;

use crate::exchange::{spec_parse_opt, spec_parse_opt_or_zero, 
    header, push_fixed, push_u64, sign_hex_sha256, sign_hex_sha256_spec, spec_parse_fixed,
    spec_side_lower, str_eq, HttpMethod, WireRequest, side_lower,
};
use crate::fixed::{dec_digits, spec_fixed_str, Fixed};
use crate::types::{
    AdapterError, AdapterErrorKind, Credentials, ExchangeConfig, OrderRequest, OrderResponse,
    OrderStatus, OrderType, Side,
};

verus! {

/// The numeric word for an order type: one for limit, two for market.
pub open spec fn lbank_type_code(t: OrderType) -> int {
    match t {
        OrderType::Limit => 1,
        OrderType::Market => 2,
    }
}

/// The place-order parameter string, keys in ascending order, the API key
/// among them.
pub open spec fn lbank_place_params(req: OrderRequest, api_key: Seq<char>, ts: u64) -> Seq<
    char,
> {
    let head = "api_key="@ + api_key + "&client_order_id="@ + req.client_order_id@
        + "&direction="@ + spec_side_lower(req.side) + "&offset=open"@;
    let with_price = if req.price is Some {
        head + "&price="@ + spec_fixed_str(req.price->Some_0.raw as nat)
    } else {
        head
    };
    with_price + "&symbol="@ + req.symbol@ + "&timestamp="@ + dec_digits(ts as nat) + "&type="@
        + dec_digits(lbank_type_code(req.order_type) as nat) + "&volume="@ + spec_fixed_str(
        req.quantity.raw as nat,
    )
}

/// Build and sign a place-order call: the parameters and the tag travel as
/// a form body.
pub fn lbank_place_order(
    config: &ExchangeConfig,
    credentials: &Credentials,
    request: &OrderRequest,
    timestamp_ms: u64,
) -> (r: WireRequest)
    requires
        request.wf(),
    ensures
        r.method == HttpMethod::Post,
        r.url@ == config.rest_url@ + "/cfd/openApi/v1/order/create"@,
        r.body@ == lbank_place_params(*request, credentials.api_key@, timestamp_ms) + "&sign="@
            + sign_hex_sha256_spec(
            credentials.api_secret@,
            lbank_place_params(*request, credentials.api_key@, timestamp_ms),
        ),
        r.headers@.len() == 1,
        r.headers@[0].0@ == "Content-Type"@,
        r.headers@[0].1@ == "application/x-www-form-urlencoded"@,
{
    let mut q = String::new();
    q.append("api_key=");
    q.append(credentials.api_key.as_str());
    q.append("&client_order_id=");
    q.append(request.client_order_id.as_str());
    q.append("&direction=");
    q.append(side_lower(request.side));
    q.append("&offset=open");
    if let Some(price) = request.price {
        q.append("&price=");
        push_fixed(&mut q, price);
    }
    q.append("&symbol=");
    q.append(request.symbol.as_str());
    q.append("&timestamp=");
    push_u64(&mut q, timestamp_ms);
    q.append("&type=");
    match request.order_type {
        OrderType::Limit => push_u64(&mut q, 1),
        OrderType::Market => push_u64(&mut q, 2),
    }
    q.append("&volume=");
    push_fixed(&mut q, request.quantity);
    proof {
        assert(q@ =~= lbank_place_params(*request, credentials.api_key@, timestamp_ms));
    }
    let signature = sign_hex_sha256(credentials.api_secret.as_str(), q.as_str());
    let mut body = q;
    body.append("&sign=");
    body.append(signature.as_str());
    let mut url = String::new();
    url.append(config.rest_url.as_str());
    url.append("/cfd/openApi/v1/order/create");
    let mut headers: Vec<(String, String)> = Vec::new();
    headers.push(header("Content-Type", String::from_str("application/x-www-form-urlencoded")));
    WireRequest { method: HttpMethod::Post, url, headers, body }
}

/// The parameter string of a cancel or lookup, keys in ascending order.
pub open spec fn lbank_order_params(
    api_key: Seq<char>,
    symbol: Seq<char>,
    order_id: Seq<char>,
    ts: u64,
) -> Seq<char> {
    "api_key="@ + api_key + "&order_id="@ + order_id + "&symbol="@ + symbol + "&timestamp="@
        + dec_digits(ts as nat)
}

fn lbank_order_params_str(
    credentials: &Credentials,
    symbol: &str,
    order_id: &str,
    timestamp_ms: u64,
) -> (r: String)
    ensures
        r@ == lbank_order_params(credentials.api_key@, symbol@, order_id@, timestamp_ms),
{
    let mut q = String::new();
    q.append("api_key=");
    q.append(credentials.api_key.as_str());
    q.append("&order_id=");
    q.append(order_id);
    q.append("&symbol=");
    q.append(symbol);
    q.append("&timestamp=");
    push_u64(&mut q, timestamp_ms);
    proof {
        assert(q@ =~= lbank_order_params(credentials.api_key@, symbol@, order_id@, timestamp_ms));
    }
    q
}

/// Build and sign a cancel-order call.
pub fn lbank_cancel_order(
    config: &ExchangeConfig,
    credentials: &Credentials,
    symbol: &str,
    order_id: &str,
    timestamp_ms: u64,
) -> (r: WireRequest)
    ensures
        r.method == HttpMethod::Post,
        r.url@ == config.rest_url@ + "/cfd/openApi/v1/order/cancel"@,
        r.body@ == lbank_order_params(credentials.api_key@, symbol@, order_id@, timestamp_ms)
            + "&sign="@ + sign_hex_sha256_spec(
            credentials.api_secret@,
            lbank_order_params(credentials.api_key@, symbol@, order_id@, timestamp_ms),
        ),
        r.headers@.len() == 1,
        r.headers@[0].0@ == "Content-Type"@,
{
    let q = lbank_order_params_str(credentials, symbol, order_id, timestamp_ms);
    let signature = sign_hex_sha256(credentials.api_secret.as_str(), q.as_str());
    let mut body = q;
    body.append("&sign=");
    body.append(signature.as_str());
    let mut url = String::new();
    url.append(config.rest_url.as_str());
    url.append("/cfd/openApi/v1/order/cancel");
    let mut headers: Vec<(String, String)> = Vec::new();
    headers.push(header("Content-Type", String::from_str("application/x-www-form-urlencoded")));
    WireRequest { method: HttpMethod::Post, url, headers, body }
}

/// Build and sign an order lookup: the parameters and the tag travel in
/// the query.
pub fn lbank_get_order(
    config: &ExchangeConfig,
    credentials: &Credentials,
    symbol: &str,
    order_id: &str,
    timestamp_ms: u64,
) -> (r: WireRequest)
    ensures
        r.method == HttpMethod::Get,
        r.body@.len() == 0,
        r.url@ == config.rest_url@ + "/cfd/openApi/v1/order/detail?"@ + lbank_order_params(
            credentials.api_key@,
            symbol@,
            order_id@,
            timestamp_ms,
        ) + "&sign="@ + sign_hex_sha256_spec(
            credentials.api_secret@,
            lbank_order_params(credentials.api_key@, symbol@, order_id@, timestamp_ms),
        ),
        r.headers@.len() == 0,
{
    let q = lbank_order_params_str(credentials, symbol, order_id, timestamp_ms);
    let signature = sign_hex_sha256(credentials.api_secret.as_str(), q.as_str());
    let mut url = String::new();
    url.append(config.rest_url.as_str());
    url.append("/cfd/openApi/v1/order/detail?");
    url.append(q.as_str());
    url.append("&sign=");
    url.append(signature.as_str());
    WireRequest { method: HttpMethod::Get, url, headers: Vec::new(), body: String::new() }
}

/// Build the one-level depth lookup for the touch.
pub fn lbank_best_price_request(config: &ExchangeConfig, symbol: &str) -> (r: WireRequest)
    ensures
        r.method == HttpMethod::Get,
        r.body@.len() == 0,
        r.headers@.len() == 0,
        r.url@ == config.rest_url@ + "/cfd/openApi/v1/pub/depth?symbol="@ + symbol@ + "&size=1"@,
{
    let mut url = String::new();
    url.append(config.rest_url.as_str());
    url.append("/cfd/openApi/v1/pub/depth?symbol=");
    url.append(symbol);
    url.append("&size=1");
    WireRequest { method: HttpMethod::Get, url, headers: Vec::new(), body: String::new() }
}

/// An order as LBank reports it.
#[derive(Clone, Debug)]
pub struct LbankOrderRaw {
    pub order_id: String,
    pub symbol: String,
    pub direction: String,
    pub offset: String,
    pub price: String,
    pub volume: String,
    pub traded_volume: Option<String>,
    pub avg_price: Option<String>,
    pub status: i32,
    pub create_time: i64,
    pub client_order_id: Option<String>,
}

/// LBank's numeric states, translated. A code outside the vocabulary
/// reads as `Pending`, never as a terminal status.
pub open spec fn spec_lbank_status(state: int) -> OrderStatus {
    if state == 0 {
        OrderStatus::Pending
    } else if state == 1 {
        OrderStatus::Open
    } else if state == 2 {
        OrderStatus::Partial
    } else if state == 3 {
        OrderStatus::Filled
    } else if state == 4 || state == 5 {
        OrderStatus::Cancelled
    } else {
        OrderStatus::Pending
    }
}

pub fn parse_lbank_status(state: i32) -> (r: OrderStatus)
    ensures
        r == spec_lbank_status(state as int),
{
    match state {
        0 => OrderStatus::Pending,
        1 => OrderStatus::Open,
        2 => OrderStatus::Partial,
        3 => OrderStatus::Filled,
        4 | 5 => OrderStatus::Cancelled,
        _ => OrderStatus::Pending,
    }
}

/// Decode an order from a venue answer whose result flag was set. The
/// order type echoes the request on placement and reads as limit on the
/// other calls. A report with a fill beyond the quantity, or a fill on an
/// order still pending, open or rejected, is refused as malformed.
pub fn decode_lbank_order(
    http_status: u16,
    result_ok: bool,
    order: Option<LbankOrderRaw>,
    order_type: OrderType,
    force_cancelled: bool,
) -> (r: Result<OrderResponse, AdapterError>)
    ensures
        !(200 <= http_status < 300) ==> (r matches Err(e) && e.kind == AdapterErrorKind::Http),
        (200 <= http_status < 300 && !result_ok) ==> (r matches Err(e) && e.kind
            == AdapterErrorKind::Venue),
        (200 <= http_status < 300 && result_ok && order is None) ==> (r matches Err(e) && e.kind
            == AdapterErrorKind::Parse),
        (200 <= http_status < 300 && result_ok && (order matches Some(o)
            && spec_parse_opt_or_zero(o.traded_volume).raw
            <= crate::exchange::spec_parse_fixed_or_zero(o.volume@).raw && ((!force_cancelled
            && spec_lbank_status(o.status as int).spec_no_fill()) ==> spec_parse_opt_or_zero(
            o.traded_volume,
        ).raw == 0) && ((!force_cancelled && spec_lbank_status(o.status as int)
            == OrderStatus::Filled) ==> 100 * spec_parse_opt_or_zero(o.traded_volume).raw >= 99
            * crate::exchange::spec_parse_fixed_or_zero(o.volume@).raw))) ==> r is Ok,
        r matches Ok(resp) ==> ({
            &&& 200 <= http_status < 300
            &&& result_ok
            &&& order matches Some(o)
            &&& resp.wf()
            &&& resp.exchange_order_id == o.order_id
            &&& resp.client_order_id@ == (match o.client_order_id {
                Some(c) => c@,
                None => Seq::<char>::empty(),
            })
            &&& resp.symbol == o.symbol
            &&& resp.side == (if o.direction@ == "buy"@ {
                Side::Buy
            } else {
                Side::Sell
            })
            &&& resp.order_type == order_type
            &&& resp.price == spec_parse_fixed(o.price@)
            &&& resp.quantity == crate::exchange::spec_parse_fixed_or_zero(o.volume@)
            &&& resp.filled_quantity == spec_parse_opt_or_zero(o.traded_volume)
            &&& resp.avg_fill_price == spec_parse_opt(o.avg_price)
            &&& resp.status == (if force_cancelled {
                OrderStatus::Cancelled
            } else {
                spec_lbank_status(o.status as int)
            })
            &&& resp.timestamp == o.create_time
            &&& resp.status_fill_consistent()
        }),
{
    if !(200 <= http_status && http_status < 300) {
        return Err(AdapterError::http(http_status));
    }
    if !result_ok {
        return Err(AdapterError::venue(String::new()));
    }
    let o = match order {
        Some(o) => o,
        None => {
            return Err(AdapterError::parse());
        },
    };
    let quantity = crate::exchange::parse_fixed_or_zero(o.volume.as_str());
    let filled = match &o.traded_volume {
        Some(s) => crate::exchange::parse_fixed_or_zero(s.as_str()),
        None => Fixed { raw: 0 },
    };
    if filled.raw > quantity.raw {
        return Err(AdapterError::parse());
    }
    let side = if str_eq(o.direction.as_str(), "buy") {
        Side::Buy
    } else {
        Side::Sell
    };
    let status = if force_cancelled {
        OrderStatus::Cancelled
    } else {
        parse_lbank_status(o.status)
    };
    if !crate::types::fill_matches_status(status, filled, quantity) {
        return Err(AdapterError::parse());
    }
    let avg = match o.avg_price {
        Some(p) => crate::exchange::parse_fixed(p.as_str()),
        None => None,
    };
    let client_order_id = match o.client_order_id {
        Some(c) => c,
        None => String::new(),
    };
    Ok(
        OrderResponse {
            exchange_order_id: o.order_id,
            client_order_id,
            symbol: o.symbol,
            side,
            order_type,
            price: crate::exchange::parse_fixed(o.price.as_str()),
            quantity,
            filled_quantity: filled,
            avg_fill_price: avg,
            status,
            timestamp: o.create_time,
        },
    )
}

/// Decode the top of the depth: both sides of the touch must parse.
pub fn decode_lbank_depth(http_status: u16, result_ok: bool, best_bid: &str, best_ask: &str)
    -> (r: Result<(Fixed, Fixed), AdapterError>)
    ensures
        !(200 <= http_status < 300) ==> (r matches Err(e) && e.kind == AdapterErrorKind::Http),
        (200 <= http_status < 300 && !result_ok) ==> (r matches Err(e) && e.kind
            == AdapterErrorKind::Venue),
        r matches Ok(p) ==> ({
            &&& 200 <= http_status < 300
            &&& result_ok
            &&& spec_parse_fixed(best_bid@) == Some(p.0)
            &&& spec_parse_fixed(best_ask@) == Some(p.1)
            &&& p.0.wf()
            &&& p.1.wf()
        }),
        (200 <= http_status < 300 && result_ok) ==> (r is Err <==> (spec_parse_fixed(best_bid@)
            is None || spec_parse_fixed(best_ask@) is None)),
{
    if !(200 <= http_status && http_status < 300) {
        return Err(AdapterError::http(http_status));
    }
    if !result_ok {
        return Err(AdapterError::venue(String::new()));
    }
    let bid = match crate::exchange::parse_fixed(best_bid) {
        Some(v) => v,
        None => {
            return Err(AdapterError::parse());
        },
    };
    let ask = match crate::exchange::parse_fixed(best_ask) {
        Some(v) => v,
        None => {
            return Err(AdapterError::parse());
        },
    };
    Ok((bid, ask))
}

} // verus!
