//! KuCoin futures adapter: JSON bodies, millisecond timestamps,
//! HMAC-SHA256 in base64 over timestamp, method, path and body; the
//! passphrase itself travels HMAC-signed and base64-encoded.

use vstd::prelude::*;
use vstd::string::StringExecFns;

use crate::exchange::{spec_parse_opt, 
    header, json_str, push_json_str, sign_b64_sha256, sign_b64_sha256_spec, spec_parse_fixed,
    spec_side_lower, spec_type_lower, str_eq, HttpMethod, WireRequest, order_type_lower,
    side_lower,
};
use crate::fixed::{dec_digits, spec_fixed_str, u64_to_string, Fixed};
use crate::types::{
    AdapterError, AdapterErrorKind, Credentials, ExchangeConfig, OrderRequest, OrderResponse,
    OrderStatus, OrderType, Side,
};

verus! {

/// The place-order JSON body, keys in lexical order.
pub open spec fn kucoin_place_body(req: OrderRequest) -> Seq<char> {
    "{\"clientOid\":"@ + json_str(req.client_order_id@) + ",\"leverage\":\"5\",\"price\":"@ + (
    if req.price is Some {
        json_str(spec_fixed_str(req.price->Some_0.raw as nat))
    } else {
        "null"@
    }) + ",\"reduceOnly\":"@ + (if req.reduce_only {
        "true"@
    } else {
        "false"@
    }) + ",\"side\":"@ + json_str(spec_side_lower(req.side)) + ",\"size\":"@ + json_str(
        spec_fixed_str(req.quantity.raw as nat),
    ) + ",\"symbol\":"@ + json_str(req.symbol@) + ",\"type\":"@ + json_str(
        spec_type_lower(req.order_type),
    ) + "}"@
}

/// What the call tag covers: millisecond timestamp, method, path, body.
pub open spec fn kucoin_sign_payload(ts: u64, method: Seq<char>, path: Seq<char>, body: Seq<
    char,
>) -> Seq<char> {
    dec_digits(ts as nat) + method + path + body
}

fn kucoin_sign(credentials: &Credentials, timestamp_ms: u64, method: &str, path: &str, body:
    &str) -> (r: String)
    ensures
        r@ == sign_b64_sha256_spec(
            credentials.api_secret@,
            kucoin_sign_payload(timestamp_ms, method@, path@, body@),
        ),
{
    let mut msg = String::new();
    crate::exchange::push_u64(&mut msg, timestamp_ms);
    msg.append(method);
    msg.append(path);
    msg.append(body);
    proof {
        assert(msg@ =~= kucoin_sign_payload(timestamp_ms, method@, path@, body@));
    }
    sign_b64_sha256(credentials.api_secret.as_str(), msg.as_str())
}

/// The signed passphrase header value: the stored passphrase, or the empty
/// string where none is stored, under the API secret.
pub open spec fn kucoin_passphrase_sig(credentials: Credentials) -> Seq<char> {
    sign_b64_sha256_spec(
        credentials.api_secret@,
        match credentials.passphrase {
            Some(p) => p@,
            None => Seq::<char>::empty(),
        },
    )
}

fn kucoin_signed_passphrase(credentials: &Credentials) -> (r: String)
    ensures
        r@ == kucoin_passphrase_sig(*credentials),
{
    proof {
        reveal_strlit("");
        assert(""@ =~= Seq::<char>::empty());
    }
    match &credentials.passphrase {
        Some(p) => sign_b64_sha256(credentials.api_secret.as_str(), p.as_str()),
        None => sign_b64_sha256(credentials.api_secret.as_str(), ""),
    }
}

fn kucoin_headers(credentials: &Credentials, signature: String, timestamp_ms: u64,
    with_content_type: bool) -> (r: Vec<(String, String)>)
    ensures
        r@.len() == (if with_content_type {
            6int
        } else {
            5int
        }),
        r@[0].0@ == "KC-API-KEY"@ && r@[0].1@ == credentials.api_key@,
        r@[1].0@ == "KC-API-SIGN"@ && r@[1].1 == signature,
        r@[2].0@ == "KC-API-TIMESTAMP"@ && r@[2].1@ == dec_digits(timestamp_ms as nat),
        r@[3].0@ == "KC-API-PASSPHRASE"@ && r@[3].1@ == kucoin_passphrase_sig(*credentials),
        r@[4].0@ == "KC-API-KEY-VERSION"@ && r@[4].1@ == "2"@,
        with_content_type ==> r@[5].0@ == "Content-Type"@ && r@[5].1@ == "application/json"@,
{
    let signed_passphrase = kucoin_signed_passphrase(credentials);
    let mut headers: Vec<(String, String)> = Vec::new();
    headers.push(header("KC-API-KEY", credentials.api_key.clone()));
    headers.push(header("KC-API-SIGN", signature));
    headers.push(header("KC-API-TIMESTAMP", u64_to_string(timestamp_ms)));
    headers.push(header("KC-API-PASSPHRASE", signed_passphrase));
    headers.push(header("KC-API-KEY-VERSION", String::from_str("2")));
    if with_content_type {
        headers.push(header("Content-Type", String::from_str("application/json")));
    }
    headers
}

/// Build and sign a place-order call.
pub fn kucoin_place_order(
    config: &ExchangeConfig,
    credentials: &Credentials,
    request: &OrderRequest,
    timestamp_ms: u64,
) -> (r: WireRequest)
    requires
        request.wf(),
    ensures
        r.method == HttpMethod::Post,
        r.body@ == kucoin_place_body(*request),
        r.url@ == config.rest_url@ + "/api/v1/orders"@,
        r.headers@.len() == 6,
        r.headers@[0].0@ == "KC-API-KEY"@ && r.headers@[0].1@ == credentials.api_key@,
        r.headers@[1].0@ == "KC-API-SIGN"@ && r.headers@[1].1@ == sign_b64_sha256_spec(
            credentials.api_secret@,
            kucoin_sign_payload(
                timestamp_ms,
                "POST"@,
                "/api/v1/orders"@,
                kucoin_place_body(*request),
            ),
        ),
        r.headers@[3].0@ == "KC-API-PASSPHRASE"@ && r.headers@[3].1@ == kucoin_passphrase_sig(
            *credentials,
        ),
        r.headers@[4].0@ == "KC-API-KEY-VERSION"@ && r.headers@[4].1@ == "2"@,
{
    let mut body = String::new();
    body.append("{\"clientOid\":");
    push_json_str(&mut body, request.client_order_id.as_str());
    body.append(",\"leverage\":\"5\",\"price\":");
    if let Some(price) = request.price {
        let ps = price.to_string();
        push_json_str(&mut body, ps.as_str());
    } else {
        body.append("null");
    }
    body.append(",\"reduceOnly\":");
    if request.reduce_only {
        body.append("true");
    } else {
        body.append("false");
    }
    body.append(",\"side\":");
    push_json_str(&mut body, side_lower(request.side));
    body.append(",\"size\":");
    let qs = request.quantity.to_string();
    push_json_str(&mut body, qs.as_str());
    body.append(",\"symbol\":");
    push_json_str(&mut body, request.symbol.as_str());
    body.append(",\"type\":");
    push_json_str(&mut body, order_type_lower(request.order_type));
    body.append("}");
    proof {
        assert(body@ =~= kucoin_place_body(*request));
    }
    let signature = kucoin_sign(credentials, timestamp_ms, "POST", "/api/v1/orders", body.as_str());
    let mut url = String::new();
    url.append(config.rest_url.as_str());
    url.append("/api/v1/orders");
    let headers = kucoin_headers(credentials, signature, timestamp_ms, true);
    WireRequest { method: HttpMethod::Post, url, headers, body }
}

/// The path of a cancel or lookup call, which the tag covers.
pub open spec fn kucoin_order_path(order_id: Seq<char>) -> Seq<char> {
    "/api/v1/orders/"@ + order_id
}

/// Build and sign a cancel-order call.
pub fn kucoin_cancel_order(
    config: &ExchangeConfig,
    credentials: &Credentials,
    order_id: &str,
    timestamp_ms: u64,
) -> (r: WireRequest)
    ensures
        r.method == HttpMethod::Delete,
        r.body@.len() == 0,
        r.url@ == config.rest_url@ + kucoin_order_path(order_id@),
        r.headers@.len() == 5,
        r.headers@[1].0@ == "KC-API-SIGN"@ && r.headers@[1].1@ == sign_b64_sha256_spec(
            credentials.api_secret@,
            kucoin_sign_payload(timestamp_ms, "DELETE"@, kucoin_order_path(order_id@), Seq::empty()),
        ),
{
    let mut path = String::new();
    path.append("/api/v1/orders/");
    path.append(order_id);
    proof {
        assert(path@ =~= kucoin_order_path(order_id@));
        reveal_strlit("");
        assert(""@ =~= Seq::<char>::empty());
    }
    let signature = kucoin_sign(credentials, timestamp_ms, "DELETE", path.as_str(), "");
    let mut url = String::new();
    url.append(config.rest_url.as_str());
    url.append(path.as_str());
    proof {
        assert(url@ =~= config.rest_url@ + kucoin_order_path(order_id@));
    }
    let headers = kucoin_headers(credentials, signature, timestamp_ms, false);
    WireRequest { method: HttpMethod::Delete, url, headers, body: String::new() }
}

/// Build and sign an order lookup.
pub fn kucoin_get_order(
    config: &ExchangeConfig,
    credentials: &Credentials,
    order_id: &str,
    timestamp_ms: u64,
) -> (r: WireRequest)
    ensures
        r.method == HttpMethod::Get,
        r.body@.len() == 0,
        r.url@ == config.rest_url@ + kucoin_order_path(order_id@),
        r.headers@.len() == 5,
        r.headers@[1].0@ == "KC-API-SIGN"@ && r.headers@[1].1@ == sign_b64_sha256_spec(
            credentials.api_secret@,
            kucoin_sign_payload(timestamp_ms, "GET"@, kucoin_order_path(order_id@), Seq::empty()),
        ),
{
    let mut path = String::new();
    path.append("/api/v1/orders/");
    path.append(order_id);
    proof {
        assert(path@ =~= kucoin_order_path(order_id@));
        reveal_strlit("");
        assert(""@ =~= Seq::<char>::empty());
    }
    let signature = kucoin_sign(credentials, timestamp_ms, "GET", path.as_str(), "");
    let mut url = String::new();
    url.append(config.rest_url.as_str());
    url.append(path.as_str());
    proof {
        assert(url@ =~= config.rest_url@ + kucoin_order_path(order_id@));
    }
    let headers = kucoin_headers(credentials, signature, timestamp_ms, false);
    WireRequest { method: HttpMethod::Get, url, headers, body: String::new() }
}

/// Build the ticker lookup.
pub fn kucoin_best_price_request(config: &ExchangeConfig, symbol: &str) -> (r: WireRequest)
    ensures
        r.method == HttpMethod::Get,
        r.body@.len() == 0,
        r.headers@.len() == 0,
        r.url@ == config.rest_url@ + "/api/v1/ticker?symbol="@ + symbol@,
{
    let mut url = String::new();
    url.append(config.rest_url.as_str());
    url.append("/api/v1/ticker?symbol=");
    url.append(symbol);
    WireRequest { method: HttpMethod::Get, url, headers: Vec::new(), body: String::new() }
}

/// Decode a placement acknowledgement: the venue answers with the order
/// identifier alone, so the response repeats the request, standing
/// `Pending` with nothing filled.
pub fn decode_kucoin_place(
    http_status: u16,
    code: &str,
    order_id: Option<String>,
    request: &OrderRequest,
    timestamp_ms: u64,
) -> (r: Result<OrderResponse, AdapterError>)
    requires
        request.wf(),
    ensures
        !(200 <= http_status < 300) ==> (r matches Err(e) && e.kind == AdapterErrorKind::Http),
        (200 <= http_status < 300 && code@ != "200000"@) ==> (r matches Err(e) && e.kind
            == AdapterErrorKind::Venue),
        (200 <= http_status < 300 && code@ == "200000"@ && order_id is None) ==> (r matches Err(
            e,
        ) && e.kind == AdapterErrorKind::Parse),
        (200 <= http_status < 300 && code@ == "200000"@ && order_id is Some) ==> r is Ok,
        r matches Ok(resp) ==> ({
            &&& order_id matches Some(oid)
            &&& resp.wf()
            &&& resp.exchange_order_id == oid
            &&& resp.client_order_id == request.client_order_id
            &&& resp.symbol == request.symbol
            &&& resp.side == request.side
            &&& resp.order_type == request.order_type
            &&& resp.price == request.price
            &&& resp.quantity == request.quantity
            &&& resp.filled_quantity.raw == 0
            &&& resp.avg_fill_price is None
            &&& resp.status == OrderStatus::Pending
            &&& resp.timestamp == timestamp_ms as i64
            &&& resp.status_fill_consistent()
        }),
{
    if !(200 <= http_status && http_status < 300) {
        return Err(AdapterError::http(http_status));
    }
    if !str_eq(code, "200000") {
        return Err(AdapterError::venue(String::new()));
    }
    let oid = match order_id {
        Some(oid) => oid,
        None => {
            return Err(AdapterError::parse());
        },
    };
    Ok(
        OrderResponse {
            exchange_order_id: oid,
            client_order_id: request.client_order_id.clone(),
            symbol: request.symbol.clone(),
            side: request.side,
            order_type: request.order_type,
            price: request.price,
            quantity: request.quantity,
            filled_quantity: Fixed { raw: 0 },
            avg_fill_price: None,
            status: OrderStatus::Pending,
            timestamp: timestamp_ms as i64,
        },
    )
}

/// Decode a cancel acknowledgement. The endpoint does not echo the order,
/// so the response carries placeholders that consumers may not rely on.
pub fn decode_kucoin_cancel(http_status: u16, symbol: &str, order_id: &str, timestamp_ms: u64)
    -> (r: Result<OrderResponse, AdapterError>)
    ensures
        !(200 <= http_status < 300) ==> (r matches Err(e) && e.kind == AdapterErrorKind::Http),
        r matches Ok(resp) ==> ({
            &&& 200 <= http_status < 300
            &&& resp.wf()
            &&& resp.exchange_order_id@ == order_id@
            &&& resp.symbol@ == symbol@
            &&& resp.status == OrderStatus::Cancelled
            &&& resp.filled_quantity.raw == 0
            &&& resp.timestamp == timestamp_ms as i64
        }),
{
    if !(200 <= http_status && http_status < 300) {
        return Err(AdapterError::http(http_status));
    }
    Ok(
        OrderResponse {
            exchange_order_id: String::from_str(order_id),
            client_order_id: String::new(),
            symbol: String::from_str(symbol),
            side: Side::Buy,
            order_type: OrderType::Limit,
            price: None,
            quantity: Fixed { raw: 0 },
            filled_quantity: Fixed { raw: 0 },
            avg_fill_price: None,
            status: OrderStatus::Cancelled,
            timestamp: timestamp_ms as i64,
        },
    )
}

/// A full order as the lookup reports it.
#[derive(Clone, Debug)]
pub struct KucoinOrderRaw {
    pub id: String,
    pub symbol: String,
    pub client_oid: Option<String>,
    pub side: String,
    pub order_type: String,
    pub price: Option<String>,
    pub size: String,
    pub filled_size: String,
    pub deal_funds: Option<String>,
    pub status: String,
    pub created_at: i64,
}

/// KuCoin's status vocabulary, translated. A word outside it reads as
/// `Pending`, never as a terminal status.
pub open spec fn spec_kucoin_status(s: Seq<char>) -> OrderStatus {
    if s == "open"@ || s == "new"@ {
        OrderStatus::Open
    } else if s == "match"@ || s == "partial"@ {
        OrderStatus::Partial
    } else if s == "done"@ || s == "filled"@ {
        OrderStatus::Filled
    } else if s == "canceled"@ || s == "cancelled"@ {
        OrderStatus::Cancelled
    } else {
        OrderStatus::Pending
    }
}

pub fn parse_kucoin_status(status: &str) -> (r: OrderStatus)
    ensures
        r == spec_kucoin_status(status@),
{
    if str_eq(status, "open") || str_eq(status, "new") {
        OrderStatus::Open
    } else if str_eq(status, "match") || str_eq(status, "partial") {
        OrderStatus::Partial
    } else if str_eq(status, "done") || str_eq(status, "filled") {
        OrderStatus::Filled
    } else if str_eq(status, "canceled") || str_eq(status, "cancelled") {
        OrderStatus::Cancelled
    } else {
        OrderStatus::Pending
    }
}

/// Decode an order from the lookup. A report with a fill beyond the
/// quantity, or a fill on an order still pending, open or rejected, is
/// refused as malformed.
pub fn decode_kucoin_order(http_status: u16, code: &str, order: Option<KucoinOrderRaw>) -> (r:
    Result<OrderResponse, AdapterError>)
    ensures
        !(200 <= http_status < 300) ==> (r matches Err(e) && e.kind == AdapterErrorKind::Http),
        (200 <= http_status < 300 && code@ != "200000"@) ==> (r matches Err(e) && e.kind
            == AdapterErrorKind::Venue),
        (200 <= http_status < 300 && code@ == "200000"@ && order is None) ==> (r matches Err(e)
            && e.kind == AdapterErrorKind::Parse),
        (200 <= http_status < 300 && code@ == "200000"@ && (order matches Some(o)
            && crate::exchange::spec_parse_fixed_or_zero(o.filled_size@).raw
            <= crate::exchange::spec_parse_fixed_or_zero(o.size@).raw && (spec_kucoin_status(
            o.status@,
        ).spec_no_fill() ==> crate::exchange::spec_parse_fixed_or_zero(o.filled_size@).raw == 0)
            && (spec_kucoin_status(o.status@) == OrderStatus::Filled ==> 100
            * crate::exchange::spec_parse_fixed_or_zero(o.filled_size@).raw >= 99
            * crate::exchange::spec_parse_fixed_or_zero(o.size@).raw))) ==> r is Ok,
        r matches Ok(resp) ==> ({
            &&& order matches Some(o)
            &&& resp.wf()
            &&& resp.exchange_order_id == o.id
            &&& resp.symbol == o.symbol
            &&& resp.side == (if o.side@ == "buy"@ {
                Side::Buy
            } else {
                Side::Sell
            })
            &&& resp.order_type == (if o.order_type@ == "limit"@ {
                OrderType::Limit
            } else {
                OrderType::Market
            })
            &&& resp.price == (match o.price {
                Some(p) => spec_parse_fixed(p@),
                None => None,
            })
            &&& resp.quantity == crate::exchange::spec_parse_fixed_or_zero(o.size@)
            &&& resp.filled_quantity == crate::exchange::spec_parse_fixed_or_zero(o.filled_size@)
            &&& resp.avg_fill_price == spec_parse_opt(o.deal_funds)
            &&& resp.status == spec_kucoin_status(o.status@)
            &&& resp.timestamp == o.created_at
            &&& resp.status_fill_consistent()
        }),
{
    if !(200 <= http_status && http_status < 300) {
        return Err(AdapterError::http(http_status));
    }
    if !str_eq(code, "200000") {
        return Err(AdapterError::venue(String::new()));
    }
    let o = match order {
        Some(o) => o,
        None => {
            return Err(AdapterError::parse());
        },
    };
    let quantity = crate::exchange::parse_fixed_or_zero(o.size.as_str());
    let filled = crate::exchange::parse_fixed_or_zero(o.filled_size.as_str());
    if filled.raw > quantity.raw {
        return Err(AdapterError::parse());
    }
    let side = if str_eq(o.side.as_str(), "buy") {
        Side::Buy
    } else {
        Side::Sell
    };
    let order_type = if str_eq(o.order_type.as_str(), "limit") {
        OrderType::Limit
    } else {
        OrderType::Market
    };
    let price = match o.price {
        Some(p) => crate::exchange::parse_fixed(p.as_str()),
        None => None,
    };
    let avg = match o.deal_funds {
        Some(p) => crate::exchange::parse_fixed(p.as_str()),
        None => None,
    };
    let client_order_id = match o.client_oid {
        Some(c) => c,
        None => String::new(),
    };
    let status = parse_kucoin_status(o.status.as_str());
    if !crate::types::fill_matches_status(status, filled, quantity) {
        return Err(AdapterError::parse());
    }
    Ok(
        OrderResponse {
            exchange_order_id: o.id,
            client_order_id,
            symbol: o.symbol,
            side,
            order_type,
            price,
            quantity,
            filled_quantity: filled,
            avg_fill_price: avg,
            status,
            timestamp: o.created_at,
        },
    )
}

/// Decode a ticker: both sides of the touch must parse.
pub fn decode_kucoin_ticker(http_status: u16, code: &str, best_bid: &str, best_ask: &str) -> (r:
    Result<(Fixed, Fixed), AdapterError>)
    ensures
        !(200 <= http_status < 300) ==> (r matches Err(e) && e.kind == AdapterErrorKind::Http),
        (200 <= http_status < 300 && code@ != "200000"@) ==> (r matches Err(e) && e.kind
            == AdapterErrorKind::Venue),
        r matches Ok(p) ==> ({
            &&& 200 <= http_status < 300
            &&& code@ == "200000"@
            &&& spec_parse_fixed(best_bid@) == Some(p.0)
            &&& spec_parse_fixed(best_ask@) == Some(p.1)
            &&& p.0.wf()
            &&& p.1.wf()
        }),
        (200 <= http_status < 300 && code@ == "200000"@) ==> (r is Err <==> (spec_parse_fixed(
            best_bid@,
        ) is None || spec_parse_fixed(best_ask@) is None)),
{
    if !(200 <= http_status && http_status < 300) {
        return Err(AdapterError::http(http_status));
    }
    if !str_eq(code, "200000") {
        return Err(AdapterError::venue(String::new()));
    }
    let bid = match crate::exchange::parse_fixed(best_bid) {
        Some(v) => v,
        None => {
            return Err(AdapterError::parse());
        },
    };
    let ask = match crate::exchange::parse_fixed(best_ask) {
        Some(v) => v,
        None => {
            return Err(AdapterError::parse());
        },
    };
    Ok((bid, ask))
}

} // verus!
