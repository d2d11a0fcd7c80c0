//! HTX futures adapter: the signature covers method, host, path and the
//! access parameters, travels base64 and percent-encoded in the query, and
//! orders count whole contracts.

use vstd::prelude::*;
use vstd::string::{StringExecFns, StringSliceAdditionalSpecFns};

use crate::codec::{spec_urlencode, urlencode};
use crate::exchange::{spec_parse_opt, spec_whole_contracts, whole_contracts,
    contains_at, json_str, push_json_str, sign_b64_sha256, sign_b64_sha256_spec,
    spec_parse_fixed, spec_side_lower, str_contains, str_eq, HttpMethod, WireRequest, side_lower,
};
use crate::fixed::{dec_digits, spec_fixed_str, Fixed, SCALE};
use crate::types::{
    AdapterError, AdapterErrorKind, Credentials, ExchangeConfig, OrderRequest, OrderResponse,
    OrderStatus, OrderType, Side,
};

verus! {

/// The host the signature names: the legacy host where the configured URL
/// mentions it, else the current one.
pub open spec fn spec_htx_host(rest_url: Seq<char>) -> Seq<char> {
    if exists|i: int| #[trigger] contains_at(rest_url, "huobi"@, i) {
        "api.huobi.pro"@
    } else {
        "api.htx.com"@
    }
}

fn htx_host(config: &ExchangeConfig) -> (r: &'static str)
    ensures
        r@ == spec_htx_host(config.rest_url@),
{
    if str_contains(config.rest_url.as_str(), "huobi") {
        "api.huobi.pro"
    } else {
        "api.htx.com"
    }
}

/// The access parameters every signed call carries, with the ISO
/// timestamp percent-encoded.
pub open spec fn htx_auth_params(api_key: Seq<char>, ts_iso: Seq<char>) -> Seq<char> {
    "AccessKeyId="@ + api_key + "&SignatureMethod=HmacSHA256&SignatureVersion=2&Timestamp="@
        + spec_urlencode_chars(ts_iso)
}

/// Percent encoding over a string's UTF-8 bytes.
pub open spec fn spec_urlencode_chars(s: Seq<char>) -> Seq<char> {
    spec_urlencode(vstd::utf8::encode_utf8(s))
}

/// What the tag covers: method, host and path on their own lines, then
/// the access parameters.
pub open spec fn htx_sign_payload(
    method: Seq<char>,
    host: Seq<char>,
    path: Seq<char>,
    params: Seq<char>,
) -> Seq<char> {
    method + "\n"@ + host + "\n"@ + path + "\n"@ + params
}

fn htx_auth_params_str(credentials: &Credentials, ts_iso: &str) -> (r: String)
    ensures
        r@ == htx_auth_params(credentials.api_key@, ts_iso@),
{
    let encoded_ts = urlencode(ts_iso);
    let mut q = String::new();
    q.append("AccessKeyId=");
    q.append(credentials.api_key.as_str());
    q.append("&SignatureMethod=HmacSHA256&SignatureVersion=2&Timestamp=");
    q.append(encoded_ts.as_str());
    proof {
        assert(q@ =~= htx_auth_params(credentials.api_key@, ts_iso@));
    }
    q
}

/// The signed URL a call uses: the configured base, the path, the access
/// parameters and the percent-encoded signature.
pub open spec fn htx_signed_url(
    config: ExchangeConfig,
    credentials: Credentials,
    path: Seq<char>,
    ts_iso: Seq<char>,
) -> Seq<char> {
    config.rest_url@ + path + "?"@ + htx_auth_params(credentials.api_key@, ts_iso)
        + "&Signature="@ + spec_urlencode_chars(
        sign_b64_sha256_spec(
            credentials.api_secret@,
            htx_sign_payload(
                "POST"@,
                spec_htx_host(config.rest_url@),
                path,
                htx_auth_params(credentials.api_key@, ts_iso),
            ),
        ),
    )
}

fn htx_signed_url_str(
    config: &ExchangeConfig,
    credentials: &Credentials,
    path: &str,
    ts_iso: &str,
) -> (r: String)
    ensures
        r@ == htx_signed_url(*config, *credentials, path@, ts_iso@),
{
    let params = htx_auth_params_str(credentials, ts_iso);
    let host = htx_host(config);
    let mut payload = String::new();
    payload.append("POST");
    payload.append("\n");
    payload.append(host);
    payload.append("\n");
    payload.append(path);
    payload.append("\n");
    payload.append(params.as_str());
    proof {
        assert(payload@ =~= htx_sign_payload(
            "POST"@,
            spec_htx_host(config.rest_url@),
            path@,
            htx_auth_params(credentials.api_key@, ts_iso@),
        ));
    }
    let signature = sign_b64_sha256(credentials.api_secret.as_str(), payload.as_str());
    let encoded_sig = urlencode(signature.as_str());
    let mut url = String::new();
    url.append(config.rest_url.as_str());
    url.append(path);
    url.append("?");
    url.append(params.as_str());
    url.append("&Signature=");
    url.append(encoded_sig.as_str());
    proof {
        assert(url@ =~= htx_signed_url(*config, *credentials, path@, ts_iso@));
    }
    url
}

/// The place-order JSON body, keys in lexical order, volume in whole
/// contracts.
pub open spec fn htx_place_body(req: OrderRequest) -> Seq<char> {
    "{\"contract_code\":"@ + json_str(req.symbol@) + ",\"direction\":"@ + json_str(
        spec_side_lower(req.side),
    ) + ",\"lever_rate\":5,\"offset\":\"open\",\"order_price_type\":"@ + (
    if req.order_type == OrderType::Limit {
        json_str("limit"@)
    } else {
        json_str("optimal_20"@)
    }) + ",\"price\":"@ + (if req.price is Some {
        json_str(spec_fixed_str(req.price->Some_0.raw as nat))
    } else {
        "null"@
    }) + ",\"reduce_only\":"@ + (if req.reduce_only {
        seq!['1']
    } else {
        seq!['0']
    }) + ",\"volume\":"@ + dec_digits(spec_whole_contracts(req.quantity) as nat) + "}"@
}

/// Build and sign a place-order call.
pub fn htx_place_order(
    config: &ExchangeConfig,
    credentials: &Credentials,
    request: &OrderRequest,
    ts_iso: &str,
) -> (r: WireRequest)
    requires
        request.wf(),
    ensures
        r.method == HttpMethod::Post,
        r.body@ == htx_place_body(*request),
        r.url@ == htx_signed_url(
            *config,
            *credentials,
            "/linear-swap-api/v1/swap_cross_order"@,
            ts_iso@,
        ),
        r.headers@.len() == 1,
        r.headers@[0].0@ == "Content-Type"@ && r.headers@[0].1@ == "application/json"@,
{
    let mut body = String::new();
    body.append("{\"contract_code\":");
    push_json_str(&mut body, request.symbol.as_str());
    body.append(",\"direction\":");
    push_json_str(&mut body, side_lower(request.side));
    body.append(",\"lever_rate\":5,\"offset\":\"open\",\"order_price_type\":");
    if request.order_type == OrderType::Limit {
        push_json_str(&mut body, "limit");
    } else {
        push_json_str(&mut body, "optimal_20");
    }
    body.append(",\"price\":");
    if let Some(price) = request.price {
        let ps = price.to_string();
        push_json_str(&mut body, ps.as_str());
    } else {
        body.append("null");
    }
    body.append(",\"reduce_only\":");
    if request.reduce_only {
        body.push('1');
    } else {
        body.push('0');
    }
    body.append(",\"volume\":");
    let mag = whole_contracts(request.quantity);
    crate::exchange::push_u64(&mut body, mag);
    body.append("}");
    proof {
        assert(body@ =~= htx_place_body(*request));
    }
    let url = htx_signed_url_str(config, credentials, "/linear-swap-api/v1/swap_cross_order",
        ts_iso);
    let mut headers: Vec<(String, String)> = Vec::new();
    headers.push(
        crate::exchange::header("Content-Type", String::from_str("application/json")),
    );
    WireRequest { method: HttpMethod::Post, url, headers, body }
}

/// The cancel JSON body, keys in lexical order.
pub open spec fn htx_cancel_body(symbol: Seq<char>, order_id: Seq<char>) -> Seq<char> {
    "{\"contract_code\":"@ + json_str(symbol) + ",\"order_id\":"@ + json_str(order_id) + "}"@
}

/// Build and sign a cancel-order call.
pub fn htx_cancel_order(
    config: &ExchangeConfig,
    credentials: &Credentials,
    symbol: &str,
    order_id: &str,
    ts_iso: &str,
) -> (r: WireRequest)
    ensures
        r.method == HttpMethod::Post,
        r.body@ == htx_cancel_body(symbol@, order_id@),
        r.url@ == htx_signed_url(
            *config,
            *credentials,
            "/linear-swap-api/v1/swap_cross_cancel"@,
            ts_iso@,
        ),
        r.headers@.len() == 1,
        r.headers@[0].0@ == "Content-Type"@,
{
    let mut body = String::new();
    body.append("{\"contract_code\":");
    push_json_str(&mut body, symbol);
    body.append(",\"order_id\":");
    push_json_str(&mut body, order_id);
    body.append("}");
    proof {
        assert(body@ =~= htx_cancel_body(symbol@, order_id@));
    }
    let url = htx_signed_url_str(config, credentials, "/linear-swap-api/v1/swap_cross_cancel",
        ts_iso);
    let mut headers: Vec<(String, String)> = Vec::new();
    headers.push(
        crate::exchange::header("Content-Type", String::from_str("application/json")),
    );
    WireRequest { method: HttpMethod::Post, url, headers, body }
}

/// Build and sign an order lookup; the lookup posts the same body shape as
/// a cancel.
pub fn htx_get_order(
    config: &ExchangeConfig,
    credentials: &Credentials,
    symbol: &str,
    order_id: &str,
    ts_iso: &str,
) -> (r: WireRequest)
    ensures
        r.method == HttpMethod::Post,
        r.body@ == htx_cancel_body(symbol@, order_id@),
        r.url@ == htx_signed_url(
            *config,
            *credentials,
            "/linear-swap-api/v1/swap_cross_order_info"@,
            ts_iso@,
        ),
        r.headers@.len() == 1,
        r.headers@[0].0@ == "Content-Type"@,
{
    let mut body = String::new();
    body.append("{\"contract_code\":");
    push_json_str(&mut body, symbol);
    body.append(",\"order_id\":");
    push_json_str(&mut body, order_id);
    body.append("}");
    proof {
        assert(body@ =~= htx_cancel_body(symbol@, order_id@));
    }
    let url = htx_signed_url_str(
        config,
        credentials,
        "/linear-swap-api/v1/swap_cross_order_info",
        ts_iso,
    );
    let mut headers: Vec<(String, String)> = Vec::new();
    headers.push(
        crate::exchange::header("Content-Type", String::from_str("application/json")),
    );
    WireRequest { method: HttpMethod::Post, url, headers, body }
}

/// Build the one-step depth lookup for the touch.
pub fn htx_best_price_request(config: &ExchangeConfig, symbol: &str) -> (r: WireRequest)
    ensures
        r.method == HttpMethod::Get,
        r.body@.len() == 0,
        r.headers@.len() == 0,
        r.url@ == config.rest_url@ + "/linear-swap-ex/market/depth?contract_code="@ + symbol@
            + "&type=step0"@,
{
    let mut url = String::new();
    url.append(config.rest_url.as_str());
    url.append("/linear-swap-ex/market/depth?contract_code=");
    url.append(symbol);
    url.append("&type=step0");
    WireRequest { method: HttpMethod::Get, url, headers: Vec::new(), body: String::new() }
}

/// Decode a placement acknowledgement: the venue answers with the order
/// identifier alone, so the response repeats the request, standing
/// `Pending` with nothing filled.
pub fn decode_htx_place(
    http_status: u16,
    status_ok: bool,
    order_id_str: Option<String>,
    request: &OrderRequest,
    now_ms: i64,
) -> (r: Result<OrderResponse, AdapterError>)
    requires
        request.wf(),
    ensures
        !(200 <= http_status < 300) ==> (r matches Err(e) && e.kind == AdapterErrorKind::Http),
        (200 <= http_status < 300 && !status_ok) ==> (r matches Err(e) && e.kind
            == AdapterErrorKind::Venue),
        (200 <= http_status < 300 && status_ok && order_id_str is None) ==> (r matches Err(e)
            && e.kind == AdapterErrorKind::Parse),
        (200 <= http_status < 300 && status_ok && order_id_str is Some) ==> r is Ok,
        r matches Ok(resp) ==> ({
            &&& order_id_str matches Some(oid)
            &&& resp.wf()
            &&& resp.exchange_order_id == oid
            &&& resp.client_order_id == request.client_order_id
            &&& resp.symbol == request.symbol
            &&& resp.side == request.side
            &&& resp.order_type == request.order_type
            &&& resp.price == request.price
            &&& resp.quantity == request.quantity
            &&& resp.filled_quantity.raw == 0
            &&& resp.avg_fill_price is None
            &&& resp.status == OrderStatus::Pending
            &&& resp.timestamp == now_ms
            &&& resp.status_fill_consistent()
        }),
{
    if !(200 <= http_status && http_status < 300) {
        return Err(AdapterError::http(http_status));
    }
    if !status_ok {
        return Err(AdapterError::venue(String::new()));
    }
    let oid = match order_id_str {
        Some(oid) => oid,
        None => {
            return Err(AdapterError::parse());
        },
    };
    Ok(
        OrderResponse {
            exchange_order_id: oid,
            client_order_id: request.client_order_id.clone(),
            symbol: request.symbol.clone(),
            side: request.side,
            order_type: request.order_type,
            price: request.price,
            quantity: request.quantity,
            filled_quantity: Fixed { raw: 0 },
            avg_fill_price: None,
            status: OrderStatus::Pending,
            timestamp: now_ms,
        },
    )
}

/// Decode a cancel acknowledgement. The endpoint does not echo the order,
/// so the response carries placeholders that consumers may not rely on.
pub fn decode_htx_cancel(http_status: u16, symbol: &str, order_id: &str, now_ms: i64) -> (r:
    Result<OrderResponse, AdapterError>)
    ensures
        !(200 <= http_status < 300) ==> (r matches Err(e) && e.kind == AdapterErrorKind::Http),
        r matches Ok(resp) ==> ({
            &&& 200 <= http_status < 300
            &&& resp.wf()
            &&& resp.exchange_order_id@ == order_id@
            &&& resp.symbol@ == symbol@
            &&& resp.status == OrderStatus::Cancelled
            &&& resp.filled_quantity.raw == 0
            &&& resp.timestamp == now_ms
        }),
{
    if !(200 <= http_status && http_status < 300) {
        return Err(AdapterError::http(http_status));
    }
    Ok(
        OrderResponse {
            exchange_order_id: String::from_str(order_id),
            client_order_id: String::new(),
            symbol: String::from_str(symbol),
            side: Side::Buy,
            order_type: OrderType::Limit,
            price: None,
            quantity: Fixed { raw: 0 },
            filled_quantity: Fixed { raw: 0 },
            avg_fill_price: None,
            status: OrderStatus::Cancelled,
            timestamp: now_ms,
        },
    )
}

/// An order as the lookup reports it, volumes in whole contracts. The
/// prices arrive as decimal strings.
#[derive(Clone, Debug)]
pub struct HtxOrderRaw {
    pub order_id_str: String,
    pub contract_code: String,
    pub direction: String,
    pub price: String,
    pub volume: i64,
    pub trade_volume: i64,
    pub trade_avg_price: Option<String>,
    pub status: i32,
    pub created_at: i64,
    pub client_order_id: Option<String>,
}

/// HTX's numeric states, translated. A code outside the vocabulary reads
/// as `Pending`, never as a terminal status.
pub open spec fn spec_htx_status(state: int) -> OrderStatus {
    if state == 1 || state == 2 {
        OrderStatus::Pending
    } else if state == 3 {
        OrderStatus::Open
    } else if state == 4 {
        OrderStatus::Partial
    } else if state == 5 || state == 6 {
        OrderStatus::Cancelled
    } else if state == 7 {
        OrderStatus::Filled
    } else {
        OrderStatus::Pending
    }
}

pub fn parse_htx_status(state: i32) -> (r: OrderStatus)
    ensures
        r == spec_htx_status(state as int),
{
    match state {
        1 | 2 => OrderStatus::Pending,
        3 => OrderStatus::Open,
        4 => OrderStatus::Partial,
        5 | 6 => OrderStatus::Cancelled,
        7 => OrderStatus::Filled,
        _ => OrderStatus::Pending,
    }
}

/// Decode an order from the lookup: whole-contract volumes within range,
/// no more traded than ordered, and nothing traded while the order is
/// still pending, open or rejected.
pub fn decode_htx_order(http_status: u16, status_ok: bool, order: Option<HtxOrderRaw>) -> (r:
    Result<OrderResponse, AdapterError>)
    ensures
        !(200 <= http_status < 300) ==> (r matches Err(e) && e.kind == AdapterErrorKind::Http),
        (200 <= http_status < 300 && !status_ok) ==> (r matches Err(e) && e.kind
            == AdapterErrorKind::Venue),
        (200 <= http_status < 300 && status_ok && order is None) ==> (r matches Err(e) && e.kind
            == AdapterErrorKind::Parse),
        (200 <= http_status < 300 && status_ok && (order matches Some(o) && 0 <= o.volume
            <= 1_000_000_000 && 0 <= o.trade_volume <= o.volume && (spec_htx_status(
            o.status as int,
        ).spec_no_fill() ==> o.trade_volume == 0) && (spec_htx_status(o.status as int)
            == OrderStatus::Filled ==> 100 * o.trade_volume >= 99 * o.volume))) ==> r is Ok,
        r matches Ok(resp) ==> ({
            &&& order matches Some(o)
            &&& resp.wf()
            &&& resp.exchange_order_id == o.order_id_str
            &&& resp.client_order_id@ == (match o.client_order_id {
                Some(c) => c@,
                None => Seq::<char>::empty(),
            })
            &&& resp.symbol == o.contract_code
            &&& resp.side == (if o.direction@ == "buy"@ {
                Side::Buy
            } else {
                Side::Sell
            })
            &&& resp.order_type == OrderType::Limit
            &&& resp.price == spec_parse_fixed(o.price@)
            &&& resp.quantity.raw == o.volume * SCALE
            &&& resp.filled_quantity.raw == o.trade_volume * SCALE
            &&& resp.avg_fill_price == spec_parse_opt(o.trade_avg_price)
            &&& resp.status == spec_htx_status(o.status as int)
            &&& resp.timestamp == o.created_at
            &&& resp.status_fill_consistent()
        }),
{
    if !(200 <= http_status && http_status < 300) {
        return Err(AdapterError::http(http_status));
    }
    if !status_ok {
        return Err(AdapterError::venue(String::new()));
    }
    let o = match order {
        Some(o) => o,
        None => {
            return Err(AdapterError::parse());
        },
    };
    if o.volume < 0 || o.volume > 1_000_000_000 {
        return Err(AdapterError::parse());
    }
    if o.trade_volume < 0 || o.trade_volume > o.volume {
        return Err(AdapterError::parse());
    }
    let quantity = Fixed { raw: (o.volume as u64) * SCALE };
    let filled = Fixed { raw: (o.trade_volume as u64) * SCALE };
    let side = if str_eq(o.direction.as_str(), "buy") {
        Side::Buy
    } else {
        Side::Sell
    };
    let avg = match o.trade_avg_price {
        Some(p) => crate::exchange::parse_fixed(p.as_str()),
        None => None,
    };
    let client_order_id = match o.client_order_id {
        Some(c) => c,
        None => String::new(),
    };
    let status = parse_htx_status(o.status);
    if !crate::types::fill_matches_status(status, filled, quantity) {
        return Err(AdapterError::parse());
    }
    Ok(
        OrderResponse {
            exchange_order_id: o.order_id_str,
            client_order_id,
            symbol: o.contract_code,
            side,
            order_type: OrderType::Limit,
            price: crate::exchange::parse_fixed(o.price.as_str()),
            quantity,
            filled_quantity: filled,
            avg_fill_price: avg,
            status,
            timestamp: o.created_at,
        },
    )
}

/// Decode the top of the depth: both sides of the touch must parse.
pub fn decode_htx_depth(http_status: u16, best_bid: &str, best_ask: &str) -> (r: Result<
    (Fixed, Fixed),
    AdapterError,
>)
    ensures
        !(200 <= http_status < 300) ==> (r matches Err(e) && e.kind == AdapterErrorKind::Http),
        r matches Ok(p) ==> ({
            &&& 200 <= http_status < 300
            &&& spec_parse_fixed(best_bid@) == Some(p.0)
            &&& spec_parse_fixed(best_ask@) == Some(p.1)
            &&& p.0.wf()
            &&& p.1.wf()
        }),
        (200 <= http_status < 300) ==> (r is Err <==> (spec_parse_fixed(best_bid@) is None
            || spec_parse_fixed(best_ask@) is None)),
{
    if !(200 <= http_status && http_status < 300) {
        return Err(AdapterError::http(http_status));
    }
    let bid = match crate::exchange::parse_fixed(best_bid) {
        Some(v) => v,
        None => {
            return Err(AdapterError::parse());
        },
    };
    let ask = match crate::exchange::parse_fixed(best_ask) {
        Some(v) => v,
        None => {
            return Err(AdapterError::parse());
        },
    };
    Ok((bid, ask))
}

} // verus!
