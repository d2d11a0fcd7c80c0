//! OKX futures adapter: JSON bodies, ISO-8601 timestamps with millisecond
//! precision, HMAC-SHA256 in base64 over timestamp, method, path and body,
//! and a mandatory passphrase header.

use vstd::prelude::*;
use vstd::string::StringExecFns;

use crate::exchange::{
    header, json_str, push_json_str, sign_b64_sha256, sign_b64_sha256_spec, spec_parse_fixed,
    spec_parse_opt, spec_parse_opt_or_zero,
    spec_side_lower, spec_type_lower, str_eq, HttpMethod, WireRequest, order_type_lower,
    side_lower, spec_timestamp_ms,
};
use crate::fixed::{spec_fixed_str, Fixed};
use crate::types::{
    AdapterError, AdapterErrorKind, Credentials, ExchangeConfig, OrderRequest, OrderResponse,
    OrderStatus, OrderType, Side,
};

verus! {

/// The place-order JSON body, keys in lexical order.
pub open spec fn okx_place_body(req: OrderRequest) -> Seq<char> {
    "{\"clOrdId\":"@ + json_str(req.client_order_id@) + ",\"instId\":"@ + json_str(req.symbol@)
        + ",\"ordType\":"@ + json_str(spec_type_lower(req.order_type)) + ",\"px\":"@ + (
    if req.price is Some {
        json_str(spec_fixed_str(req.price->Some_0.raw as nat))
    } else {
        "null"@
    }) + ",\"reduceOnly\":"@ + (if req.reduce_only {
        "true"@
    } else {
        "false"@
    }) + ",\"side\":"@ + json_str(spec_side_lower(req.side)) + ",\"sz\":"@ + json_str(
        spec_fixed_str(req.quantity.raw as nat),
    ) + ",\"tdMode\":\"cross\"}"@
}

/// What the tag covers: ISO timestamp, method, path with query, body.
pub open spec fn okx_sign_payload(ts: Seq<char>, method: Seq<char>, path: Seq<char>, body: Seq<
    char,
>) -> Seq<char> {
    ts + method + path + body
}

fn okx_sign(credentials: &Credentials, ts_iso: &str, method: &str, path: &str, body: &str) -> (r:
    String)
    ensures
        r@ == sign_b64_sha256_spec(
            credentials.api_secret@,
            okx_sign_payload(ts_iso@, method@, path@, body@),
        ),
{
    let mut msg = String::new();
    msg.append(ts_iso);
    msg.append(method);
    msg.append(path);
    msg.append(body);
    proof {
        assert(msg@ =~= okx_sign_payload(ts_iso@, method@, path@, body@));
    }
    sign_b64_sha256(credentials.api_secret.as_str(), msg.as_str())
}

fn okx_headers(credentials: &Credentials, signature: String, ts_iso: &str, with_content_type:
    bool) -> (r: Vec<(String, String)>)
    ensures
        r@.len() == (if with_content_type {
            5int
        } else {
            4int
        }),
        r@[0].0@ == "OK-ACCESS-KEY"@ && r@[0].1@ == credentials.api_key@,
        r@[1].0@ == "OK-ACCESS-SIGN"@ && r@[1].1 == signature,
        r@[2].0@ == "OK-ACCESS-TIMESTAMP"@ && r@[2].1@ == ts_iso@,
        r@[3].0@ == "OK-ACCESS-PASSPHRASE"@ && r@[3].1@ == (match credentials.passphrase {
            Some(p) => p@,
            None => Seq::<char>::empty(),
        }),
        with_content_type ==> r@[4].0@ == "Content-Type"@ && r@[4].1@ == "application/json"@,
{
    let passphrase = match &credentials.passphrase {
        Some(p) => p.clone(),
        None => String::new(),
    };
    let mut headers: Vec<(String, String)> = Vec::new();
    headers.push(header("OK-ACCESS-KEY", credentials.api_key.clone()));
    headers.push(header("OK-ACCESS-SIGN", signature));
    headers.push(header("OK-ACCESS-TIMESTAMP", String::from_str(ts_iso)));
    headers.push(header("OK-ACCESS-PASSPHRASE", passphrase));
    if with_content_type {
        headers.push(header("Content-Type", String::from_str("application/json")));
    }
    headers
}

/// Build and sign a place-order call.
pub fn okx_place_order(
    config: &ExchangeConfig,
    credentials: &Credentials,
    request: &OrderRequest,
    ts_iso: &str,
) -> (r: WireRequest)
    requires
        request.wf(),
    ensures
        r.method == HttpMethod::Post,
        r.body@ == okx_place_body(*request),
        r.url@ == config.rest_url@ + "/api/v5/trade/order"@,
        r.headers@.len() == 5,
        r.headers@[0].0@ == "OK-ACCESS-KEY"@ && r.headers@[0].1@ == credentials.api_key@,
        r.headers@[1].0@ == "OK-ACCESS-SIGN"@ && r.headers@[1].1@ == sign_b64_sha256_spec(
            credentials.api_secret@,
            okx_sign_payload(ts_iso@, "POST"@, "/api/v5/trade/order"@, okx_place_body(*request)),
        ),
        r.headers@[2].0@ == "OK-ACCESS-TIMESTAMP"@ && r.headers@[2].1@ == ts_iso@,
        r.headers@[3].0@ == "OK-ACCESS-PASSPHRASE"@ && r.headers@[3].1@ == (
        match credentials.passphrase {
            Some(p) => p@,
            None => Seq::<char>::empty(),
        }),
        r.headers@[4].0@ == "Content-Type"@,
{
    let mut body = String::new();
    body.append("{\"clOrdId\":");
    push_json_str(&mut body, request.client_order_id.as_str());
    body.append(",\"instId\":");
    push_json_str(&mut body, request.symbol.as_str());
    body.append(",\"ordType\":");
    push_json_str(&mut body, order_type_lower(request.order_type));
    body.append(",\"px\":");
    if let Some(price) = request.price {
        let ps = price.to_string();
        push_json_str(&mut body, ps.as_str());
    } else {
        body.append("null");
    }
    body.append(",\"reduceOnly\":");
    if request.reduce_only {
        body.append("true");
    } else {
        body.append("false");
    }
    body.append(",\"side\":");
    push_json_str(&mut body, side_lower(request.side));
    body.append(",\"sz\":");
    let qs = request.quantity.to_string();
    push_json_str(&mut body, qs.as_str());
    body.append(",\"tdMode\":\"cross\"}");
    proof {
        assert(body@ =~= okx_place_body(*request));
    }
    let signature = okx_sign(credentials, ts_iso, "POST", "/api/v5/trade/order", body.as_str());
    let mut url = String::new();
    url.append(config.rest_url.as_str());
    url.append("/api/v5/trade/order");
    let headers = okx_headers(credentials, signature, ts_iso, true);
    WireRequest { method: HttpMethod::Post, url, headers, body }
}

/// The cancel JSON body, keys in lexical order.
pub open spec fn okx_cancel_body(symbol: Seq<char>, order_id: Seq<char>) -> Seq<char> {
    "{\"instId\":"@ + json_str(symbol) + ",\"ordId\":"@ + json_str(order_id) + "}"@
}

/// Build and sign a cancel-order call.
pub fn okx_cancel_order(
    config: &ExchangeConfig,
    credentials: &Credentials,
    symbol: &str,
    order_id: &str,
    ts_iso: &str,
) -> (r: WireRequest)
    ensures
        r.method == HttpMethod::Post,
        r.body@ == okx_cancel_body(symbol@, order_id@),
        r.url@ == config.rest_url@ + "/api/v5/trade/cancel-order"@,
        r.headers@.len() == 5,
        r.headers@[1].0@ == "OK-ACCESS-SIGN"@ && r.headers@[1].1@ == sign_b64_sha256_spec(
            credentials.api_secret@,
            okx_sign_payload(
                ts_iso@,
                "POST"@,
                "/api/v5/trade/cancel-order"@,
                okx_cancel_body(symbol@, order_id@),
            ),
        ),
{
    let mut body = String::new();
    body.append("{\"instId\":");
    push_json_str(&mut body, symbol);
    body.append(",\"ordId\":");
    push_json_str(&mut body, order_id);
    body.append("}");
    proof {
        assert(body@ =~= okx_cancel_body(symbol@, order_id@));
    }
    let signature = okx_sign(
        credentials,
        ts_iso,
        "POST",
        "/api/v5/trade/cancel-order",
        body.as_str(),
    );
    let mut url = String::new();
    url.append(config.rest_url.as_str());
    url.append("/api/v5/trade/cancel-order");
    let headers = okx_headers(credentials, signature, ts_iso, true);
    WireRequest { method: HttpMethod::Post, url, headers, body }
}

/// The queried path of an order lookup, which the tag covers whole.
pub open spec fn okx_get_path(symbol: Seq<char>, order_id: Seq<char>) -> Seq<char> {
    "/api/v5/trade/order?instId="@ + symbol + "&ordId="@ + order_id
}

/// Build and sign an order lookup.
pub fn okx_get_order(
    config: &ExchangeConfig,
    credentials: &Credentials,
    symbol: &str,
    order_id: &str,
    ts_iso: &str,
) -> (r: WireRequest)
    ensures
        r.method == HttpMethod::Get,
        r.body@.len() == 0,
        r.url@ == config.rest_url@ + okx_get_path(symbol@, order_id@),
        r.headers@.len() == 4,
        r.headers@[1].0@ == "OK-ACCESS-SIGN"@ && r.headers@[1].1@ == sign_b64_sha256_spec(
            credentials.api_secret@,
            okx_sign_payload(ts_iso@, "GET"@, okx_get_path(symbol@, order_id@), Seq::empty()),
        ),
{
    let mut path = String::new();
    path.append("/api/v5/trade/order?instId=");
    path.append(symbol);
    path.append("&ordId=");
    path.append(order_id);
    proof {
        assert(path@ =~= okx_get_path(symbol@, order_id@));
    }
    proof {
        reveal_strlit("");
        assert(""@ =~= Seq::<char>::empty());
    }
    let signature = okx_sign(credentials, ts_iso, "GET", path.as_str(), "");
    let mut url = String::new();
    url.append(config.rest_url.as_str());
    url.append(path.as_str());
    let headers = okx_headers(credentials, signature, ts_iso, false);
    proof {
        assert(url@ =~= config.rest_url@ + okx_get_path(symbol@, order_id@));
    }
    WireRequest { method: HttpMethod::Get, url, headers, body: String::new() }
}

/// Build the market ticker lookup.
pub fn okx_best_price_request(config: &ExchangeConfig, symbol: &str) -> (r: WireRequest)
    ensures
        r.method == HttpMethod::Get,
        r.body@.len() == 0,
        r.headers@.len() == 0,
        r.url@ == config.rest_url@ + "/api/v5/market/ticker?instId="@ + symbol@,
{
    let mut url = String::new();
    url.append(config.rest_url.as_str());
    url.append("/api/v5/market/ticker?instId=");
    url.append(symbol);
    WireRequest { method: HttpMethod::Get, url, headers: Vec::new(), body: String::new() }
}

/// An order as OKX reports it.
#[derive(Clone, Debug)]
pub struct OkxOrderRaw {
    pub ord_id: String,
    pub cl_ord_id: String,
    pub inst_id: String,
    pub side: String,
    pub ord_type: String,
    pub px: String,
    pub sz: String,
    pub fill_sz: Option<String>,
    pub avg_px: Option<String>,
    pub state: String,
    pub u_time: String,
}

/// OKX's state vocabulary, translated. A word outside it reads as
/// `Pending`, never as a terminal status.
pub open spec fn spec_okx_status(s: Seq<char>) -> OrderStatus {
    if s == "live"@ {
        OrderStatus::Open
    } else if s == "partially_filled"@ {
        OrderStatus::Partial
    } else if s == "filled"@ {
        OrderStatus::Filled
    } else if s == "canceled"@ || s == "cancelled"@ {
        OrderStatus::Cancelled
    } else {
        OrderStatus::Pending
    }
}

pub fn parse_okx_status(status: &str) -> (r: OrderStatus)
    ensures
        r == spec_okx_status(status@),
{
    if str_eq(status, "live") {
        OrderStatus::Open
    } else if str_eq(status, "partially_filled") {
        OrderStatus::Partial
    } else if str_eq(status, "filled") {
        OrderStatus::Filled
    } else if str_eq(status, "canceled") || str_eq(status, "cancelled") {
        OrderStatus::Cancelled
    } else {
        OrderStatus::Pending
    }
}

/// Decode an order from a venue answer whose code was zero. A report
/// with a fill beyond the quantity, or a fill on an order still pending,
/// open or rejected, is refused as malformed.
pub fn decode_okx_order(
    http_status: u16,
    code: &str,
    order: Option<OkxOrderRaw>,
    parse_type: bool,
    force_cancelled: bool,
) -> (r: Result<OrderResponse, AdapterError>)
    ensures
        !(200 <= http_status < 300) ==> (r matches Err(e) && e.kind == AdapterErrorKind::Http),
        (200 <= http_status < 300 && code@ != "0"@) ==> (r matches Err(e) && e.kind
            == AdapterErrorKind::Venue),
        (200 <= http_status < 300 && code@ == "0"@ && order is None) ==> (r matches Err(e)
            && e.kind == AdapterErrorKind::Parse),
        (200 <= http_status < 300 && code@ == "0"@ && (order matches Some(o)
            && spec_parse_opt_or_zero(o.fill_sz).raw <= crate::exchange::spec_parse_fixed_or_zero(
            o.sz@,
        ).raw && ((!force_cancelled && spec_okx_status(o.state@).spec_no_fill())
            ==> spec_parse_opt_or_zero(o.fill_sz).raw == 0) && ((!force_cancelled
            && spec_okx_status(o.state@) == OrderStatus::Filled) ==> 100 * spec_parse_opt_or_zero(
            o.fill_sz,
        ).raw >= 99 * crate::exchange::spec_parse_fixed_or_zero(o.sz@).raw))) ==> r is Ok,
        r matches Ok(resp) ==> ({
            &&& 200 <= http_status < 300
            &&& code@ == "0"@
            &&& order matches Some(o)
            &&& resp.wf()
            &&& resp.exchange_order_id == o.ord_id
            &&& resp.client_order_id == o.cl_ord_id
            &&& resp.symbol == o.inst_id
            &&& resp.side == (if o.side@ == "buy"@ {
                Side::Buy
            } else {
                Side::Sell
            })
            &&& resp.order_type == (if parse_type {
                if o.ord_type@ == "limit"@ {
                    OrderType::Limit
                } else {
                    OrderType::Market
                }
            } else {
                OrderType::Limit
            })
            &&& resp.price == spec_parse_fixed(o.px@)
            &&& resp.quantity == crate::exchange::spec_parse_fixed_or_zero(o.sz@)
            &&& resp.filled_quantity == spec_parse_opt_or_zero(o.fill_sz)
            &&& resp.avg_fill_price == spec_parse_opt(o.avg_px)
            &&& resp.status == (if force_cancelled {
                OrderStatus::Cancelled
            } else {
                spec_okx_status(o.state@)
            })
            &&& resp.timestamp == spec_timestamp_ms(o.u_time@)
            &&& resp.status_fill_consistent()
        }),
{
    if !(200 <= http_status && http_status < 300) {
        return Err(AdapterError::http(http_status));
    }
    if !str_eq(code, "0") {
        return Err(AdapterError::venue(String::new()));
    }
    let o = match order {
        Some(o) => o,
        None => {
            return Err(AdapterError::parse());
        },
    };
    let quantity = crate::exchange::parse_fixed_or_zero(o.sz.as_str());
    let filled = match &o.fill_sz {
        Some(s) => crate::exchange::parse_fixed_or_zero(s.as_str()),
        None => Fixed { raw: 0 },
    };
    if filled.raw > quantity.raw {
        return Err(AdapterError::parse());
    }
    let side = if str_eq(o.side.as_str(), "buy") {
        Side::Buy
    } else {
        Side::Sell
    };
    let order_type = if parse_type {
        if str_eq(o.ord_type.as_str(), "limit") {
            OrderType::Limit
        } else {
            OrderType::Market
        }
    } else {
        OrderType::Limit
    };
    let status = if force_cancelled {
        OrderStatus::Cancelled
    } else {
        parse_okx_status(o.state.as_str())
    };
    if !crate::types::fill_matches_status(status, filled, quantity) {
        return Err(AdapterError::parse());
    }
    let avg = match o.avg_px {
        Some(s) => crate::exchange::parse_fixed(s.as_str()),
        None => None,
    };
    let ts = crate::exchange::parse_timestamp_ms(o.u_time.as_str());
    Ok(
        OrderResponse {
            exchange_order_id: o.ord_id,
            client_order_id: o.cl_ord_id,
            symbol: o.inst_id,
            side,
            order_type,
            price: crate::exchange::parse_fixed(o.px.as_str()),
            quantity,
            filled_quantity: filled,
            avg_fill_price: avg,
            status,
            timestamp: ts,
        },
    )
}

/// Decode a ticker: both sides of the touch must parse.
pub fn decode_okx_ticker(http_status: u16, code: &str, bid_px: &str, ask_px: &str) -> (r:
    Result<(Fixed, Fixed), AdapterError>)
    ensures
        !(200 <= http_status < 300) ==> (r matches Err(e) && e.kind == AdapterErrorKind::Http),
        (200 <= http_status < 300 && code@ != "0"@) ==> (r matches Err(e) && e.kind
            == AdapterErrorKind::Venue),
        r matches Ok(p) ==> ({
            &&& 200 <= http_status < 300
            &&& code@ == "0"@
            &&& spec_parse_fixed(bid_px@) == Some(p.0)
            &&& spec_parse_fixed(ask_px@) == Some(p.1)
            &&& p.0.wf()
            &&& p.1.wf()
        }),
        (200 <= http_status < 300 && code@ == "0"@) ==> (r is Err <==> (spec_parse_fixed(
            bid_px@,
        ) is None || spec_parse_fixed(ask_px@) is None)),
{
    if !(200 <= http_status && http_status < 300) {
        return Err(AdapterError::http(http_status));
    }
    if !str_eq(code, "0") {
        return Err(AdapterError::venue(String::new()));
    }
    let bid = match crate::exchange::parse_fixed(bid_px) {
        Some(v) => v,
        None => {
            return Err(AdapterError::parse());
        },
    };
    let ask = match crate::exchange::parse_fixed(ask_px) {
        Some(v) => v,
        None => {
            return Err(AdapterError::parse());
        },
    };
    Ok((bid, ask))
}

} // verus!
