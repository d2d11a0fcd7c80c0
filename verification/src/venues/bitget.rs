//! Bitget futures adapter: JSON bodies, millisecond timestamps,
//! HMAC-SHA256 in base64 over timestamp, method, path and body, and a
//! mandatory passphrase header.

use vstd::prelude::*;
use vstd::string::StringExecFns;

use crate::exchange::{spec_parse_opt, spec_parse_opt_or_zero, 
    header, json_str, push_json_str, sign_b64_sha256, sign_b64_sha256_spec, spec_parse_fixed,
    spec_side_lower, spec_type_lower, str_eq, HttpMethod, WireRequest, order_type_lower,
    side_lower, spec_timestamp_ms,
};
use crate::fixed::{dec_digits, spec_fixed_str, u64_to_string, Fixed};
use crate::types::{
    AdapterError, AdapterErrorKind, Credentials, ExchangeConfig, OrderRequest, OrderResponse,
    OrderStatus, OrderType, Side,
};

verus! {

/// The place-order JSON body, keys in lexical order.
pub open spec fn bitget_place_body(req: OrderRequest) -> Seq<char> {
    "{\"clientOid\":"@ + json_str(req.client_order_id@)
        + ",\"marginCoin\":\"USDT\",\"marginMode\":\"crossed\",\"orderType\":"@ + json_str(
        spec_type_lower(req.order_type),
    ) + ",\"price\":"@ + (if req.price is Some {
        json_str(spec_fixed_str(req.price->Some_0.raw as nat))
    } else {
        "null"@
    }) + ",\"productType\":\"USDT-FUTURES\",\"reduceOnly\":"@ + (if req.reduce_only {
        "true"@
    } else {
        "false"@
    }) + ",\"side\":"@ + json_str(spec_side_lower(req.side)) + ",\"size\":"@ + json_str(
        spec_fixed_str(req.quantity.raw as nat),
    ) + ",\"symbol\":"@ + json_str(req.symbol@) + ",\"tradeSide\":\"open\"}"@
}

/// What the tag covers: millisecond timestamp, method, path, body.
pub open spec fn bitget_sign_payload(ts: u64, method: Seq<char>, path: Seq<char>, body: Seq<
    char,
>) -> Seq<char> {
    dec_digits(ts as nat) + method + path + body
}

fn bitget_sign(credentials: &Credentials, timestamp_ms: u64, method: &str, path: &str, body:
    &str) -> (r: String)
    ensures
        r@ == sign_b64_sha256_spec(
            credentials.api_secret@,
            bitget_sign_payload(timestamp_ms, method@, path@, body@),
        ),
{
    let mut msg = String::new();
    crate::exchange::push_u64(&mut msg, timestamp_ms);
    msg.append(method);
    msg.append(path);
    msg.append(body);
    proof {
        assert(msg@ =~= bitget_sign_payload(timestamp_ms, method@, path@, body@));
    }
    sign_b64_sha256(credentials.api_secret.as_str(), msg.as_str())
}

fn bitget_headers(credentials: &Credentials, signature: String, timestamp_ms: u64,
    with_content_type: bool) -> (r: Vec<(String, String)>)
    ensures
        r@.len() == (if with_content_type {
            5int
        } else {
            4int
        }),
        r@[0].0@ == "ACCESS-KEY"@ && r@[0].1@ == credentials.api_key@,
        r@[1].0@ == "ACCESS-SIGN"@ && r@[1].1 == signature,
        r@[2].0@ == "ACCESS-TIMESTAMP"@ && r@[2].1@ == dec_digits(timestamp_ms as nat),
        r@[3].0@ == "ACCESS-PASSPHRASE"@ && r@[3].1@ == (match credentials.passphrase {
            Some(p) => p@,
            None => Seq::<char>::empty(),
        }),
        with_content_type ==> r@[4].0@ == "Content-Type"@ && r@[4].1@ == "application/json"@,
{
    let passphrase = match &credentials.passphrase {
        Some(p) => p.clone(),
        None => String::new(),
    };
    let mut headers: Vec<(String, String)> = Vec::new();
    headers.push(header("ACCESS-KEY", credentials.api_key.clone()));
    headers.push(header("ACCESS-SIGN", signature));
    headers.push(header("ACCESS-TIMESTAMP", u64_to_string(timestamp_ms)));
    headers.push(header("ACCESS-PASSPHRASE", passphrase));
    if with_content_type {
        headers.push(header("Content-Type", String::from_str("application/json")));
    }
    headers
}

/// Build and sign a place-order call.
pub fn bitget_place_order(
    config: &ExchangeConfig,
    credentials: &Credentials,
    request: &OrderRequest,
    timestamp_ms: u64,
) -> (r: WireRequest)
    requires
        request.wf(),
    ensures
        r.method == HttpMethod::Post,
        r.body@ == bitget_place_body(*request),
        r.url@ == config.rest_url@ + "/api/v2/mix/order/place-order"@,
        r.headers@.len() == 5,
        r.headers@[0].0@ == "ACCESS-KEY"@ && r.headers@[0].1@ == credentials.api_key@,
        r.headers@[1].0@ == "ACCESS-SIGN"@ && r.headers@[1].1@ == sign_b64_sha256_spec(
            credentials.api_secret@,
            bitget_sign_payload(
                timestamp_ms,
                "POST"@,
                "/api/v2/mix/order/place-order"@,
                bitget_place_body(*request),
            ),
        ),
        r.headers@[2].0@ == "ACCESS-TIMESTAMP"@,
        r.headers@[3].0@ == "ACCESS-PASSPHRASE"@ && r.headers@[3].1@ == (
        match credentials.passphrase {
            Some(p) => p@,
            None => Seq::<char>::empty(),
        }),
        r.headers@[4].0@ == "Content-Type"@,
{
    let mut body = String::new();
    body.append("{\"clientOid\":");
    push_json_str(&mut body, request.client_order_id.as_str());
    body.append(",\"marginCoin\":\"USDT\",\"marginMode\":\"crossed\",\"orderType\":");
    push_json_str(&mut body, order_type_lower(request.order_type));
    body.append(",\"price\":");
    if let Some(price) = request.price {
        let ps = price.to_string();
        push_json_str(&mut body, ps.as_str());
    } else {
        body.append("null");
    }
    body.append(",\"productType\":\"USDT-FUTURES\",\"reduceOnly\":");
    if request.reduce_only {
        body.append("true");
    } else {
        body.append("false");
    }
    body.append(",\"side\":");
    push_json_str(&mut body, side_lower(request.side));
    body.append(",\"size\":");
    let qs = request.quantity.to_string();
    push_json_str(&mut body, qs.as_str());
    body.append(",\"symbol\":");
    push_json_str(&mut body, request.symbol.as_str());
    body.append(",\"tradeSide\":\"open\"}");
    proof {
        assert(body@ =~= bitget_place_body(*request));
    }
    let signature = bitget_sign(
        credentials,
        timestamp_ms,
        "POST",
        "/api/v2/mix/order/place-order",
        body.as_str(),
    );
    let mut url = String::new();
    url.append(config.rest_url.as_str());
    url.append("/api/v2/mix/order/place-order");
    let headers = bitget_headers(credentials, signature, timestamp_ms, true);
    WireRequest { method: HttpMethod::Post, url, headers, body }
}

/// The cancel JSON body, keys in lexical order.
pub open spec fn bitget_cancel_body(symbol: Seq<char>, order_id: Seq<char>) -> Seq<char> {
    "{\"orderId\":"@ + json_str(order_id) + ",\"productType\":\"USDT-FUTURES\",\"symbol\":"@
        + json_str(symbol) + "}"@
}

/// Build and sign a cancel-order call.
pub fn bitget_cancel_order(
    config: &ExchangeConfig,
    credentials: &Credentials,
    symbol: &str,
    order_id: &str,
    timestamp_ms: u64,
) -> (r: WireRequest)
    ensures
        r.method == HttpMethod::Post,
        r.body@ == bitget_cancel_body(symbol@, order_id@),
        r.url@ == config.rest_url@ + "/api/v2/mix/order/cancel-order"@,
        r.headers@.len() == 5,
        r.headers@[1].0@ == "ACCESS-SIGN"@ && r.headers@[1].1@ == sign_b64_sha256_spec(
            credentials.api_secret@,
            bitget_sign_payload(
                timestamp_ms,
                "POST"@,
                "/api/v2/mix/order/cancel-order"@,
                bitget_cancel_body(symbol@, order_id@),
            ),
        ),
{
    let mut body = String::new();
    body.append("{\"orderId\":");
    push_json_str(&mut body, order_id);
    body.append(",\"productType\":\"USDT-FUTURES\",\"symbol\":");
    push_json_str(&mut body, symbol);
    body.append("}");
    proof {
        assert(body@ =~= bitget_cancel_body(symbol@, order_id@));
    }
    let signature = bitget_sign(
        credentials,
        timestamp_ms,
        "POST",
        "/api/v2/mix/order/cancel-order",
        body.as_str(),
    );
    let mut url = String::new();
    url.append(config.rest_url.as_str());
    url.append("/api/v2/mix/order/cancel-order");
    let headers = bitget_headers(credentials, signature, timestamp_ms, true);
    WireRequest { method: HttpMethod::Post, url, headers, body }
}

/// The queried path of an order lookup, which the tag covers whole.
pub open spec fn bitget_get_path(symbol: Seq<char>, order_id: Seq<char>) -> Seq<char> {
    "/api/v2/mix/order/detail?symbol="@ + symbol + "&productType=USDT-FUTURES&orderId="@
        + order_id
}

/// Build and sign an order lookup.
pub fn bitget_get_order(
    config: &ExchangeConfig,
    credentials: &Credentials,
    symbol: &str,
    order_id: &str,
    timestamp_ms: u64,
) -> (r: WireRequest)
    ensures
        r.method == HttpMethod::Get,
        r.body@.len() == 0,
        r.url@ == config.rest_url@ + bitget_get_path(symbol@, order_id@),
        r.headers@.len() == 4,
        r.headers@[1].0@ == "ACCESS-SIGN"@ && r.headers@[1].1@ == sign_b64_sha256_spec(
            credentials.api_secret@,
            bitget_sign_payload(
                timestamp_ms,
                "GET"@,
                bitget_get_path(symbol@, order_id@),
                Seq::empty(),
            ),
        ),
{
    let mut path = String::new();
    path.append("/api/v2/mix/order/detail?symbol=");
    path.append(symbol);
    path.append("&productType=USDT-FUTURES&orderId=");
    path.append(order_id);
    proof {
        assert(path@ =~= bitget_get_path(symbol@, order_id@));
        reveal_strlit("");
        assert(""@ =~= Seq::<char>::empty());
    }
    let signature = bitget_sign(credentials, timestamp_ms, "GET", path.as_str(), "");
    let mut url = String::new();
    url.append(config.rest_url.as_str());
    url.append(path.as_str());
    proof {
        assert(url@ =~= config.rest_url@ + bitget_get_path(symbol@, order_id@));
    }
    let headers = bitget_headers(credentials, signature, timestamp_ms, false);
    WireRequest { method: HttpMethod::Get, url, headers, body: String::new() }
}

/// Build the market ticker lookup.
pub fn bitget_best_price_request(config: &ExchangeConfig, symbol: &str) -> (r: WireRequest)
    ensures
        r.method == HttpMethod::Get,
        r.body@.len() == 0,
        r.headers@.len() == 0,
        r.url@ == config.rest_url@ + "/api/v2/mix/market/ticker?symbol="@ + symbol@
            + "&productType=USDT-FUTURES"@,
{
    let mut url = String::new();
    url.append(config.rest_url.as_str());
    url.append("/api/v2/mix/market/ticker?symbol=");
    url.append(symbol);
    url.append("&productType=USDT-FUTURES");
    WireRequest { method: HttpMethod::Get, url, headers: Vec::new(), body: String::new() }
}

/// An order as Bitget reports it.
#[derive(Clone, Debug)]
pub struct BitgetOrderRaw {
    pub order_id: String,
    pub client_oid: Option<String>,
    pub symbol: String,
    pub side: String,
    pub order_type: String,
    pub price: String,
    pub size: String,
    pub filled_qty: Option<String>,
    pub price_avg: Option<String>,
    pub state: String,
    pub c_time: String,
}

/// Bitget's state vocabulary, translated. A word outside it reads as
/// `Pending`, never as a terminal status.
pub open spec fn spec_bitget_status(s: Seq<char>) -> OrderStatus {
    if s == "new"@ || s == "init"@ {
        OrderStatus::Open
    } else if s == "partial-fill"@ || s == "partially_filled"@ {
        OrderStatus::Partial
    } else if s == "full-fill"@ || s == "filled"@ {
        OrderStatus::Filled
    } else if s == "cancelled"@ || s == "canceled"@ {
        OrderStatus::Cancelled
    } else {
        OrderStatus::Pending
    }
}

pub fn parse_bitget_status(state: &str) -> (r: OrderStatus)
    ensures
        r == spec_bitget_status(state@),
{
    if str_eq(state, "new") || str_eq(state, "init") {
        OrderStatus::Open
    } else if str_eq(state, "partial-fill") || str_eq(state, "partially_filled") {
        OrderStatus::Partial
    } else if str_eq(state, "full-fill") || str_eq(state, "filled") {
        OrderStatus::Filled
    } else if str_eq(state, "cancelled") || str_eq(state, "canceled") {
        OrderStatus::Cancelled
    } else {
        OrderStatus::Pending
    }
}

/// Decode an order from a venue answer; the venue code must be `00000`.
/// A report with a fill beyond the quantity, or a fill on an order still
/// pending, open or rejected, is refused as malformed.
pub fn decode_bitget_order(
    http_status: u16,
    code: &str,
    order: Option<BitgetOrderRaw>,
    parse_type: bool,
    force_cancelled: bool,
) -> (r: Result<OrderResponse, AdapterError>)
    ensures
        !(200 <= http_status < 300) ==> (r matches Err(e) && e.kind == AdapterErrorKind::Http),
        (200 <= http_status < 300 && code@ != "00000"@) ==> (r matches Err(e) && e.kind
            == AdapterErrorKind::Venue),
        (200 <= http_status < 300 && code@ == "00000"@ && order is None) ==> (r matches Err(e)
            && e.kind == AdapterErrorKind::Parse),
        (200 <= http_status < 300 && code@ == "00000"@ && (order matches Some(o)
            && spec_parse_opt_or_zero(o.filled_qty).raw
            <= crate::exchange::spec_parse_fixed_or_zero(o.size@).raw && ((!force_cancelled
            && spec_bitget_status(o.state@).spec_no_fill()) ==> spec_parse_opt_or_zero(
            o.filled_qty,
        ).raw == 0) && ((!force_cancelled && spec_bitget_status(o.state@) == OrderStatus::Filled)
            ==> 100 * spec_parse_opt_or_zero(o.filled_qty).raw >= 99
            * crate::exchange::spec_parse_fixed_or_zero(o.size@).raw))) ==> r is Ok,
        r matches Ok(resp) ==> ({
            &&& 200 <= http_status < 300
            &&& code@ == "00000"@
            &&& order matches Some(o)
            &&& resp.wf()
            &&& resp.exchange_order_id == o.order_id
            &&& resp.client_order_id@ == (match o.client_oid {
                Some(c) => c@,
                None => Seq::<char>::empty(),
            })
            &&& resp.symbol == o.symbol
            &&& resp.side == (if o.side@ == "buy"@ {
                Side::Buy
            } else {
                Side::Sell
            })
            &&& resp.order_type == (if parse_type {
                if o.order_type@ == "limit"@ {
                    OrderType::Limit
                } else {
                    OrderType::Market
                }
            } else {
                OrderType::Limit
            })
            &&& resp.price == spec_parse_fixed(o.price@)
            &&& resp.quantity == crate::exchange::spec_parse_fixed_or_zero(o.size@)
            &&& resp.filled_quantity == spec_parse_opt_or_zero(o.filled_qty)
            &&& resp.avg_fill_price == spec_parse_opt(o.price_avg)
            &&& resp.status == (if force_cancelled {
                OrderStatus::Cancelled
            } else {
                spec_bitget_status(o.state@)
            })
            &&& resp.timestamp == spec_timestamp_ms(o.c_time@)
            &&& resp.status_fill_consistent()
        }),
{
    if !(200 <= http_status && http_status < 300) {
        return Err(AdapterError::http(http_status));
    }
    if !str_eq(code, "00000") {
        return Err(AdapterError::venue(String::new()));
    }
    let o = match order {
        Some(o) => o,
        None => {
            return Err(AdapterError::parse());
        },
    };
    let quantity = crate::exchange::parse_fixed_or_zero(o.size.as_str());
    let filled = match &o.filled_qty {
        Some(s) => crate::exchange::parse_fixed_or_zero(s.as_str()),
        None => Fixed { raw: 0 },
    };
    if filled.raw > quantity.raw {
        return Err(AdapterError::parse());
    }
    let side = if str_eq(o.side.as_str(), "buy") {
        Side::Buy
    } else {
        Side::Sell
    };
    let order_type = if parse_type {
        if str_eq(o.order_type.as_str(), "limit") {
            OrderType::Limit
        } else {
            OrderType::Market
        }
    } else {
        OrderType::Limit
    };
    let status = if force_cancelled {
        OrderStatus::Cancelled
    } else {
        parse_bitget_status(o.state.as_str())
    };
    if !crate::types::fill_matches_status(status, filled, quantity) {
        return Err(AdapterError::parse());
    }
    let avg = match o.price_avg {
        Some(s) => crate::exchange::parse_fixed(s.as_str()),
        None => None,
    };
    let ts = crate::exchange::parse_timestamp_ms(o.c_time.as_str());
    let client_order_id = match o.client_oid {
        Some(c) => c,
        None => String::new(),
    };
    Ok(
        OrderResponse {
            exchange_order_id: o.order_id,
            client_order_id,
            symbol: o.symbol,
            side,
            order_type,
            price: crate::exchange::parse_fixed(o.price.as_str()),
            quantity,
            filled_quantity: filled,
            avg_fill_price: avg,
            status,
            timestamp: ts,
        },
    )
}

/// Decode a ticker: both sides of the touch must parse.
pub fn decode_bitget_ticker(http_status: u16, code: &str, best_bid: &str, best_ask: &str) -> (r:
    Result<(Fixed, Fixed), AdapterError>)
    ensures
        !(200 <= http_status < 300) ==> (r matches Err(e) && e.kind == AdapterErrorKind::Http),
        (200 <= http_status < 300 && code@ != "00000"@) ==> (r matches Err(e) && e.kind
            == AdapterErrorKind::Venue),
        r matches Ok(p) ==> ({
            &&& 200 <= http_status < 300
            &&& code@ == "00000"@
            &&& spec_parse_fixed(best_bid@) == Some(p.0)
            &&& spec_parse_fixed(best_ask@) == Some(p.1)
            &&& p.0.wf()
            &&& p.1.wf()
        }),
        (200 <= http_status < 300 && code@ == "00000"@) ==> (r is Err <==> (spec_parse_fixed(
            best_bid@,
        ) is None || spec_parse_fixed(best_ask@) is None)),
{
    if !(200 <= http_status && http_status < 300) {
        return Err(AdapterError::http(http_status));
    }
    if !str_eq(code, "00000") {
        return Err(AdapterError::venue(String::new()));
    }
    let bid = match crate::exchange::parse_fixed(best_bid) {
        Some(v) => v,
        None => {
            return Err(AdapterError::parse());
        },
    };
    let ask = match crate::exchange::parse_fixed(best_ask) {
        Some(v) => v,
        None => {
            return Err(AdapterError::parse());
        },
    };
    Ok((bid, ask))
}

} // verus!
