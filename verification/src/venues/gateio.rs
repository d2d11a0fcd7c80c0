//! Gate.io futures adapter: JSON bodies with signed integer contract
//! counts, HMAC-SHA512 in hex over method, path, query, a SHA-512 body
//! digest, and a seconds timestamp.

use vstd::prelude::*;
use vstd::string::{StringExecFns, StringSliceAdditionalSpecFns};
use vstd::utf8::encode_utf8;

use crate::codec::{sha512, sha512_of, spec_hex_lower, hex_encode};
use crate::exchange::{spec_parse_opt, spec_whole_contracts, whole_contracts,
    header, json_str, push_json_str, sign_hex_sha512, sign_hex_sha512_spec, spec_parse_fixed,
    str_eq, HttpMethod, WireRequest,
};
use crate::fixed::{dec_digits, spec_fixed_str, Fixed, SCALE};
use crate::types::{
    AdapterError, AdapterErrorKind, Credentials, ExchangeConfig, OrderRequest, OrderResponse,
    OrderStatus, OrderType, Side,
};

verus! {

/// The place-order JSON body, keys in lexical order. A sell carries a
/// negative contract count.
pub open spec fn gateio_place_body(req: OrderRequest) -> Seq<char> {
    "{\"contract\":"@ + json_str(req.symbol@) + ",\"price\":"@ + (if req.price is Some {
        json_str(spec_fixed_str(req.price->Some_0.raw as nat))
    } else {
        json_str("0"@)
    }) + ",\"reduce_only\":"@ + (if req.reduce_only {
        "true"@
    } else {
        "false"@
    }) + ",\"size\":"@ + (if req.side == Side::Sell {
        seq!['-']
    } else {
        Seq::<char>::empty()
    }) + dec_digits(spec_whole_contracts(req.quantity) as nat) + ",\"text\":"@ + json_str(
        req.client_order_id@,
    ) + ",\"tif\":"@ + (if req.order_type == OrderType::Market {
        json_str("ioc"@)
    } else {
        json_str("gtc"@)
    }) + "}"@
}

/// What the tag covers: method, path, query, the hex SHA-512 digest of the
/// body, and the seconds timestamp, each on its own line.
pub open spec fn gateio_sign_payload(
    method: Seq<char>,
    path: Seq<char>,
    query: Seq<char>,
    body: Seq<char>,
    ts_secs: u64,
) -> Seq<char> {
    method + "\n"@ + path + "\n"@ + query + "\n"@ + spec_hex_lower(sha512_of(encode_utf8(body)))
        + "\n"@ + dec_digits(ts_secs as nat)
}

fn gateio_sign(
    credentials: &Credentials,
    method: &str,
    path: &str,
    query: &str,
    body: &str,
    ts_secs: u64,
) -> (r: String)
    ensures
        r@ == sign_hex_sha512_spec(
            credentials.api_secret@,
            gateio_sign_payload(method@, path@, query@, body@, ts_secs),
        ),
{
    let digest = sha512(body.as_bytes());
    let body_hash = hex_encode(digest.as_slice());
    let mut msg = String::new();
    msg.append(method);
    msg.append("\n");
    msg.append(path);
    msg.append("\n");
    msg.append(query);
    msg.append("\n");
    msg.append(body_hash.as_str());
    msg.append("\n");
    crate::exchange::push_u64(&mut msg, ts_secs);
    proof {
        assert(msg@ =~= gateio_sign_payload(method@, path@, query@, body@, ts_secs));
    }
    sign_hex_sha512(credentials.api_secret.as_str(), msg.as_str())
}

fn gateio_headers(credentials: &Credentials, signature: String, ts_secs: u64, with_content_type:
    bool) -> (r: Vec<(String, String)>)
    ensures
        r@.len() == (if with_content_type {
            4int
        } else {
            3int
        }),
        r@[0].0@ == "KEY"@ && r@[0].1@ == credentials.api_key@,
        r@[1].0@ == "SIGN"@ && r@[1].1 == signature,
        r@[2].0@ == "Timestamp"@ && r@[2].1@ == dec_digits(ts_secs as nat),
        with_content_type ==> r@[3].0@ == "Content-Type"@ && r@[3].1@ == "application/json"@,
{
    let mut headers: Vec<(String, String)> = Vec::new();
    headers.push(header("KEY", credentials.api_key.clone()));
    headers.push(header("SIGN", signature));
    headers.push(header("Timestamp", crate::fixed::u64_to_string(ts_secs)));
    if with_content_type {
        headers.push(header("Content-Type", String::from_str("application/json")));
    }
    headers
}

/// Build and sign a place-order call.
pub fn gateio_place_order(
    config: &ExchangeConfig,
    credentials: &Credentials,
    request: &OrderRequest,
    ts_secs: u64,
) -> (r: WireRequest)
    requires
        request.wf(),
    ensures
        r.method == HttpMethod::Post,
        r.body@ == gateio_place_body(*request),
        r.url@ == config.rest_url@ + "/api/v4/futures/usdt/orders"@,
        r.headers@.len() == 4,
        r.headers@[0].0@ == "KEY"@ && r.headers@[0].1@ == credentials.api_key@,
        r.headers@[1].0@ == "SIGN"@ && r.headers@[1].1@ == sign_hex_sha512_spec(
            credentials.api_secret@,
            gateio_sign_payload(
                "POST"@,
                "/api/v4/futures/usdt/orders"@,
                Seq::empty(),
                gateio_place_body(*request),
                ts_secs,
            ),
        ),
        r.headers@[2].0@ == "Timestamp"@ && r.headers@[2].1@ == dec_digits(ts_secs as nat),
        r.headers@[3].0@ == "Content-Type"@,
{
    let mut body = String::new();
    body.append("{\"contract\":");
    push_json_str(&mut body, request.symbol.as_str());
    body.append(",\"price\":");
    if let Some(price) = request.price {
        let ps = price.to_string();
        push_json_str(&mut body, ps.as_str());
    } else {
        push_json_str(&mut body, "0");
    }
    body.append(",\"reduce_only\":");
    if request.reduce_only {
        body.append("true");
    } else {
        body.append("false");
    }
    body.append(",\"size\":");
    if request.side == Side::Sell {
        body.push('-');
    }
    let mag = whole_contracts(request.quantity);
    crate::exchange::push_u64(&mut body, mag);
    body.append(",\"text\":");
    push_json_str(&mut body, request.client_order_id.as_str());
    body.append(",\"tif\":");
    if request.order_type == OrderType::Market {
        push_json_str(&mut body, "ioc");
    } else {
        push_json_str(&mut body, "gtc");
    }
    body.append("}");
    proof {
        assert(body@ =~= gateio_place_body(*request));
        reveal_strlit("");
        assert(""@ =~= Seq::<char>::empty());
    }
    let signature = gateio_sign(
        credentials,
        "POST",
        "/api/v4/futures/usdt/orders",
        "",
        body.as_str(),
        ts_secs,
    );
    let mut url = String::new();
    url.append(config.rest_url.as_str());
    url.append("/api/v4/futures/usdt/orders");
    let headers = gateio_headers(credentials, signature, ts_secs, true);
    WireRequest { method: HttpMethod::Post, url, headers, body }
}

/// The path of a cancel or lookup: the order stands in the path itself.
pub open spec fn gateio_order_path(order_id: Seq<char>) -> Seq<char> {
    "/api/v4/futures/usdt/orders/"@ + order_id
}

fn gateio_order_call(
    config: &ExchangeConfig,
    credentials: &Credentials,
    order_id: &str,
    ts_secs: u64,
    method: &str,
) -> (r: (String, Vec<(String, String)>))
    ensures
        r.0@ == config.rest_url@ + gateio_order_path(order_id@),
        r.1@.len() == 3,
        r.1@[0].0@ == "KEY"@ && r.1@[0].1@ == credentials.api_key@,
        r.1@[1].0@ == "SIGN"@ && r.1@[1].1@ == sign_hex_sha512_spec(
            credentials.api_secret@,
            gateio_sign_payload(
                method@,
                gateio_order_path(order_id@),
                Seq::empty(),
                Seq::empty(),
                ts_secs,
            ),
        ),
        r.1@[2].0@ == "Timestamp"@,
{
    let mut path = String::new();
    path.append("/api/v4/futures/usdt/orders/");
    path.append(order_id);
    proof {
        assert(path@ =~= gateio_order_path(order_id@));
        reveal_strlit("");
        assert(""@ =~= Seq::<char>::empty());
    }
    let signature = gateio_sign(credentials, method, path.as_str(), "", "", ts_secs);
    let mut url = String::new();
    url.append(config.rest_url.as_str());
    url.append(path.as_str());
    proof {
        assert(url@ =~= config.rest_url@ + gateio_order_path(order_id@));
    }
    let headers = gateio_headers(credentials, signature, ts_secs, false);
    (url, headers)
}

/// Build and sign a cancel-order call.
pub fn gateio_cancel_order(
    config: &ExchangeConfig,
    credentials: &Credentials,
    order_id: &str,
    ts_secs: u64,
) -> (r: WireRequest)
    ensures
        r.method == HttpMethod::Delete,
        r.body@.len() == 0,
        r.url@ == config.rest_url@ + gateio_order_path(order_id@),
        r.headers@.len() == 3,
        r.headers@[1].0@ == "SIGN"@ && r.headers@[1].1@ == sign_hex_sha512_spec(
            credentials.api_secret@,
            gateio_sign_payload(
                "DELETE"@,
                gateio_order_path(order_id@),
                Seq::empty(),
                Seq::empty(),
                ts_secs,
            ),
        ),
{
    let (url, headers) = gateio_order_call(config, credentials, order_id, ts_secs, "DELETE");
    WireRequest { method: HttpMethod::Delete, url, headers, body: String::new() }
}

/// Build and sign an order lookup.
pub fn gateio_get_order(
    config: &ExchangeConfig,
    credentials: &Credentials,
    order_id: &str,
    ts_secs: u64,
) -> (r: WireRequest)
    ensures
        r.method == HttpMethod::Get,
        r.body@.len() == 0,
        r.url@ == config.rest_url@ + gateio_order_path(order_id@),
        r.headers@.len() == 3,
        r.headers@[1].0@ == "SIGN"@ && r.headers@[1].1@ == sign_hex_sha512_spec(
            credentials.api_secret@,
            gateio_sign_payload(
                "GET"@,
                gateio_order_path(order_id@),
                Seq::empty(),
                Seq::empty(),
                ts_secs,
            ),
        ),
{
    let (url, headers) = gateio_order_call(config, credentials, order_id, ts_secs, "GET");
    WireRequest { method: HttpMethod::Get, url, headers, body: String::new() }
}

/// Build the ticker lookup.
pub fn gateio_best_price_request(config: &ExchangeConfig, symbol: &str) -> (r: WireRequest)
    ensures
        r.method == HttpMethod::Get,
        r.body@.len() == 0,
        r.headers@.len() == 0,
        r.url@ == config.rest_url@ + "/api/v4/futures/usdt/tickers?contract="@ + symbol@,
{
    let mut url = String::new();
    url.append(config.rest_url.as_str());
    url.append("/api/v4/futures/usdt/tickers?contract=");
    url.append(symbol);
    WireRequest { method: HttpMethod::Get, url, headers: Vec::new(), body: String::new() }
}

/// An order as Gate.io reports it, in whole contract units. The creation
/// time arrives in milliseconds.
#[derive(Clone, Debug)]
pub struct GateioOrderRaw {
    pub id: i64,
    pub contract: String,
    pub size: i64,
    pub price: String,
    pub time_in_force: String,
    pub fill_price: Option<String>,
    pub left: i64,
    pub status: String,
    pub create_time_ms: i64,
    pub text: Option<String>,
}

/// Gate.io's status vocabulary, translated. A word outside it reads as
/// `Pending`, never as a terminal status.
pub open spec fn spec_gateio_status(s: Seq<char>) -> OrderStatus {
    if s == "open"@ {
        OrderStatus::Open
    } else if s == "finished"@ {
        OrderStatus::Filled
    } else if s == "cancelled"@ {
        OrderStatus::Cancelled
    } else {
        OrderStatus::Pending
    }
}

pub fn parse_gateio_status(status: &str) -> (r: OrderStatus)
    ensures
        r == spec_gateio_status(status@),
{
    if str_eq(status, "open") {
        OrderStatus::Open
    } else if str_eq(status, "finished") {
        OrderStatus::Filled
    } else if str_eq(status, "cancelled") {
        OrderStatus::Cancelled
    } else {
        OrderStatus::Pending
    }
}

/// Decode an order. The contract count must lie within the supported
/// range and what is left open within what was ordered; a sell is a
/// negative count. An order still pending, open or rejected must have
/// everything left open, else the report is refused as malformed.
pub fn decode_gateio_order(http_status: u16, order: GateioOrderRaw, force_cancelled: bool) -> (r:
    Result<OrderResponse, AdapterError>)
    ensures
        !(200 <= http_status < 300) ==> (r matches Err(e) && e.kind == AdapterErrorKind::Http),
        (200 <= http_status < 300 && order.id >= 0 && -1_000_000_000 <= order.size
            <= 1_000_000_000 && 0 <= order.left && order.left <= (if order.size >= 0 {
            order.size as int
        } else {
            -(order.size as int)
        }) && ((!force_cancelled && spec_gateio_status(order.status@).spec_no_fill())
            ==> order.left == (if order.size >= 0 {
            order.size as int
        } else {
            -(order.size as int)
        })) && ((!force_cancelled && spec_gateio_status(order.status@) == OrderStatus::Filled)
            ==> 100 * order.left <= (if order.size >= 0 {
            order.size as int
        } else {
            -(order.size as int)
        }))) ==> r is Ok,
        r matches Ok(resp) ==> ({
            &&& 200 <= http_status < 300
            &&& order.id >= 0
            &&& resp.wf()
            &&& resp.exchange_order_id@ == dec_digits(order.id as nat)
            &&& resp.client_order_id@ == (match order.text {
                Some(t) => t@,
                None => Seq::<char>::empty(),
            })
            &&& resp.symbol == order.contract
            &&& resp.side == (if order.size > 0 {
                Side::Buy
            } else {
                Side::Sell
            })
            &&& resp.order_type == (if force_cancelled {
                OrderType::Limit
            } else if order.time_in_force@ == "ioc"@ {
                OrderType::Market
            } else {
                OrderType::Limit
            })
            &&& resp.price == spec_parse_fixed(order.price@)
            &&& resp.quantity.raw == (if order.size >= 0 {
                order.size as int
            } else {
                -(order.size as int)
            }) * SCALE
            &&& resp.filled_quantity.raw == ((if order.size >= 0 {
                order.size as int
            } else {
                -(order.size as int)
            }) - order.left) * SCALE
            &&& resp.avg_fill_price == spec_parse_opt(order.fill_price)
            &&& resp.status == (if force_cancelled {
                OrderStatus::Cancelled
            } else {
                spec_gateio_status(order.status@)
            })
            &&& resp.timestamp == order.create_time_ms
            &&& resp.status_fill_consistent()
        }),
{
    if !(200 <= http_status && http_status < 300) {
        return Err(AdapterError::http(http_status));
    }
    if order.id < 0 {
        return Err(AdapterError::parse());
    }
    if order.size < -1_000_000_000 || order.size > 1_000_000_000 {
        return Err(AdapterError::parse());
    }
    let mag: i64 = if order.size >= 0 {
        order.size
    } else {
        -order.size
    };
    if order.left < 0 || order.left > mag {
        return Err(AdapterError::parse());
    }
    let quantity = Fixed { raw: (mag as u64) * SCALE };
    let filled = Fixed { raw: ((mag - order.left) as u64) * SCALE };
    let side = if order.size > 0 {
        Side::Buy
    } else {
        Side::Sell
    };
    let order_type = if force_cancelled {
        OrderType::Limit
    } else if str_eq(order.time_in_force.as_str(), "ioc") {
        OrderType::Market
    } else {
        OrderType::Limit
    };
    let status = if force_cancelled {
        OrderStatus::Cancelled
    } else {
        parse_gateio_status(order.status.as_str())
    };
    if !crate::types::fill_matches_status(status, filled, quantity) {
        return Err(AdapterError::parse());
    }
    let avg = match order.fill_price {
        Some(p) => crate::exchange::parse_fixed(p.as_str()),
        None => None,
    };
    let client_order_id = match order.text {
        Some(t) => t,
        None => String::new(),
    };
    Ok(
        OrderResponse {
            exchange_order_id: crate::fixed::u64_to_string(order.id as u64),
            client_order_id,
            symbol: order.contract,
            side,
            order_type,
            price: crate::exchange::parse_fixed(order.price.as_str()),
            quantity,
            filled_quantity: filled,
            avg_fill_price: avg,
            status,
            timestamp: order.create_time_ms,
        },
    )
}

/// Decode a ticker: both sides of the touch must parse.
pub fn decode_gateio_ticker(http_status: u16, highest_bid: &str, lowest_ask: &str) -> (r: Result<
    (Fixed, Fixed),
    AdapterError,
>)
    ensures
        !(200 <= http_status < 300) ==> (r matches Err(e) && e.kind == AdapterErrorKind::Http),
        r matches Ok(p) ==> ({
            &&& 200 <= http_status < 300
            &&& spec_parse_fixed(highest_bid@) == Some(p.0)
            &&& spec_parse_fixed(lowest_ask@) == Some(p.1)
            &&& p.0.wf()
            &&& p.1.wf()
        }),
        (200 <= http_status < 300) ==> (r is Err <==> (spec_parse_fixed(highest_bid@) is None
            || spec_parse_fixed(lowest_ask@) is None)),
{
    if !(200 <= http_status && http_status < 300) {
        return Err(AdapterError::http(http_status));
    }
    let bid = match crate::exchange::parse_fixed(highest_bid) {
        Some(v) => v,
        None => {
            return Err(AdapterError::parse());
        },
    };
    let ask = match crate::exchange::parse_fixed(lowest_ask) {
        Some(v) => v,
        None => {
            return Err(AdapterError::parse());
        },
    };
    Ok((bid, ask))
}

} // verus!
