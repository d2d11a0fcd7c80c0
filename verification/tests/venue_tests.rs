use exec_gateway::venues::binance::{
    binance_place_order, decode_binance_order, decode_binance_ticker, parse_binance_status,
    BinanceOrderRaw,
};
use exec_gateway::venues::bingx::parse_bingx_status;
use exec_gateway::venues::bitget::parse_bitget_status;
use exec_gateway::venues::bybit::{decode_bybit_place, parse_bybit_status, BybitOrderIdsRaw};
use exec_gateway::venues::coinex::parse_coinex_status;
use exec_gateway::venues::gateio::{
    decode_gateio_order, gateio_place_order, parse_gateio_status, GateioOrderRaw,
};
use exec_gateway::venues::htx::parse_htx_status;
use exec_gateway::venues::kucoin::parse_kucoin_status;
use exec_gateway::venues::lbank::parse_lbank_status;
use exec_gateway::venues::mexc::parse_mexc_status;
use exec_gateway::venues::okx::{okx_place_order, parse_okx_status};
use exec_gateway::{
    generate_client_order_id, venue_from_id, venue_id, AdapterErrorKind, Credentials,
    ExchangeConfig, Fixed, HttpMethod, OrderRequest, OrderStatus, OrderType, Side, Venue,
};

fn fx(s: &str) -> Fixed {
    Fixed::parse(s).unwrap()
}

fn config(rest: &str) -> ExchangeConfig {
    ExchangeConfig {
        id: String::from("x"),
        rest_url: String::from(rest),
        ws_url: String::from("wss://example"),
        testnet: false,
    }
}

fn creds() -> Credentials {
    Credentials {
        api_key: String::from("key-1"),
        api_secret: String::from("topsecret"),
        passphrase: Some(String::from("phrase")),
    }
}

fn limit_buy(symbol: &str) -> OrderRequest {
    OrderRequest {
        client_order_id: String::from("cs_0123456789abcdef"),
        symbol: String::from(symbol),
        side: Side::Buy,
        order_type: OrderType::Limit,
        price: Some(fx("100.05")),
        quantity: fx("0.5"),
        reduce_only: false,
    }
}

#[test]
fn client_order_ids_have_the_published_shape() {
    let id = generate_client_order_id();
    assert_eq!(id.len(), 19);
    assert!(id.starts_with("cs_"));
    assert!(id[3..].chars().all(|c| c.is_ascii_hexdigit() && !c.is_ascii_uppercase()));
    assert_ne!(generate_client_order_id(), id);
}

#[test]
fn venue_registry_round_trips() {
    for v in [
        Venue::Binance,
        Venue::Bybit,
        Venue::Okx,
        Venue::Mexc,
        Venue::Bitget,
        Venue::Kucoin,
        Venue::Gateio,
        Venue::Bingx,
        Venue::Coinex,
        Venue::Lbank,
        Venue::Htx,
    ] {
        assert_eq!(venue_from_id(venue_id(v)), Some(v));
    }
    assert_eq!(venue_from_id("foo"), None);
}

#[test]
fn status_tables_translate_known_words() {
    assert_eq!(parse_binance_status("NEW"), OrderStatus::Open);
    assert_eq!(parse_binance_status("PARTIALLY_FILLED"), OrderStatus::Partial);
    assert_eq!(parse_binance_status("FILLED"), OrderStatus::Filled);
    assert_eq!(parse_binance_status("CANCELED"), OrderStatus::Cancelled);
    assert_eq!(parse_binance_status("REJECTED"), OrderStatus::Rejected);
    assert_eq!(parse_binance_status("EXPIRED"), OrderStatus::Expired);
    assert_eq!(parse_bybit_status("New"), OrderStatus::Open);
    assert_eq!(parse_bybit_status("PartiallyFilled"), OrderStatus::Partial);
    assert_eq!(parse_okx_status("live"), OrderStatus::Open);
    assert_eq!(parse_okx_status("partially_filled"), OrderStatus::Partial);
    assert_eq!(parse_okx_status("filled"), OrderStatus::Filled);
    assert_eq!(parse_okx_status("canceled"), OrderStatus::Cancelled);
    assert_eq!(parse_bitget_status("full-fill"), OrderStatus::Filled);
    assert_eq!(parse_kucoin_status("match"), OrderStatus::Partial);
    assert_eq!(parse_gateio_status("finished"), OrderStatus::Filled);
    assert_eq!(parse_bingx_status("PENDING"), OrderStatus::Open);
    assert_eq!(parse_coinex_status("part_deal"), OrderStatus::Partial);
    assert_eq!(parse_mexc_status(2), OrderStatus::Filled);
    assert_eq!(parse_lbank_status(3), OrderStatus::Filled);
    assert_eq!(parse_htx_status(7), OrderStatus::Filled);
    assert_eq!(parse_htx_status(4), OrderStatus::Partial);
}

#[test]
fn unknown_statuses_never_read_as_terminal() {
    for status in [
        parse_binance_status("???"),
        parse_bybit_status("Weird"),
        parse_okx_status("mystery"),
        parse_bitget_status("???"),
        parse_kucoin_status("???"),
        parse_gateio_status("???"),
        parse_bingx_status("???"),
        parse_coinex_status("???"),
        parse_mexc_status(99),
        parse_lbank_status(-1),
        parse_htx_status(42),
    ] {
        assert_eq!(status, OrderStatus::Pending);
    }
}

#[test]
fn binance_place_order_is_signed_in_hex() {
    let wire = binance_place_order(
        &config("https://fapi.binance.com"),
        &creds(),
        &limit_buy("BTCUSDT"),
        1_700_000_000_000,
    );
    assert_eq!(wire.method, HttpMethod::Post);
    assert_eq!(
        wire.url,
        "https://fapi.binance.com/fapi/v1/order?symbol=BTCUSDT&side=BUY&type=LIMIT&quantity=0.5&newClientOrderId=cs_0123456789abcdef&timestamp=1700000000000&price=100.05&timeInForce=GTC&signature=29236efa012c5d126be1239a8c7302d5e9776ba1f254bb65ecef32d1a6cc3a1d"
    );
    assert_eq!(wire.headers, vec![(String::from("X-MBX-APIKEY"), String::from("key-1"))]);
    assert_eq!(wire.body, "");
}

#[test]
fn okx_place_order_is_signed_in_base64() {
    let wire = okx_place_order(
        &config("https://www.okx.com"),
        &creds(),
        &limit_buy("BTC-USDT-SWAP"),
        "2024-01-02T03:04:05.678Z",
    );
    assert_eq!(wire.method, HttpMethod::Post);
    assert_eq!(wire.url, "https://www.okx.com/api/v5/trade/order");
    assert_eq!(
        wire.body,
        "{\"clOrdId\":\"cs_0123456789abcdef\",\"instId\":\"BTC-USDT-SWAP\",\"ordType\":\"limit\",\"px\":\"100.05\",\"reduceOnly\":false,\"side\":\"buy\",\"sz\":\"0.5\",\"tdMode\":\"cross\"}"
    );
    assert_eq!(wire.headers[1].0, "OK-ACCESS-SIGN");
    assert_eq!(wire.headers[1].1, "Vk6k+gjTpGzTrRJBiK9C1C1So4Ws/YiT2QJ73yoVS08=");
    assert_eq!(wire.headers[3], (String::from("OK-ACCESS-PASSPHRASE"), String::from("phrase")));
}

#[test]
fn gateio_place_order_signs_a_sha512_digest_chain() {
    let request = OrderRequest {
        client_order_id: String::from("cs_0123456789abcdef"),
        symbol: String::from("BTC_USDT"),
        side: Side::Sell,
        order_type: OrderType::Limit,
        price: Some(fx("100.05")),
        quantity: fx("3"),
        reduce_only: true,
    };
    let wire = gateio_place_order(&config("https://api.gateio.ws"), &creds(), &request, 1_700_000_000);
    assert_eq!(
        wire.body,
        "{\"contract\":\"BTC_USDT\",\"price\":\"100.05\",\"reduce_only\":true,\"size\":-3,\"text\":\"cs_0123456789abcdef\",\"tif\":\"gtc\"}"
    );
    assert_eq!(wire.headers[1].0, "SIGN");
    assert_eq!(
        wire.headers[1].1,
        "fbacd371cce26e9d1c925771c03bfc2d13f315495ef1e2f39f04da7205103bb830fca5a32967957a198c6c588da3958853217f403cc459ec0a92f3856301b9ef"
    );
}

fn binance_raw() -> BinanceOrderRaw {
    BinanceOrderRaw {
        order_id: 42,
        symbol: String::from("BTCUSDT"),
        status: String::from("PARTIALLY_FILLED"),
        client_order_id: String::from("cs_0123456789abcdef"),
        price: String::from("100.05"),
        orig_qty: String::from("0.5"),
        executed_qty: String::from("0.25"),
        avg_price: String::from("100.01"),
        side: String::from("BUY"),
        order_type: String::from("LIMIT"),
        update_time: 1_700_000_000_123,
    }
}

#[test]
fn binance_orders_decode_exactly() {
    let resp = decode_binance_order(200, binance_raw(), true).unwrap();
    assert_eq!(resp.exchange_order_id, "42");
    assert_eq!(resp.side, Side::Buy);
    assert_eq!(resp.order_type, OrderType::Limit);
    assert_eq!(resp.price, Some(fx("100.05")));
    assert_eq!(resp.quantity, fx("0.5"));
    assert_eq!(resp.filled_quantity, fx("0.25"));
    assert_eq!(resp.avg_fill_price, Some(fx("100.01")));
    assert_eq!(resp.status, OrderStatus::Partial);
    assert_eq!(resp.timestamp, 1_700_000_000_123);
}

#[test]
fn binance_decode_rejects_transport_and_nonsense() {
    assert_eq!(decode_binance_order(500, binance_raw(), true).unwrap_err().kind, AdapterErrorKind::Http);
    let mut overfilled = binance_raw();
    overfilled.executed_qty = String::from("0.6");
    assert_eq!(
        decode_binance_order(200, overfilled, true).unwrap_err().kind,
        AdapterErrorKind::Parse
    );
}

#[test]
fn binance_ticker_needs_both_sides() {
    assert_eq!(decode_binance_ticker(200, "100", "100.10").unwrap(), (fx("100"), fx("100.10")));
    assert_eq!(decode_binance_ticker(200, "oops", "100.10").unwrap_err().kind, AdapterErrorKind::Parse);
    assert_eq!(decode_binance_ticker(502, "100", "100.10").unwrap_err().kind, AdapterErrorKind::Http);
}

#[test]
fn bybit_placement_echoes_the_request() {
    let ids = BybitOrderIdsRaw {
        order_id: String::from("oid-9"),
        order_link_id: String::from("cs_0123456789abcdef"),
    };
    let request = limit_buy("BTCUSDT");
    let resp = decode_bybit_place(200, 0, Some(ids), &request, 1_700_000_000_000).unwrap();
    assert_eq!(resp.exchange_order_id, "oid-9");
    assert_eq!(resp.filled_quantity, fx("0"));
    assert_eq!(resp.status, OrderStatus::Open);
    assert_eq!(resp.quantity, fx("0.5"));
    assert_eq!(
        decode_bybit_place(200, 10001, None, &request, 0).unwrap_err().kind,
        AdapterErrorKind::Venue
    );
}

fn gateio_raw(size: i64, left: i64, status: &str) -> GateioOrderRaw {
    GateioOrderRaw {
        id: 77,
        contract: String::from("BTC_USDT"),
        size,
        price: String::from("100.05"),
        time_in_force: String::from("gtc"),
        fill_price: Some(String::from("100.00")),
        left,
        status: String::from(status),
        create_time_ms: 1_700_000_000_500,
        text: Some(String::from("cs_0123456789abcdef")),
    }
}

#[test]
fn gateio_orders_count_whole_contracts() {
    let resp = decode_gateio_order(200, gateio_raw(-3, 0, "finished"), false).unwrap();
    assert_eq!(resp.side, Side::Sell);
    assert_eq!(resp.quantity, fx("3"));
    assert_eq!(resp.filled_quantity, fx("3"));
    assert_eq!(resp.status, OrderStatus::Filled);
    assert_eq!(resp.avg_fill_price, Some(fx("100")));

    let open = decode_gateio_order(200, gateio_raw(-3, 3, "open"), false).unwrap();
    assert_eq!(open.status, OrderStatus::Open);
    assert_eq!(open.filled_quantity, fx("0"));

    // An order the venue calls open but reports a fill on breaks the
    // status-fill invariant and is refused.
    assert_eq!(
        decode_gateio_order(200, gateio_raw(-3, 1, "open"), false).unwrap_err().kind,
        AdapterErrorKind::Parse
    );
}

#[test]
fn an_open_order_reporting_a_fill_is_refused() {
    let mut raw = binance_raw();
    raw.status = String::from("NEW");
    raw.executed_qty = String::from("0.1");
    assert_eq!(
        decode_binance_order(200, raw, true).unwrap_err().kind,
        AdapterErrorKind::Parse
    );
    let mut clean = binance_raw();
    clean.status = String::from("NEW");
    clean.executed_qty = String::from("0");
    let resp = decode_binance_order(200, clean, true).unwrap();
    assert_eq!(resp.status, OrderStatus::Open);
    assert_eq!(resp.filled_quantity, fx("0"));
}

#[test]
fn a_filled_order_must_be_filled_within_rounding() {
    let mut short = binance_raw();
    short.status = String::from("FILLED");
    short.executed_qty = String::from("0.4"); // four fifths of the order
    assert_eq!(
        decode_binance_order(200, short, true).unwrap_err().kind,
        AdapterErrorKind::Parse
    );
    let mut rounded = binance_raw();
    rounded.status = String::from("FILLED");
    rounded.executed_qty = String::from("0.4975"); // within one percent of 0.5
    let resp = decode_binance_order(200, rounded, true).unwrap();
    assert_eq!(resp.status, OrderStatus::Filled);
    assert_eq!(resp.filled_quantity, fx("0.4975"));
}
