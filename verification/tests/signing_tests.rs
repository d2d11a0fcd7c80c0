use exec_gateway::venues::bingx::bingx_place_order;
use exec_gateway::venues::bitget::bitget_place_order;
use exec_gateway::venues::bybit::bybit_place_order;
use exec_gateway::venues::coinex::coinex_place_order;
use exec_gateway::venues::htx::htx_place_order;
use exec_gateway::venues::kucoin::kucoin_place_order;
use exec_gateway::venues::lbank::lbank_place_order;
use exec_gateway::venues::mexc::mexc_place_order;
use exec_gateway::{Credentials, ExchangeConfig, Fixed, OrderRequest, OrderType, Side};

fn fx(s: &str) -> Fixed {
    Fixed::parse(s).unwrap()
}

fn config(rest: &str) -> ExchangeConfig {
    ExchangeConfig {
        id: String::from("x"),
        rest_url: String::from(rest),
        ws_url: String::from("wss://example"),
        testnet: false,
    }
}

fn creds() -> Credentials {
    Credentials {
        api_key: String::from("key-1"),
        api_secret: String::from("topsecret"),
        passphrase: Some(String::from("phrase")),
    }
}

fn limit_buy(symbol: &str) -> OrderRequest {
    OrderRequest {
        client_order_id: String::from("cs_0123456789abcdef"),
        symbol: String::from(symbol),
        side: Side::Buy,
        order_type: OrderType::Limit,
        price: Some(fx("100.05")),
        quantity: fx("0.5"),
        reduce_only: false,
    }
}

const TS: u64 = 1_700_000_000_000;

#[test]
fn bybit_signs_timestamp_key_window_and_body() {
    let wire = bybit_place_order(&config("https://api.bybit.com"), &creds(), &limit_buy("BTCUSDT"), TS);
    assert_eq!(
        wire.body,
        "{\"category\":\"linear\",\"orderLinkId\":\"cs_0123456789abcdef\",\"orderType\":\"Limit\",\"price\":\"100.05\",\"qty\":\"0.5\",\"reduceOnly\":false,\"side\":\"Buy\",\"symbol\":\"BTCUSDT\",\"timeInForce\":\"GTC\"}"
    );
    assert_eq!(wire.url, "https://api.bybit.com/v5/order/create");
    assert_eq!(
        wire.headers[1],
        (
            String::from("X-BAPI-SIGN"),
            String::from("7d01e536d228ea86ea6585ffa8098b486ab3e8de4084ecd6ca8cd3483b5a0463")
        )
    );
    assert_eq!(wire.headers[2].1, "1700000000000");
    assert_eq!(wire.headers[3].1, "5000");
}

#[test]
fn kucoin_signs_the_call_and_the_passphrase() {
    let wire = kucoin_place_order(
        &config("https://api-futures.kucoin.com"),
        &creds(),
        &limit_buy("XBTUSDTM"),
        TS,
    );
    assert_eq!(
        wire.body,
        "{\"clientOid\":\"cs_0123456789abcdef\",\"leverage\":\"5\",\"price\":\"100.05\",\"reduceOnly\":false,\"side\":\"buy\",\"size\":\"0.5\",\"symbol\":\"XBTUSDTM\",\"type\":\"limit\"}"
    );
    assert_eq!(wire.headers[1].1, "U5/YxRwvo9jmdRIZ04gfJq+ofxVNVrCbWzTlkvZPHYk=");
    assert_eq!(wire.headers[3].1, "ylTAXHvwE/hdqGaVOmpgwYfQ84LtShSd5eCUWKI95fs=");
    assert_eq!(wire.headers[4], (String::from("KC-API-KEY-VERSION"), String::from("2")));
}

#[test]
fn bitget_signs_in_base64_with_the_passphrase_header() {
    let wire = bitget_place_order(
        &config("https://api.bitget.com"),
        &creds(),
        &limit_buy("BTCUSDT"),
        TS,
    );
    assert_eq!(wire.headers[1].1, "wll71tiBE+Jkac+Kdaf9C6Cqf99l6HhqOLFtgG5GskY=");
    assert_eq!(wire.headers[3], (String::from("ACCESS-PASSPHRASE"), String::from("phrase")));
    assert!(wire.body.contains("\"productType\":\"USDT-FUTURES\""));
    assert!(wire.body.contains("\"tradeSide\":\"open\""));
}

#[test]
fn coinex_signs_method_path_body_and_timestamp() {
    let wire = coinex_place_order(
        &config("https://api.coinex.com"),
        &creds(),
        &limit_buy("BTCUSDT"),
        TS,
    );
    assert_eq!(
        wire.body,
        "{\"amount\":\"0.5\",\"client_id\":\"cs_0123456789abcdef\",\"market\":\"BTCUSDT\",\"price\":\"100.05\",\"side\":1,\"type\":1}"
    );
    assert_eq!(
        wire.headers[1].1,
        "64d6c15ee673c823f2eb536a119aed29a2df6f69e9c0f5a7a2146e7ae2553971"
    );
}

#[test]
fn lbank_appends_the_tag_to_the_sorted_form_body() {
    let wire = lbank_place_order(&config("https://api.lbank.com"), &creds(), &limit_buy("BTCUSDT"), TS);
    assert_eq!(
        wire.body,
        "api_key=key-1&client_order_id=cs_0123456789abcdef&direction=buy&offset=open&price=100.05&symbol=BTCUSDT&timestamp=1700000000000&type=1&volume=0.5&sign=d0907024b92a386a2174267bfee73072f6fb2a983ae9ab0838dacb87bc34abad"
    );
    assert_eq!(wire.headers[0].1, "application/x-www-form-urlencoded");
}

#[test]
fn mexc_carries_the_signature_in_query_and_header() {
    let wire = mexc_place_order(&config("https://contract.mexc.com"), &creds(), &limit_buy("BTC_USDT"), TS);
    assert_eq!(
        wire.body,
        "symbol=BTC_USDT&side=1&openType=2&type=1&vol=0.5&timestamp=1700000000000&price=100.05&externalOid=cs_0123456789abcdef"
    );
    assert_eq!(
        wire.url,
        "https://contract.mexc.com/api/v1/private/order/submit?signature=1ed090388fa39739ad2d8d4e36e7736a6089fed9dd9c04d34938dfef0e8368f7"
    );
    assert_eq!(wire.headers[2].1, "1ed090388fa39739ad2d8d4e36e7736a6089fed9dd9c04d34938dfef0e8368f7");
}

#[test]
fn bingx_sorts_parameters_before_signing() {
    let wire = bingx_place_order(&config("https://open-api.bingx.com"), &creds(), &limit_buy("BTC-USDT"), TS);
    assert_eq!(
        wire.url,
        "https://open-api.bingx.com/openApi/swap/v2/trade/order?clientOrderId=cs_0123456789abcdef&price=100.05&quantity=0.5&side=BUY&symbol=BTC-USDT&timestamp=1700000000000&type=LIMIT&signature=f3fd2f7754c3a84252ba3af6c0076ba801be46f12c1e4a3be757680c9f6f7c1f"
    );
}

#[test]
fn htx_signs_method_host_path_and_encoded_timestamp() {
    let wire = htx_place_order(
        &config("https://api.htx.com"),
        &creds(),
        &limit_buy("BTC-USDT"),
        "2024-01-01T00:00:00",
    );
    assert_eq!(
        wire.url,
        "https://api.htx.com/linear-swap-api/v1/swap_cross_order?AccessKeyId=key-1&SignatureMethod=HmacSHA256&SignatureVersion=2&Timestamp=2024-01-01T00%3A00%3A00&Signature=%2F47jHRrTq5dYE7pGAKBKOI6nYHQau6pbqquMmXcf6q8%3D"
    );
    assert_eq!(
        wire.body,
        "{\"contract_code\":\"BTC-USDT\",\"direction\":\"buy\",\"lever_rate\":5,\"offset\":\"open\",\"order_price_type\":\"limit\",\"price\":\"100.05\",\"reduce_only\":0,\"volume\":1}"
    );
}

#[test]
fn htx_signs_against_the_legacy_host_when_the_url_names_it() {
    let wire = htx_place_order(
        &config("https://api.hbdm.huobi.com"),
        &creds(),
        &limit_buy("BTC-USDT"),
        "2024-01-01T00:00:00",
    );
    assert!(wire.url.ends_with("&Signature=8RzNQOvFpQbrbN22QnFjq%2B6gQSe6k1nnPwFcJMiYJrU%3D"));
}
