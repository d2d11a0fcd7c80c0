use exec_gateway::{
    build_config, execution_result_json, ConfigError, Credentials, CredentialCache,
    ExecutionMode, ExecutionResult, ExecutionServer, Fixed, SlicingParams, TradeEntryRequest,
    TradeExitRequest,
};

fn fx(s: &str) -> Fixed {
    Fixed::parse(s).unwrap()
}

fn entry_request(mode: ExecutionMode, long_id: &str, short_id: &str) -> TradeEntryRequest {
    TradeEntryRequest {
        trade_id: String::from("11111111-2222-3333-4444-555555555555"),
        user_id: String::from("u"),
        spread_id: String::from("s"),
        size_in_coins: fx("0.5"),
        slicing: SlicingParams { slice_size_coins: None, slice_interval_ms: None },
        mode,
        long_exchange_id: String::from(long_id),
        long_symbol: String::from("BTCUSDT"),
        long_api_key_id: String::from("k1"),
        short_exchange_id: String::from(short_id),
        short_symbol: String::from("BTC-USDT-SWAP"),
        short_api_key_id: String::from("k2"),
    }
}

fn server() -> ExecutionServer {
    ExecutionServer::new(vec![String::from("binance"), String::from("okx")])
}

#[test]
fn unknown_long_exchange_fails_without_orders() {
    let result = server().execute_entry(&entry_request(ExecutionMode::Live, "foo", "okx"));
    assert!(!result.success);
    assert_eq!(result.error.as_deref(), Some("Unknown exchange: foo"));
    assert_eq!(result.long_filled, fx("0"));
    assert_eq!(result.short_filled, fx("0"));
    assert_eq!(result.long_avg_price, fx("0"));
    assert_eq!(result.short_avg_price, fx("0"));
}

#[test]
fn unknown_short_exchange_names_the_short_leg() {
    let result = server().execute_entry(&entry_request(ExecutionMode::Live, "binance", "bar"));
    assert!(!result.success);
    assert_eq!(result.error.as_deref(), Some("Unknown exchange: bar"));
}

#[test]
fn simulated_entry_fills_both_legs() {
    let result = server().execute_entry(&entry_request(ExecutionMode::Sim, "foo", "bar"));
    assert!(result.success);
    assert_eq!(result.long_filled, fx("0.5"));
    assert_eq!(result.short_filled, fx("0.5"));
    assert_eq!(result.long_avg_price, fx("0"));
    assert_eq!(result.short_avg_price, fx("0"));
    assert!(result.error.is_none());
}

#[test]
fn live_entry_waits_on_credential_loading() {
    let result = server().execute_entry(&entry_request(ExecutionMode::Live, "binance", "okx"));
    assert!(!result.success);
    assert_eq!(result.error.as_deref(), Some("Credential loading not yet implemented"));
}

#[test]
fn exit_reports_not_implemented() {
    let request = TradeExitRequest {
        trade_id: String::from("t"),
        position_id: String::from("p"),
        is_emergency: false,
        long_exchange_id: String::from("binance"),
        long_symbol: String::from("BTCUSDT"),
        long_quantity: fx("1"),
        long_api_key_id: String::from("k1"),
        short_exchange_id: String::from("okx"),
        short_symbol: String::from("BTC-USDT-SWAP"),
        short_quantity: fx("1"),
        short_api_key_id: String::from("k2"),
    };
    let result = server().execute_exit(&request);
    assert!(!result.success);
    assert_eq!(result.error.as_deref(), Some("Exit execution not yet implemented"));
}

#[test]
fn result_json_has_the_published_shape() {
    let result = ExecutionResult {
        trade_id: String::from("t-1"),
        success: true,
        long_filled: fx("0.5"),
        long_avg_price: fx("0"),
        short_filled: fx("0.5"),
        short_avg_price: fx("0"),
        error: None,
    };
    assert_eq!(
        execution_result_json(&result),
        "{\"trade_id\":\"t-1\",\"success\":true,\"long_filled\":\"0.5\",\"long_avg_price\":\"0\",\"short_filled\":\"0.5\",\"short_avg_price\":\"0\",\"error\":null}"
    );
}

#[test]
fn result_json_escapes_the_error() {
    let result = ExecutionResult {
        trade_id: String::from("t-2"),
        success: false,
        long_filled: fx("0"),
        long_avg_price: fx("0"),
        short_filled: fx("0"),
        short_avg_price: fx("0"),
        error: Some(String::from("bad \"quote\"")),
    };
    let json = execution_result_json(&result);
    assert!(json.ends_with("\"error\":\"bad \\\"quote\\\"\"}"));
}

#[test]
fn credential_cache_honours_expiry_and_replacement() {
    let creds = |k: &str| Credentials {
        api_key: String::from(k),
        api_secret: String::from("s"),
        passphrase: None,
    };
    let mut cache = CredentialCache::new();
    assert!(cache.lookup("id-1", 0).is_none());
    cache.store(String::from("id-1"), creds("a"), 100);
    assert_eq!(cache.lookup("id-1", 50).unwrap().api_key, "a");
    assert!(cache.lookup("id-1", 100).is_none()); // lapsed
    cache.store(String::from("id-1"), creds("b"), 200);
    assert_eq!(cache.lookup("id-1", 150).unwrap().api_key, "b");
    assert!(cache.lookup("id-2", 0).is_none());
}

#[test]
fn config_builds_urls_and_venues() {
    let config = build_config(
        "9000",
        "localhost",
        "6379",
        "dbhost",
        "5432",
        "user",
        "pw",
        "trading",
        "AAAAAAAAAAAAAAAAAAAAAAAAAAAAAAAAAAAAAAAAAAA=",
    )
    .unwrap();
    assert_eq!(config.port, 9000);
    assert_eq!(config.redis_url, "redis://localhost:6379");
    assert_eq!(config.database_url, "postgres://user:pw@dbhost:5432/trading");
    assert_eq!(config.encryption_key.len(), 32);
    let ids: Vec<&str> = config.exchanges.iter().map(|e| e.id.as_str()).collect();
    assert_eq!(ids, vec!["binance", "bybit", "okx", "kucoin"]);
    assert_eq!(config.default_slice_percent, fx("0.05"));
}

#[test]
fn config_rejects_bad_inputs() {
    assert_eq!(
        build_config("no", "h", "1", "h", "1", "u", "p", "d", "AA==").unwrap_err(),
        ConfigError::InvalidPort
    );
    assert_eq!(
        build_config("70000", "h", "1", "h", "1", "u", "p", "d", "AA==").unwrap_err(),
        ConfigError::InvalidPort
    );
    assert_eq!(
        build_config("9000", "h", "1", "h", "1", "u", "p", "d", "!!!").unwrap_err(),
        ConfigError::InvalidKey
    );
}

#[test]
fn result_json_escapes_control_characters() {
    let result = ExecutionResult {
        trade_id: String::from("t-3"),
        success: false,
        long_filled: fx("0"),
        long_avg_price: fx("0"),
        short_filled: fx("0"),
        short_avg_price: fx("0"),
        error: Some(String::from("line one\nline two\ttab \u{1} end")),
    };
    let json = execution_result_json(&result);
    assert!(json.ends_with("\"error\":\"line one\\nline two\\ttab \\u0001 end\"}"));
}

#[test]
fn entry_plan_opens_both_legs() {
    let request = entry_request(ExecutionMode::Live, "binance", "okx");
    let plan = server().plan_entry(&request).unwrap();
    assert_eq!(plan.long.exchange_id, "binance");
    assert_eq!(plan.long.side, exec_gateway::Side::Buy);
    assert_eq!(plan.long.quantity, fx("0.5"));
    assert!(!plan.long.reduce_only);
    assert_eq!(plan.short.exchange_id, "okx");
    assert_eq!(plan.short.side, exec_gateway::Side::Sell);
    assert!(!plan.short.reduce_only);
}

#[test]
fn entry_plan_refuses_an_unknown_venue() {
    let request = entry_request(ExecutionMode::Live, "binance", "nowhere");
    let result = server().plan_entry(&request).unwrap_err();
    assert!(!result.success);
    assert_eq!(result.error.as_deref(), Some("Unknown exchange: nowhere"));
}

#[test]
fn exit_plan_reverses_sides_and_reduces_only() {
    let request = TradeExitRequest {
        trade_id: String::from("t"),
        position_id: String::from("p"),
        is_emergency: true,
        long_exchange_id: String::from("binance"),
        long_symbol: String::from("BTCUSDT"),
        long_quantity: fx("2"),
        long_api_key_id: String::from("k1"),
        short_exchange_id: String::from("okx"),
        short_symbol: String::from("BTC-USDT-SWAP"),
        short_quantity: fx("3"),
        short_api_key_id: String::from("k2"),
    };
    let plan = server().plan_exit(&request).unwrap();
    assert_eq!(plan.long.side, exec_gateway::Side::Sell);
    assert_eq!(plan.short.side, exec_gateway::Side::Buy);
    assert!(plan.long.reduce_only);
    assert!(plan.short.reduce_only);
    assert_eq!(plan.long.quantity, fx("2"));
    assert_eq!(plan.short.quantity, fx("3"));
    assert!(plan.is_emergency);
}

#[test]
fn combined_legs_report_both_fills() {
    let leg = |filled: &str, avg: &str, complete: bool| exec_gateway::SlicedOrderResult {
        total_quantity: fx("1"),
        filled_quantity: fx(filled),
        avg_fill_price: fx(avg),
        slices: Vec::new(),
        total_fees: fx("0"),
        is_complete: complete,
    };
    let combined = exec_gateway::combine_leg_results(
        String::from("t-9"),
        &leg("1", "100", true),
        &leg("0.4", "99", false),
    );
    assert_eq!(combined.trade_id, "t-9");
    assert!(!combined.success);
    assert_eq!(combined.long_filled, fx("1"));
    assert_eq!(combined.short_avg_price, fx("99"));
    assert!(combined.error.is_none());

    let complete = exec_gateway::combine_leg_results(
        String::from("t-10"),
        &leg("1", "100", true),
        &leg("1", "99", true),
    );
    assert!(complete.success);
}
