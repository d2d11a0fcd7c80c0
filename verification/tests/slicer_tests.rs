use exec_gateway::{
    calculate_limit_price, emergency_exit_request, emergency_exit_result, Fixed, OrderSlicer,
    OrderStatus, OrderType, Side, SlicingConfig,
};

fn fx(s: &str) -> Fixed {
    Fixed::parse(s).unwrap()
}

fn slicer(percent: &str) -> OrderSlicer {
    OrderSlicer::new(SlicingConfig { slice_percent: fx(percent), ..Default::default() })
}

#[test]
fn test_calculate_slices() {
    let slicer = slicer("0.1");
    let slices = slicer.calculate_slices(fx("1.0"));
    assert_eq!(slices.len(), 10);
    assert!(slices.iter().all(|s| *s == fx("0.1")));
}

#[test]
fn test_calculate_slices_remainder() {
    let slicer = slicer("0.3");
    let slices = slicer.calculate_slices(fx("1.0"));
    assert_eq!(slices.len(), 4);
    // 0.3 + 0.3 + 0.3 + 0.1 = 1.0
    assert_eq!(slices, vec![fx("0.3"), fx("0.3"), fx("0.3"), fx("0.1")]);
    let total: u64 = slices.iter().map(|s| s.raw).sum();
    assert_eq!(total, fx("1.0").raw);
}

#[test]
fn slices_collapse_below_dust_threshold() {
    let slicer = slicer("0.05");
    let slices = slicer.calculate_slices(fx("0.0005"));
    assert_eq!(slices, vec![fx("0.0005")]);
}

#[test]
fn slices_sum_to_total_with_odd_percent() {
    let slicer = slicer("0.07");
    let total = fx("2.5");
    let slices = slicer.calculate_slices(total);
    let sum: u64 = slices.iter().map(|s| s.raw).sum();
    assert_eq!(sum, total.raw);
    assert!(slices.iter().all(|s| s.raw > 0));
}

#[test]
fn limit_price_buy_and_sell() {
    let bid = fx("100");
    let ask = fx("100.10");
    let bps = fx("5");
    assert_eq!(calculate_limit_price(Side::Buy, bid, ask, bps), fx("100.05"));
    assert_eq!(calculate_limit_price(Side::Sell, bid, ask, bps), fx("100.04995"));
}

#[test]
fn emergency_exit_sell_crosses_the_spread() {
    let request = emergency_exit_request(
        String::from("BTCUSDT"),
        Side::Sell,
        fx("2"),
        fx("100"),
        fx("100.10"),
        String::from("cs_0123456789abcdef"),
    );
    assert!(request.reduce_only);
    assert_eq!(request.order_type, OrderType::Limit);
    assert_eq!(request.price, Some(fx("99.5")));
    assert_eq!(request.quantity, fx("2"));
}

#[test]
fn emergency_exit_buy_crosses_the_spread() {
    let request = emergency_exit_request(
        String::from("BTCUSDT"),
        Side::Buy,
        fx("2"),
        fx("100"),
        fx("100.10"),
        String::from("cs_0123456789abcdef"),
    );
    assert!(request.reduce_only);
    assert_eq!(request.price, Some(fx("100.6005")));
}

#[test]
fn sliced_run_accounts_fills_and_average() {
    let slicer = slicer("0.5");
    let mut run = slicer.start_run(String::from("BTCUSDT"), Side::Buy, fx("1.0"));
    assert!(!run.is_done());

    let request = run.make_request(fx("100"), fx("100.10"), String::from("cs_aaaaaaaaaaaaaaaa"));
    assert_eq!(request.side, Side::Buy);
    assert_eq!(request.order_type, OrderType::Limit);
    assert!(!request.reduce_only);
    assert_eq!(request.price, Some(fx("100.05")));
    assert_eq!(request.quantity, fx("0.5"));

    let response = exec_gateway::OrderResponse {
        exchange_order_id: String::from("1"),
        client_order_id: String::from("cs_aaaaaaaaaaaaaaaa"),
        symbol: String::from("BTCUSDT"),
        side: Side::Buy,
        order_type: OrderType::Limit,
        price: Some(fx("100.05")),
        quantity: fx("0.5"),
        filled_quantity: fx("0.5"),
        avg_fill_price: Some(fx("100")),
        status: OrderStatus::Filled,
        timestamp: 1,
    };
    assert!(run.record_success(fx("100.05"), String::from("cs_aaaaaaaaaaaaaaaa"), response));

    let response2 = exec_gateway::OrderResponse {
        exchange_order_id: String::from("2"),
        client_order_id: String::from("cs_bbbbbbbbbbbbbbbb"),
        symbol: String::from("BTCUSDT"),
        side: Side::Buy,
        order_type: OrderType::Limit,
        price: Some(fx("102")),
        quantity: fx("0.5"),
        filled_quantity: fx("0.25"),
        avg_fill_price: Some(fx("102")),
        status: OrderStatus::Partial,
        timestamp: 2,
    };
    assert!(run.record_success(fx("102"), String::from("cs_bbbbbbbbbbbbbbbb"), response2));
    assert!(run.is_done());

    let result = run.finish();
    // filled total is the sum of the slice fills
    assert_eq!(result.filled_quantity, fx("0.75"));
    let slice_fill_sum: u64 = result.slices.iter().map(|s| s.filled_quantity.raw).sum();
    assert_eq!(result.filled_quantity.raw, slice_fill_sum);
    // the average is the fill-weighted mean: (0.5*100 + 0.25*102) / 0.75
    assert_eq!(result.avg_fill_price, fx("100.666666666"));
    assert!(!result.is_complete);
    assert_eq!(result.total_fees, fx("0"));
}

#[test]
fn sliced_run_records_failures_as_rejected() {
    let slicer = slicer("1.0");
    let mut run = slicer.start_run(String::from("ETHUSDT"), Side::Sell, fx("3"));
    run.record_failure(fx("99"), String::from("cs_cccccccccccccccc"));
    let result = run.finish();
    assert_eq!(result.slices.len(), 1);
    assert_eq!(result.slices[0].status, OrderStatus::Rejected);
    assert_eq!(result.slices[0].filled_quantity, fx("0"));
    assert!(result.slices[0].exchange_order_id.is_none());
    assert_eq!(result.filled_quantity, fx("0"));
    assert_eq!(result.avg_fill_price, fx("0"));
    assert!(!result.is_complete);
}

#[test]
fn completion_allows_one_percent_shortfall() {
    let slicer = slicer("1.0");
    let mut run = slicer.start_run(String::from("BTCUSDT"), Side::Buy, fx("1.0"));
    let response = exec_gateway::OrderResponse {
        exchange_order_id: String::from("1"),
        client_order_id: String::from("cs_dddddddddddddddd"),
        symbol: String::from("BTCUSDT"),
        side: Side::Buy,
        order_type: OrderType::Limit,
        price: Some(fx("10")),
        quantity: fx("1.0"),
        filled_quantity: fx("0.99"),
        avg_fill_price: Some(fx("10")),
        status: OrderStatus::Partial,
        timestamp: 1,
    };
    assert!(run.record_success(fx("10"), String::from("cs_dddddddddddddddd"), response));
    let result = run.finish();
    assert!(result.is_complete);
}

#[test]
fn emergency_result_takes_the_reported_average() {
    let response = exec_gateway::OrderResponse {
        exchange_order_id: String::from("7"),
        client_order_id: String::from("cs_eeeeeeeeeeeeeeee"),
        symbol: String::from("BTCUSDT"),
        side: Side::Sell,
        order_type: OrderType::Limit,
        price: Some(fx("99.5")),
        quantity: fx("2"),
        filled_quantity: fx("2"),
        avg_fill_price: Some(fx("99.6")),
        status: OrderStatus::Filled,
        timestamp: 5,
    };
    let result = emergency_exit_result(
        fx("2"),
        fx("99.5"),
        String::from("cs_eeeeeeeeeeeeeeee"),
        response,
    );
    assert!(result.is_complete);
    assert_eq!(result.filled_quantity, fx("2"));
    assert_eq!(result.avg_fill_price, fx("99.6"));
    assert_eq!(result.slices.len(), 1);
}

#[test]
fn slice_count_holds_off_the_grid() {
    // The exact slice size has ten fractional digits here; the plan still
    // holds exactly two slices, quantized to the grid, summing exactly.
    let halves = slicer("0.5");
    let slices = halves.calculate_slices(fx("0.999999999"));
    assert_eq!(slices, vec![fx("0.499999999"), fx("0.5")]);

    // A fraction that divides nothing evenly still yields its ceiling.
    let thirds = slicer("0.3");
    let slices = thirds.calculate_slices(fx("0.999999998"));
    assert_eq!(slices.len(), 4);
    let sum: u64 = slices.iter().map(|s| s.raw).sum();
    assert_eq!(sum, fx("0.999999998").raw);
    assert!(slices.iter().all(|s| s.raw > 0));
}
