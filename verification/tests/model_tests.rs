use std::str::FromStr;

use trading_bot::api::bitflyer;
use trading_bot::api::gmo;
use trading_bot::api::gmo::api::{ChildOrderType, Symbol};
use trading_bot::api::gmo::get_position::{
    has_open_position, position_lines, PositionData, PositionResponse,
};
use trading_bot::api::gmo::ws::{Channel, Side};
use trading_bot::model::{
    default_alpha, default_close_spread_factor, default_execution_retain_ms, default_log_dir,
    default_stop_loss_jpy, default_t_optimal_max_ms, default_t_optimal_min_ms, default_true,
    BotConfig, FloatingExp, OrderInfo, OrderOutcome, OrderSide, Position,
};
use trading_bot::orders::{cancel_outcome, submit_outcome, CancelOutcome, SubmitOutcome};
use trading_bot::quote::level_price;
use trading_bot::sizing::{validate_order_params, OrderRejection};
use trading_bot::util::{decimal_string, fixed_point_string};

/// The value of a level as a fraction.
fn value(level: &FloatingExp) -> f64 {
    level.calc() as f64 / 1e9
}

#[test]
fn floating_exp1() {
    let t = FloatingExp::new(10, -2, 1);
    assert_eq!(value(&t), 0.01);
}

#[test]
fn floating_exp2() {
    let t = FloatingExp::new(10, -2, 5);
    assert_eq!(value(&t), 0.05);
}

#[test]
fn floating_exp3() {
    let t = FloatingExp::new(10, 2, 3);
    assert_eq!(value(&t), 300.0);
}

#[test]
fn test_floating_exp_calc() {
    let fe = FloatingExp::new(10, -2, 1);
    assert!((value(&fe) - 0.01).abs() < 1e-10);

    let fe2 = FloatingExp::new(10, -2, 5);
    assert!((value(&fe2) - 0.05).abs() < 1e-10);

    let fe3 = FloatingExp::new(10, 2, 3);
    assert!((value(&fe3) - 300.0).abs() < 1e-10);
}

#[test]
fn test_floating_exp_default() {
    let fe = FloatingExp::default();
    assert!((value(&fe) - 0.00001).abs() < 1e-15);
    assert_eq!(fe.calc(), 10_000);
}

#[test]
fn test_floating_exp_ordering() {
    let fe1 = FloatingExp::new(10, -5, 1);
    let fe2 = FloatingExp::new(10, -5, 2);
    assert!(fe1 < fe2);
    assert!(!(fe2 < fe1));
    assert!(fe2 > fe1);
}

#[test]
fn floating_exp_without_a_value() {
    // a power of zero divides
    assert_eq!(FloatingExp::new(0, -1, 1).try_calc(), None);
    // more than 64 bits hold
    assert_eq!(FloatingExp::new(10, 11, 1).try_calc(), None);
    assert_eq!(FloatingExp::new(2, 2_000_000_000, 1).try_calc(), None);
    assert_eq!(FloatingExp::new(10, 0, u64::MAX).try_calc(), None);
    // and what they do hold
    assert_eq!(FloatingExp::new(10, 10, 1).try_calc(), Some(10_000_000_000_000_000_000));
    assert_eq!(FloatingExp::new(10, -5, 25).try_calc(), Some(250_000));
    assert_eq!(FloatingExp::new(3, -2, 1).try_calc(), Some(111_111_111));
    assert_eq!(FloatingExp::new(10, -10, 1).try_calc(), Some(0));
    assert_eq!(FloatingExp::new(10, -2_000_000_000, 7).try_calc(), Some(0));
    assert_eq!(FloatingExp::new(0, 0, 2).try_calc(), Some(2_000_000_000));
    assert_eq!(FloatingExp::new(0, 3, 2).try_calc(), Some(0));
    assert_eq!(FloatingExp::new(1, i32::MIN, 4).try_calc(), Some(4_000_000_000));
    assert_eq!(FloatingExp::new(1, i32::MAX, 4).try_calc(), Some(4_000_000_000));
    assert_eq!(FloatingExp::new(7, 5, 0).try_calc(), Some(0));
}

#[test]
fn test_bid_ask_from_floating_exp() {
    let mid_price = 10_000_000;
    let fe = FloatingExp::new(10, -5, 1);

    let bid = level_price(mid_price, fe.calc(), true);
    let ask = level_price(mid_price, fe.calc(), false);

    assert!((bid as f64 - 9_999_900.0).abs() < 1e-10);
    assert!((ask as f64 - 10_000_100.0).abs() < 1e-10);
}

#[test]
fn test_order_info_creation() {
    let info = OrderInfo {
        price: 10_000_000,
        size: 1_000_000,
        side: OrderSide::BUY,
        timestamp: 1234567890,
        is_close: false,
        mid_price: 10_000_050,
        t_optimal_ms: 3000,
        sigma_1s: 100_000,
        spread_pct: 50_000,
        level: 5,
        p_fill: 450_000_000,
        best_ev: 0,
        single_leg_ev: 0,
    };
    assert_eq!(info.price, 10_000_000);
    assert_eq!(info.size as f64 / 1e8, 0.01);
    assert_eq!(info.side, OrderSide::BUY);
    assert_eq!(info.timestamp, 1234567890);
}

#[test]
fn order_outcome_holds_what_happened() {
    let outcome = OrderOutcome { side: OrderSide::SELL, filled: true, is_close: false, level: 7 };
    let copy = outcome.clone();
    assert_eq!(copy.side, OrderSide::SELL);
    assert!(copy.filled);
    assert!(!copy.is_close);
    assert_eq!(copy.level, 7);
}

#[test]
fn position_default_is_flat() {
    let p = Position::default();
    assert_eq!(
        (p.long_size, p.short_size, p.long_open_price, p.short_open_price),
        (0, 0, 0, 0)
    );
}

#[test]
fn config_defaults() {
    assert_eq!(default_log_dir(), "logs");
    assert!(default_true());
    assert_eq!(default_alpha(), 500_000_000);
    assert_eq!(default_execution_retain_ms(), 5000);
    assert_eq!(default_t_optimal_min_ms(), 2000);
    assert_eq!(default_t_optimal_max_ms(), 30000);
    assert_eq!(default_close_spread_factor(), 500_000_000);
    assert_eq!(default_stop_loss_jpy(), 5000);
}

fn config(min_lot: u64, max_lot: u64) -> BotConfig {
    BotConfig {
        order_cancel_ms: 15000,
        order_interval_ms: 15000,
        position_ratio: 900_000_000,
        min_lot,
        max_lot,
        max_position: 2_000_000,
        log_dir: default_log_dir(),
        trade_log_enabled: default_true(),
        metrics_log_enabled: default_true(),
        alpha: default_alpha(),
        execution_retain_ms: default_execution_retain_ms(),
        t_optimal_min_ms: default_t_optimal_min_ms(),
        t_optimal_max_ms: default_t_optimal_max_ms(),
        close_spread_factor: default_close_spread_factor(),
        stop_loss_jpy: default_stop_loss_jpy(),
    }
}

#[test]
fn orders_are_checked_before_they_are_sent() {
    let cfg = config(100_000, 100_000);
    assert_eq!(validate_order_params(6_500_000, 100_000, &cfg), Ok(()));
    assert_eq!(validate_order_params(6_500_000, 1_000_000, &cfg), Ok(()));
    assert_eq!(validate_order_params(0, 100_000, &cfg), Err(OrderRejection::ZeroPrice));
    assert_eq!(validate_order_params(0, 0, &cfg), Err(OrderRejection::ZeroPrice));
    assert_eq!(validate_order_params(1, 99_999, &cfg), Err(OrderRejection::BelowMinimumLot));
    assert_eq!(validate_order_params(1, 1_000_001, &cfg), Err(OrderRejection::ExceedsMaximum));
    assert_eq!(validate_order_params(1, 100_001, &cfg), Err(OrderRejection::PrecisionTooHigh));
    let wide = config(1, u64::MAX);
    assert_eq!(validate_order_params(1, u64::MAX, &wide), Err(OrderRejection::PrecisionTooHigh));

    assert_eq!(OrderRejection::ZeroPrice.to_string(), "Price cannot be zero");
    assert_eq!(OrderRejection::BelowMinimumLot.to_string(), "Size below minimum lot");
    assert_eq!(OrderRejection::ExceedsMaximum.to_string(), "Size exceeds maximum allowed");
    assert_eq!(
        OrderRejection::PrecisionTooHigh.to_string(),
        "Size precision too high (max 4 decimal places)"
    );
}

#[test]
fn names_on_the_wire() {
    assert_eq!(Symbol::BTC_JPY.to_string(), "BTC_JPY");
    assert_eq!(Symbol::Unknown.to_string(), "Unknown");
    assert_eq!(Symbol::from_str("BTC_JPY"), Ok(Symbol::BTC_JPY));
    assert_eq!(Symbol::from_str("Unknown"), Err(()));
    assert_eq!(Symbol::parse("btc_jpy"), None);

    assert_eq!(ChildOrderType::LIMIT.to_string(), "LIMIT");
    assert_eq!(ChildOrderType::MARKET.to_string(), "MARKET");
    assert_eq!(ChildOrderType::Unknown.to_string(), "Unknown");
    assert_eq!(ChildOrderType::from_str("LIMIT"), Ok(ChildOrderType::LIMIT));
    assert_eq!(ChildOrderType::from_str("MARKET"), Ok(ChildOrderType::MARKET));
    assert_eq!(ChildOrderType::from_str("STOP"), Err(()));

    assert_eq!(Channel::from_str("orderbooks"), Ok(Channel::Orderbooks));
    assert_eq!(Channel::from_str("trades"), Ok(Channel::Trades));
    assert_eq!(Channel::from_str("ticker"), Err(()));
    assert_eq!(Channel::Orderbooks.to_string(), "orderbooks");
    assert_eq!(Channel::Trades.to_string(), "trades");
    assert_ne!(Side::BUY, Side::SELL);
    assert_eq!(Side::parse("BUY"), Some(Side::BUY));
    assert_eq!(Side::parse("SELL"), Some(Side::SELL));
    assert_eq!(Side::parse("buy"), None);

    assert_eq!(OrderSide::parse("BUY"), Some(OrderSide::BUY));
    assert_eq!(OrderSide::parse("Unknown"), None);
    assert_eq!(OrderSide::parse(""), None);
}

#[test]
fn names_of_the_other_exchange() {
    assert_eq!(bitflyer::api::ProductCode::FX_BTC_JPY.to_string(), "FX_BTC_JPY");
    assert_eq!(bitflyer::api::ProductCode::BTC_JPY.to_string(), "BTC_JPY");
    assert_eq!(bitflyer::api::ProductCode::Unknown.to_string(), "Unknown");
    assert_eq!(bitflyer::api::ProductCode::from_str("FX_BTC_JPY"), Ok(bitflyer::api::ProductCode::FX_BTC_JPY));
    assert_eq!(bitflyer::api::ProductCode::from_str("BTC_JPY"), Ok(bitflyer::api::ProductCode::BTC_JPY));
    assert_eq!(bitflyer::api::ProductCode::from_str("ETH_JPY"), Err(()));

    assert_eq!(bitflyer::api::ChildOrderType::from_str("LIMIT"), Ok(bitflyer::api::ChildOrderType::LIMIT));
    assert_eq!(bitflyer::api::ChildOrderType::from_str("MARKET"), Ok(bitflyer::api::ChildOrderType::MARKET));
    assert_eq!(bitflyer::api::ChildOrderType::from_str(""), Err(()));
    assert_eq!(bitflyer::api::ChildOrderType::LIMIT.to_string(), "LIMIT");

    assert_eq!(bitflyer::get_health::HealthStatusEnum::from_str("NORMAL"), Ok(bitflyer::get_health::HealthStatusEnum::Normal));
    assert_eq!(bitflyer::get_health::HealthStatusEnum::from_str("BUSY"), Ok(bitflyer::get_health::HealthStatusEnum::Busy));
    assert_eq!(bitflyer::get_health::HealthStatusEnum::from_str("VERY BUSY"), Ok(bitflyer::get_health::HealthStatusEnum::VeryBusy));
    assert_eq!(bitflyer::get_health::HealthStatusEnum::from_str("SUPER BUSY"), Ok(bitflyer::get_health::HealthStatusEnum::SuperBusy));
    assert_eq!(bitflyer::get_health::HealthStatusEnum::from_str("NO ORDER"), Ok(bitflyer::get_health::HealthStatusEnum::NoOrder));
    assert_eq!(bitflyer::get_health::HealthStatusEnum::from_str("STOP"), Ok(bitflyer::get_health::HealthStatusEnum::Stop));
    assert_eq!(bitflyer::get_health::HealthStatusEnum::from_str("normal"), Ok(bitflyer::get_health::HealthStatusEnum::Unknown));

    assert_eq!(
        bitflyer::ws::Channel::from_str("lightning_board_FX_BTC_JPY"),
        Ok(bitflyer::ws::Channel::lightning_board_FX_BTC_JPY)
    );
    assert_eq!(
        bitflyer::ws::Channel::from_str("lightning_executions_FX_BTC_JPY"),
        Ok(bitflyer::ws::Channel::lightning_executions_FX_BTC_JPY)
    );
    assert_eq!(bitflyer::ws::Channel::from_str("lightning_ticker_FX_BTC_JPY"), Err(()));
    assert_eq!(bitflyer::ws::Timestamp(1_700_000_000_123).get_timestamp(), 1_700_000_000_123);

    let order = bitflyer::send_order::limit_order(OrderSide::BUY, 6_500_000, 1_000_000);
    assert_eq!(order.product_code, bitflyer::api::ProductCode::FX_BTC_JPY);
    assert_eq!(order.child_order_type, bitflyer::api::ChildOrderType::LIMIT);
    assert_eq!(order.side, OrderSide::BUY);
    assert_eq!(order.price, Some(6_500_000));
    assert_eq!(order.size, 1_000_000);
    assert_eq!(order.minute_to_expire, 1);

    let cancel = bitflyer::cancel_child_order::cancel_request("JRF-1");
    assert_eq!(cancel.product_code, bitflyer::api::ProductCode::FX_BTC_JPY);
    assert_eq!(cancel.child_order_acceptance_id, "JRF-1");
}

#[test]
fn requests_spell_prices_and_sizes() {
    let order = gmo::send_order::limit_order(OrderSide::BUY, 6_500_000, 100_000);
    assert_eq!(order.symbol, Symbol::BTC_JPY);
    assert_eq!(order.side, OrderSide::BUY);
    assert_eq!(order.execution_type, ChildOrderType::LIMIT);
    assert_eq!(order.price, Some("6500000".to_string()));
    assert_eq!(order.size, "0.001");
    assert!(order.time_in_force.is_none());

    let close = gmo::close_bulk_order::limit_close(OrderSide::SELL, 14_000_050, 250_000_000);
    assert_eq!(close.side, OrderSide::SELL);
    assert_eq!(close.execution_type, ChildOrderType::LIMIT);
    assert_eq!(close.price, Some("14000050".to_string()));
    assert_eq!(close.size, "2.5");

    let stop = gmo::close_bulk_order::market_close(OrderSide::BUY, 300_000_000);
    assert_eq!(stop.execution_type, ChildOrderType::MARKET);
    assert_eq!(stop.price, None);
    assert_eq!(stop.size, "3");

    assert_eq!(gmo::cancel_child_order::cancel_request("123456").order_id, "123456");
    assert_eq!(gmo::ws::Timestamp(42).get_timestamp(), 42);
}

#[test]
fn numbers_in_decimal() {
    assert_eq!(decimal_string(0), "0");
    assert_eq!(decimal_string(7), "7");
    assert_eq!(decimal_string(10), "10");
    assert_eq!(decimal_string(1234567890), "1234567890");
    assert_eq!(decimal_string(u64::MAX), "18446744073709551615");

    assert_eq!(fixed_point_string(0, 100_000_000, 8), "0");
    assert_eq!(fixed_point_string(1, 100_000_000, 8), "0.00000001");
    assert_eq!(fixed_point_string(10, 100_000_000, 8), "0.0000001");
    assert_eq!(fixed_point_string(123_456_789, 100_000_000, 8), "1.23456789");
    assert_eq!(fixed_point_string(100_000_000, 100_000_000, 8), "1");
    assert_eq!(fixed_point_string(120_000_000, 100_000_000, 8), "1.2");
    assert_eq!(fixed_point_string(1_000_000_000, 1_000_000_000, 9), "1");
    assert_eq!(fixed_point_string(500_000_000, 1_000_000_000, 9), "0.5");
}

fn listed(side: &str, size: u64, price: u64) -> gmo::get_position::Position {
    gmo::get_position::Position {
        position_id: 1,
        symbol: "BTC_JPY".to_string(),
        side: side.to_string(),
        size,
        price,
        leverage: 2,
        timestamp: "2024-01-15T10:30:00Z".to_string(),
    }
}

fn response(data: Option<PositionData>) -> PositionResponse {
    PositionResponse { status: 0, data, responsetime: "2024-01-15T10:30:00Z".to_string() }
}

#[test]
fn listings_become_lines() {
    let none = response(None);
    assert!(!has_open_position(&none));
    assert!(position_lines(&none).is_empty());

    let no_list = response(Some(PositionData { pagination: None, list: None }));
    assert!(!has_open_position(&no_list));
    assert!(position_lines(&no_list).is_empty());

    let empty = response(Some(PositionData { pagination: None, list: Some(vec![]) }));
    assert!(!has_open_position(&empty));
    assert!(position_lines(&empty).is_empty());

    let two = response(Some(PositionData {
        pagination: None,
        list: Some(vec![listed("BUY", 100_000, 14_000_000), listed("SELL", 200_000, 14_010_000)]),
    }));
    assert!(has_open_position(&two));
    let lines = position_lines(&two);
    assert_eq!(lines.len(), 2);
    assert_eq!(lines[0].side, OrderSide::BUY);
    assert_eq!(lines[0].size, 100_000);
    assert_eq!(lines[0].price, 14_000_000);
    assert_eq!(lines[1].side, OrderSide::SELL);
    assert_eq!(lines[1].size, 200_000);
    assert_eq!(lines[1].price, 14_010_000);
}

#[test]
fn numbers_of_the_wire_are_read_exactly() {
    let read = gmo::api::deserialize_number_from_string;
    assert_eq!(read("0.001", 8), Some(100_000));
    assert_eq!(read("14000000", 0), Some(14_000_000));
    assert_eq!(read("14000000.9", 0), Some(14_000_000));
    assert_eq!(read("1", 8), Some(100_000_000));
    assert_eq!(read("1.", 8), Some(100_000_000));
    assert_eq!(read("0", 8), Some(0));
    assert_eq!(read("000.5", 1), Some(5));
    assert_eq!(read("0.123456789", 8), Some(12_345_678));
    assert_eq!(read("1.23456789", 8), Some(123_456_789));
    assert_eq!(read("18446744073709551615", 0), Some(u64::MAX));
    assert_eq!(read("184467440737.09551615", 8), Some(u64::MAX));
    assert_eq!(read("18446744073709551616", 0), None);
    assert_eq!(read("184467440737.09551616", 8), None);
    assert_eq!(read("1844674407370955161", 1), Some(18_446_744_073_709_551_610));
    assert_eq!(read("1844674407370955162", 1), None);
    assert_eq!(read("", 8), None);
    assert_eq!(read(".", 8), None);
    assert_eq!(read(".5", 8), None);
    assert_eq!(read("1.2.3", 8), None);
    assert_eq!(read("-1", 8), None);
    assert_eq!(read("+1", 8), None);
    assert_eq!(read("1e3", 8), None);
    assert_eq!(read(" 1", 8), None);
    assert_eq!(read("1,5", 8), None);
    assert_eq!(read("１", 8), None);
    assert_eq!(read("0.001", 0), Some(0));
    for v in [0u64, 1, 10, 100_000, 123_456_789, 100_000_000, u64::MAX] {
        let text = fixed_point_string(v, 100_000_000, 8);
        assert_eq!(read(&text, 8), Some(v));
    }
}

#[test]
fn errors_in_words() {
    let refused = gmo::api::ApiResponseError::ApiError(vec![
        gmo::api::ApiErrorMessage {
            message_code: "ERR-201".to_string(),
            message_string: "Trading margin is insufficient.".to_string(),
        },
        gmo::api::ApiErrorMessage {
            message_code: "ERR-422".to_string(),
            message_string: "No open positions.".to_string(),
        },
    ]);
    assert_eq!(
        refused.to_string(),
        "API error: [ERR-201] Trading margin is insufficient., [ERR-422] No open positions."
    );
    assert_eq!(gmo::api::ApiResponseError::ApiError(vec![]).to_string(), "API error: ");
    assert_eq!(gmo::api::ApiResponseError::StatusCode(503).to_string(), "HTTP status: 503");
    assert_eq!(
        gmo::api::ApiResponseError::Reqwest("timed out".to_string()).to_string(),
        "Request error: timed out"
    );
    assert_eq!(
        gmo::api::ApiResponseError::UrlParse("empty host".to_string()).to_string(),
        "URL parse error: empty host"
    );
    assert_eq!(
        gmo::api::ApiResponseError::Deserialize("EOF".to_string()).to_string(),
        "Deserialize error: EOF"
    );
    assert_eq!(
        gmo::api::ApiResponseError::Credential(gmo::auth::CredentialError::MissingSecret).to_string(),
        "Credential error: MissingSecret"
    );
    assert_eq!(gmo::auth::CredentialError::MissingKey.to_string(), "MissingKey");
    assert_eq!(gmo::auth::CredentialError::TooLong.to_string(), "TooLong");
    let other = bitflyer::api::ApiResponseError::StatusCode(404);
    assert!(matches!(other, bitflyer::api::ApiResponseError::StatusCode(404)));
}

#[test]
fn answers_are_read_into_outcomes() {
    let submit = submit_outcome;
    let cancel = cancel_outcome;
    assert!(matches!(
        submit(Ok("42".to_string())),
        SubmitOutcome::Accepted { ref order_id } if order_id == "42"
    ));
    let refused = gmo::api::ApiResponseError::ApiError(vec![gmo::api::ApiErrorMessage {
        message_code: "ERR-201".to_string(),
        message_string: "no margin".to_string(),
    }]);
    assert!(matches!(
        submit(Err(refused.clone())),
        SubmitOutcome::Rejected { ref messages, ref detail }
            if messages.len() == 1 && detail == "API error: [ERR-201] no margin"
    ));
    assert!(matches!(
        submit(Err(gmo::api::ApiResponseError::StatusCode(500))),
        SubmitOutcome::Failed { ref detail } if detail == "HTTP status: 500"
    ));
    assert!(matches!(cancel(Ok(())), CancelOutcome::Confirmed));
    assert!(matches!(
        cancel(Err(refused)),
        CancelOutcome::Rejected { ref messages } if messages.len() == 1
    ));
    assert!(matches!(
        cancel(Err(gmo::api::ApiResponseError::Reqwest("down".to_string()))),
        CancelOutcome::Failed
    ));
}

fn detail(side: &str, size: u64, price: u64) -> bitflyer::get_position::PositionDetail {
    bitflyer::get_position::PositionDetail {
        product_code: "FX_BTC_JPY".to_string(),
        side: side.to_string(),
        price,
        size,
        commission: 0,
        open_date: "2024-01-15T10:30:00Z".to_string(),
        swap_point_accumulate: 0,
        require_collateral: 0,
        leverage: 2,
        pnl: 0,
        sfd: 0,
    }
}

#[test]
fn listings_of_the_other_exchange_become_lines() {
    let none: Vec<bitflyer::get_position::PositionDetail> = vec![];
    assert!(!bitflyer::get_position::has_open_position(&none));
    assert!(bitflyer::get_position::position_lines(&none).is_empty());

    let two = vec![detail("BUY", 1_000_000, 6_500_000), detail("SELL", 2_000_000, 6_510_000)];
    assert!(bitflyer::get_position::has_open_position(&two));
    let lines = bitflyer::get_position::position_lines(&two);
    assert_eq!(lines.len(), 2);
    assert_eq!((lines[0].side, lines[0].size, lines[0].price), (OrderSide::BUY, 1_000_000, 6_500_000));
    assert_eq!((lines[1].side, lines[1].size, lines[1].price), (OrderSide::SELL, 2_000_000, 6_510_000));
    let odd = bitflyer::get_position::position_lines(&vec![detail("", 5, 7)]);
    assert_eq!(odd[0].side, OrderSide::SELL);
}

#[test]
fn orders_and_messages_of_the_other_exchange() {
    let stop = bitflyer::send_order::market_order(OrderSide::SELL, 3_000_000);
    assert_eq!(stop.product_code, bitflyer::api::ProductCode::FX_BTC_JPY);
    assert_eq!(stop.child_order_type, bitflyer::api::ChildOrderType::MARKET);
    assert_eq!(stop.side, OrderSide::SELL);
    assert_eq!(stop.price, None);
    assert_eq!(stop.size, 3_000_000);
    assert_eq!(stop.minute_to_expire, 1);

    assert_eq!(bitflyer::ws::Side::parse("BUY"), Some(bitflyer::ws::Side::BUY));
    assert_eq!(bitflyer::ws::Side::parse("SELL"), Some(bitflyer::ws::Side::SELL));
    assert_eq!(bitflyer::ws::Side::parse(""), None);
    assert_eq!(bitflyer::ws::Side::BUY.taker(), Side::BUY);
    assert_eq!(bitflyer::ws::Side::SELL.taker(), Side::SELL);

    let deltas = bitflyer::ws::board_deltas(&vec![
        bitflyer::ws::BoardItem { price: 101, size: 3 },
        bitflyer::ws::BoardItem { price: 99, size: 0 },
    ]);
    assert_eq!(deltas.len(), 2);
    assert_eq!((deltas[0].price, deltas[0].size), (101, 3));
    assert_eq!((deltas[1].price, deltas[1].size), (99, 0));
    assert!(bitflyer::ws::board_deltas(&vec![]).is_empty());
}
