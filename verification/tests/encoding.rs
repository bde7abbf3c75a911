use account_signing::decimal::Decimal;
use account_signing::model::{
    OrderCancellation, OrderRequest, OrderResponse, OrderSide, OrderStatusRequest, OrderType,
    OrdersQuery, SubAccountCreationReq, TimeInForce,
};
use account_signing::params::{append_pair, Params};

fn set(p: &mut Params, k: &str, v: &str) {
    p.insert(k.to_string(), v.to_string());
}

#[test]
fn the_empty_set_encodes_to_the_empty_string() {
    let p = Params::new();
    assert!(p.is_empty());
    assert_eq!(p.len(), 0);
    assert_eq!(p.to_query(), "");
}

#[test]
fn one_parameter_has_no_separator() {
    let mut p = Params::new();
    set(&mut p, "symbol", "BTCUSDT");
    assert!(!p.is_empty());
    assert_eq!(p.len(), 1);
    assert_eq!(p.to_query(), "symbol=BTCUSDT");
}

#[test]
fn keys_come_out_sorted() {
    let mut p = Params::new();
    set(&mut p, "symbol", "BTCUSDT");
    set(&mut p, "side", "BUY");
    set(&mut p, "type", "LIMIT");
    set(&mut p, "price", "0.014");
    set(&mut p, "quantity", "10");
    assert_eq!(p.len(), 5);
    assert_eq!(
        p.to_query(),
        "price=0.014&quantity=10&side=BUY&symbol=BTCUSDT&type=LIMIT"
    );
}

#[test]
fn the_order_of_insertion_does_not_matter() {
    let fields = [("b", "2"), ("a", "1"), ("d", "4"), ("c", "3")];
    let orders: [[usize; 4]; 6] = [
        [0, 1, 2, 3],
        [3, 2, 1, 0],
        [1, 0, 3, 2],
        [2, 3, 0, 1],
        [1, 3, 0, 2],
        [2, 0, 3, 1],
    ];
    for order in orders {
        let mut p = Params::new();
        for i in order {
            set(&mut p, fields[i].0, fields[i].1);
        }
        assert_eq!(p.to_query(), "a=1&b=2&c=3&d=4");
    }
}

#[test]
fn the_last_write_of_a_key_wins() {
    let mut p = Params::new();
    set(&mut p, "symbol", "BTCUSDT");
    set(&mut p, "limit", "10");
    set(&mut p, "symbol", "ETHUSDT");
    assert_eq!(p.len(), 2);
    assert_eq!(p.get("symbol"), Some("ETHUSDT".to_string()));
    assert_eq!(p.to_query(), "limit=10&symbol=ETHUSDT");
}

#[test]
fn get_finds_what_is_there_and_nothing_else() {
    let mut p = Params::new();
    set(&mut p, "a", "1");
    set(&mut p, "c", "3");
    assert_eq!(p.get("a"), Some("1".to_string()));
    assert_eq!(p.get("c"), Some("3".to_string()));
    assert_eq!(p.get("b"), None);
    assert_eq!(p.get(""), None);
}

#[test]
fn remove_takes_out_one_key() {
    let mut p = Params::new();
    set(&mut p, "a", "1");
    set(&mut p, "b", "2");
    set(&mut p, "c", "3");
    p.remove("b");
    assert_eq!(p.to_query(), "a=1&c=3");
    p.remove("b");
    assert_eq!(p.to_query(), "a=1&c=3");
    p.remove("a");
    p.remove("c");
    assert!(p.is_empty());
    assert_eq!(p.to_query(), "");
}

#[test]
fn an_empty_value_is_kept() {
    let mut p = Params::new();
    set(&mut p, "symbol", "");
    assert_eq!(p.to_query(), "symbol=");
}

#[test]
fn append_pair_separates_all_but_the_first() {
    let mut q = String::new();
    append_pair(&mut q, "a", "1", true);
    assert_eq!(q, "a=1");
    append_pair(&mut q, "b", "2", false);
    assert_eq!(q, "a=1&b=2");
}

#[test]
fn wire_names_are_those_of_the_exchange() {
    assert_eq!(OrderSide::Buy.wire_name(), "BUY");
    assert_eq!(OrderSide::Sell.wire_name(), "SELL");
    assert_eq!(OrderType::Limit.wire_name(), "LIMIT");
    assert_eq!(OrderType::Market.wire_name(), "MARKET");
    assert_eq!(OrderType::StopLoss.wire_name(), "STOP_LOSS");
    assert_eq!(OrderType::StopLossLimit.wire_name(), "STOP_LOSS_LIMIT");
    assert_eq!(OrderType::TakeProfit.wire_name(), "TAKE_PROFIT");
    assert_eq!(OrderType::TakeProfitLimit.wire_name(), "TAKE_PROFIT_LIMIT");
    assert_eq!(OrderType::LimitMaker.wire_name(), "LIMIT_MAKER");
    assert_eq!(TimeInForce::GTC.wire_name(), "GTC");
    assert_eq!(TimeInForce::IOC.wire_name(), "IOC");
    assert_eq!(TimeInForce::FOK.wire_name(), "FOK");
    assert_eq!(OrderResponse::Ack.wire_name(), "ACK");
    assert_eq!(OrderResponse::Result.wire_name(), "RESULT");
    assert_eq!(OrderResponse::Full.wire_name(), "FULL");
}

#[test]
fn defaults_are_buy_market_and_good_till_cancelled() {
    assert_eq!(OrderSide::default(), OrderSide::Buy);
    assert_eq!(OrderType::default(), OrderType::Market);
    assert_eq!(TimeInForce::default(), TimeInForce::GTC);
    let o = OrderRequest::default();
    assert_eq!(o.symbol, "");
    assert_eq!(o.side, OrderSide::Buy);
    assert_eq!(o.order_type, OrderType::Market);
    assert_eq!(o.time_in_force, None);
    assert_eq!(o.recv_window, None);
    assert_eq!(o.to_params().to_query(), "side=BUY&symbol=&type=MARKET");
}

#[test]
fn an_order_encodes_its_present_fields_only() {
    let order = OrderRequest {
        symbol: "BTCUSDT".to_string(),
        quantity: Some(Decimal::new(100, 1)),
        price: Some(Decimal::new(14000, 6)),
        order_type: OrderType::Limit,
        side: OrderSide::Buy,
        time_in_force: Some(TimeInForce::FOK),
        ..OrderRequest::default()
    };
    let p = order.to_params();
    assert_eq!(p.len(), 6);
    assert_eq!(
        p.to_query(),
        "price=0.014&quantity=10&side=BUY&symbol=BTCUSDT&timeInForce=FOK&type=LIMIT"
    );
    assert_eq!(p.get("stopPrice"), None);
    assert_eq!(p.get("icebergQty"), None);
    assert_eq!(p.get("recvWindow"), None);
}

#[test]
fn an_order_with_every_field_encodes_them_all_sorted() {
    let order = OrderRequest {
        symbol: "ETHBTC".to_string(),
        side: OrderSide::Sell,
        order_type: OrderType::StopLossLimit,
        time_in_force: Some(TimeInForce::GTC),
        quantity: Some(Decimal::new(25, 1)),
        quote_order_qty: Some(Decimal::new(7, 0)),
        price: Some(Decimal::new(31, 3)),
        new_client_order_id: Some("mine".to_string()),
        stop_price: Some(Decimal::new(3, 2)),
        iceberg_qty: Some(Decimal::new(5, 1)),
        new_order_resp_type: Some(OrderResponse::Full),
        recv_window: Some(1000),
    };
    assert_eq!(
        order.to_params().to_query(),
        "icebergQty=0.5&newClientOrderId=mine&newOrderRespType=FULL&price=0.031&quantity=2.5\
         &quoteOrderQty=7&side=SELL&stopPrice=0.03&symbol=ETHBTC&timeInForce=GTC\
         &type=STOP_LOSS_LIMIT"
    );
}

#[test]
fn the_receive_window_is_not_among_the_encoded_fields() {
    let with = OrderStatusRequest {
        symbol: "BTCUSDT".to_string(),
        order_id: Some(1),
        orig_client_order_id: None,
        recv_window: Some(3000),
    };
    let without = OrderStatusRequest { recv_window: None, ..with.clone() };
    assert_eq!(with.to_params().to_query(), "orderId=1&symbol=BTCUSDT");
    assert_eq!(without.to_params().to_query(), "orderId=1&symbol=BTCUSDT");
}

#[test]
fn a_cancellation_encodes_either_id_or_both_or_none() {
    let both = OrderCancellation {
        symbol: "BTCUSDT".to_string(),
        order_id: Some(1),
        orig_client_order_id: Some("my_id".to_string()),
        new_client_order_id: None,
        recv_window: None,
    };
    assert_eq!(
        both.to_params().to_query(),
        "orderId=1&origClientOrderId=my_id&symbol=BTCUSDT"
    );
    let none = OrderCancellation {
        symbol: "BTCUSDT".to_string(),
        ..OrderCancellation::default()
    };
    assert_eq!(none.to_params().to_query(), "symbol=BTCUSDT");
    let renamed = OrderCancellation {
        symbol: "BTCUSDT".to_string(),
        new_client_order_id: Some("again".to_string()),
        order_id: Some(77),
        ..OrderCancellation::default()
    };
    assert_eq!(
        renamed.to_params().to_query(),
        "newClientOrderId=again&orderId=77&symbol=BTCUSDT"
    );
}

#[test]
fn a_status_request_encodes_its_filters() {
    let osr = OrderStatusRequest {
        symbol: "BTCUSDT".to_string(),
        order_id: Some(1),
        orig_client_order_id: Some("my_id".to_string()),
        recv_window: None,
    };
    assert_eq!(
        osr.to_params().to_query(),
        "orderId=1&origClientOrderId=my_id&symbol=BTCUSDT"
    );
    assert_eq!(OrderStatusRequest::default().to_params().to_query(), "symbol=");
}

#[test]
fn an_orders_query_encodes_its_filters() {
    let bare = OrdersQuery {
        symbol: "BTCUSDT".to_string(),
        order_id: None,
        start_time: None,
        end_time: None,
        limit: None,
        recv_window: None,
    };
    assert_eq!(bare.to_params().to_query(), "symbol=BTCUSDT");
    let full = OrdersQuery {
        symbol: "BTCUSDT".to_string(),
        order_id: Some(12),
        start_time: Some(1600000000000),
        end_time: Some(1700000000000),
        limit: Some(1000),
        recv_window: Some(60000),
    };
    assert_eq!(
        full.to_params().to_query(),
        "endTime=1700000000000&limit=1000&orderId=12&startTime=1600000000000&symbol=BTCUSDT"
    );
    assert_eq!(OrdersQuery::default().limit, None);
}

#[test]
fn a_sub_account_request_encodes_its_label() {
    let req = SubAccountCreationReq { sub_account_string: "desk".to_string() };
    assert_eq!(req.to_params().to_query(), "subAccountString=desk");
}

#[test]
fn requests_built_in_different_field_order_encode_alike() {
    let mut a = OrderRequest::default();
    a.symbol = "BTCUSDT".to_string();
    a.price = Some(Decimal::new(14, 3));
    a.quantity = Some(Decimal::new(10, 0));
    a.time_in_force = Some(TimeInForce::GTC);
    a.order_type = OrderType::Limit;
    let mut b = OrderRequest::default();
    b.order_type = OrderType::Limit;
    b.time_in_force = Some(TimeInForce::GTC);
    b.quantity = Some(Decimal::new(100, 1));
    b.price = Some(Decimal::new(140, 4));
    b.symbol = "BTCUSDT".to_string();
    assert_eq!(a.to_params().to_query(), b.to_params().to_query());
    assert_eq!(
        a.to_params().to_query(),
        "price=0.014&quantity=10&side=BUY&symbol=BTCUSDT&timeInForce=GTC&type=LIMIT"
    );
}

#[test]
fn a_copy_holds_the_same_parameters() {
    let mut p = Params::new();
    set(&mut p, "symbol", "BTCUSDT");
    set(&mut p, "limit", "10");
    let mut c = p.clone();
    assert_eq!(c.to_query(), "limit=10&symbol=BTCUSDT");
    set(&mut c, "limit", "20");
    assert_eq!(c.to_query(), "limit=20&symbol=BTCUSDT");
    assert_eq!(p.to_query(), "limit=10&symbol=BTCUSDT");
}
