//! The requests of the account and trading endpoints, the wire names of their
//! enumerations, and the parameters that each request stands for.

use crate::decimal::Decimal;
use crate::error::Error;
use crate::params::{sorted_by_key, Params};
use crate::text::{dec_text, u64_to_string};
use vstd::prelude::*;
use vstd::string::*;

verus! {

/// The side of an order.
#[derive(Clone, Copy, Debug, PartialEq, Eq)]
pub enum OrderSide {
    Buy,
    Sell,
}

/// The type of an order.
#[derive(Clone, Copy, Debug, PartialEq, Eq)]
pub enum OrderType {
    Limit,
    Market,
    StopLoss,
    StopLossLimit,
    TakeProfit,
    TakeProfitLimit,
    LimitMaker,
}

/// How long an order stays in force.
#[derive(Clone, Copy, Debug, PartialEq, Eq)]
pub enum TimeInForce {
    /// Good till cancelled.
    GTC,
    /// Immediate or cancel.
    IOC,
    /// Fill or kill.
    FOK,
}

/// How much the exchange reports back on a new order.
#[derive(Clone, Copy, Debug, PartialEq, Eq)]
pub enum OrderResponse {
    Ack,
    Result,
    Full,
}

impl OrderSide {
    /// The name of the side on the wire.
    pub open spec fn wire_text(&self) -> Seq<char> {
        match self {
            OrderSide::Buy => "BUY"@,
            OrderSide::Sell => "SELL"@,
        }
    }

    /// The name of the side on the wire.
    pub fn wire_name(&self) -> (s: &'static str)
        ensures
            s@ == self.wire_text(),
    {
        match self {
            OrderSide::Buy => "BUY",
            OrderSide::Sell => "SELL",
        }
    }
}

impl Default for OrderSide {
    /// Orders buy unless told otherwise.
    fn default() -> (s: OrderSide)
        ensures
            s == OrderSide::Buy,
    {
        OrderSide::Buy
    }
}

impl OrderType {
    /// The name of the type on the wire.
    pub open spec fn wire_text(&self) -> Seq<char> {
        match self {
            OrderType::Limit => "LIMIT"@,
            OrderType::Market => "MARKET"@,
            OrderType::StopLoss => "STOP_LOSS"@,
            OrderType::StopLossLimit => "STOP_LOSS_LIMIT"@,
            OrderType::TakeProfit => "TAKE_PROFIT"@,
            OrderType::TakeProfitLimit => "TAKE_PROFIT_LIMIT"@,
            OrderType::LimitMaker => "LIMIT_MAKER"@,
        }
    }

    /// The name of the type on the wire.
    pub fn wire_name(&self) -> (s: &'static str)
        ensures
            s@ == self.wire_text(),
    {
        match self {
            OrderType::Limit => "LIMIT",
            OrderType::Market => "MARKET",
            OrderType::StopLoss => "STOP_LOSS",
            OrderType::StopLossLimit => "STOP_LOSS_LIMIT",
            OrderType::TakeProfit => "TAKE_PROFIT",
            OrderType::TakeProfitLimit => "TAKE_PROFIT_LIMIT",
            OrderType::LimitMaker => "LIMIT_MAKER",
        }
    }
}

impl Default for OrderType {
    /// Orders are market orders unless told otherwise.
    fn default() -> (t: OrderType)
        ensures
            t == OrderType::Market,
    {
        OrderType::Market
    }
}

impl TimeInForce {
    /// The name of the policy on the wire.
    pub open spec fn wire_text(&self) -> Seq<char> {
        match self {
            TimeInForce::GTC => "GTC"@,
            TimeInForce::IOC => "IOC"@,
            TimeInForce::FOK => "FOK"@,
        }
    }

    /// The name of the policy on the wire.
    pub fn wire_name(&self) -> (s: &'static str)
        ensures
            s@ == self.wire_text(),
    {
        match self {
            TimeInForce::GTC => "GTC",
            TimeInForce::IOC => "IOC",
            TimeInForce::FOK => "FOK",
        }
    }
}

impl Default for TimeInForce {
    /// Orders are good till cancelled unless told otherwise.
    fn default() -> (t: TimeInForce)
        ensures
            t == TimeInForce::GTC,
    {
        TimeInForce::GTC
    }
}

impl OrderResponse {
    /// The name of the selector on the wire.
    pub open spec fn wire_text(&self) -> Seq<char> {
        match self {
            OrderResponse::Ack => "ACK"@,
            OrderResponse::Result => "RESULT"@,
            OrderResponse::Full => "FULL"@,
        }
    }

    /// The name of the selector on the wire.
    pub fn wire_name(&self) -> (s: &'static str)
        ensures
            s@ == self.wire_text(),
    {
        match self {
            OrderResponse::Ack => "ACK",
            OrderResponse::Result => "RESULT",
            OrderResponse::Full => "FULL",
        }
    }
}

/// A mapping with `k` set to `v` where there is a value, unchanged where
/// there is none: a field that is absent leaves no parameter behind.
pub open spec fn put(m: Map<Seq<char>, Seq<char>>, k: Seq<char>, v: Option<Seq<char>>) -> Map<
    Seq<char>,
    Seq<char>,
> {
    match v {
        Some(x) => m.insert(k, x),
        None => m,
    }
}

/// The rendering of an optional decimal.
pub open spec fn decimal_opt(v: Option<Decimal>) -> Option<Seq<char>> {
    match v {
        Some(d) => Some(d.text()),
        None => None,
    }
}

/// The rendering of an optional integer.
pub open spec fn number_opt(v: Option<u64>) -> Option<Seq<char>> {
    match v {
        Some(n) => Some(dec_text(n as nat)),
        None => None,
    }
}

/// The characters of an optional string.
pub open spec fn string_opt(v: Option<String>) -> Option<Seq<char>> {
    match v {
        Some(s) => Some(s@),
        None => None,
    }
}

fn put_str(p: &mut Params, key: &str, value: &str)
    ensures
        final(p)@ == old(p)@.insert(key@, value@),
        sorted_by_key(final(p).pairs()),
{
    p.insert(String::from_str(key), String::from_str(value));
}

fn put_decimal(p: &mut Params, key: &str, value: &Option<Decimal>)
    ensures
        final(p)@ == put(old(p)@, key@, decimal_opt(*value)),
{
    match value {
        Some(d) => p.insert(String::from_str(key), d.to_text()),
        None => {},
    }
}

fn put_number(p: &mut Params, key: &str, value: &Option<u64>)
    ensures
        final(p)@ == put(old(p)@, key@, number_opt(*value)),
{
    match value {
        Some(n) => p.insert(String::from_str(key), u64_to_string(*n)),
        None => {},
    }
}

fn put_string(p: &mut Params, key: &str, value: &Option<String>)
    ensures
        final(p)@ == put(old(p)@, key@, string_opt(*value)),
{
    match value {
        Some(s) => p.insert(String::from_str(key), s.clone()),
        None => {},
    }
}

/// A request to place an order.
#[derive(Clone, Debug, PartialEq, Eq)]
pub struct OrderRequest {
    pub symbol: String,
    pub side: OrderSide,
    pub order_type: OrderType,
    pub time_in_force: Option<TimeInForce>,
    pub quantity: Option<Decimal>,
    pub quote_order_qty: Option<Decimal>,
    pub price: Option<Decimal>,
    /// A unique id for the order; the exchange makes one up if there is none.
    pub new_client_order_id: Option<String>,
    /// For stop-loss and take-profit orders, plain or with a limit.
    pub stop_price: Option<Decimal>,
    /// Makes a limit order an iceberg order.
    pub iceberg_qty: Option<Decimal>,
    /// How much the exchange reports back.
    pub new_order_resp_type: Option<OrderResponse>,
    /// In milliseconds; the exchange takes no more than 60000.
    pub recv_window: Option<u64>,
}

/// The message of the rule on iceberg orders.
pub open spec fn iceberg_rule_text() -> Seq<char> {
    "Time in force has to be GTC for iceberg orders"@
}

impl OrderRequest {
    /// The rules of the exchange that are checked before an order is sent:
    /// an iceberg order has to be good till cancelled.
    pub open spec fn is_valid(&self) -> bool {
        self.iceberg_qty is Some ==> self.time_in_force == Some(TimeInForce::GTC)
    }

    /// Checks the order against the rules of the exchange.
    pub fn valid(&self) -> (r: Result<(), Error>)
        ensures
            r is Ok <==> self.is_valid(),
            r matches Err(e) ==> e is InvalidOrderError && e.text() == iceberg_rule_text(),
    {
        let good_till_cancelled: bool = match self.time_in_force {
            Some(TimeInForce::GTC) => true,
            _ => false,
        };
        if self.iceberg_qty.is_some() && !good_till_cancelled {
            return Err(
                Error::InvalidOrderError {
                    msg: String::from_str("Time in force has to be GTC for iceberg orders"),
                },
            );
        }
        Ok(())
    }

    /// The parameters that the order stands for: one for each field that is
    /// present, none for a field that is absent. The receive window is not
    /// among them: it is the signer's to add.
    pub open spec fn params_map(&self) -> Map<Seq<char>, Seq<char>> {
        let m = Map::<Seq<char>, Seq<char>>::empty().insert("symbol"@, self.symbol@).insert(
            "side"@,
            self.side.wire_text(),
        ).insert("type"@, self.order_type.wire_text());
        let m = put(
            m,
            "timeInForce"@,
            match self.time_in_force {
                Some(t) => Some(t.wire_text()),
                None => None,
            },
        );
        let m = put(m, "quantity"@, decimal_opt(self.quantity));
        let m = put(m, "quoteOrderQty"@, decimal_opt(self.quote_order_qty));
        let m = put(m, "price"@, decimal_opt(self.price));
        let m = put(m, "newClientOrderId"@, string_opt(self.new_client_order_id));
        let m = put(m, "stopPrice"@, decimal_opt(self.stop_price));
        let m = put(m, "icebergQty"@, decimal_opt(self.iceberg_qty));
        put(
            m,
            "newOrderRespType"@,
            match self.new_order_resp_type {
                Some(t) => Some(t.wire_text()),
                None => None,
            },
        )
    }

    /// Encodes the order as its parameters.
    pub fn to_params(&self) -> (p: Params)
        ensures
            p@ == self.params_map(),
    {
        let mut p: Params = Params::new();
        put_str(&mut p, "symbol", self.symbol.as_str());
        put_str(&mut p, "side", self.side.wire_name());
        put_str(&mut p, "type", self.order_type.wire_name());
        match self.time_in_force {
            Some(t) => put_str(&mut p, "timeInForce", t.wire_name()),
            None => {},
        }
        put_decimal(&mut p, "quantity", &self.quantity);
        put_decimal(&mut p, "quoteOrderQty", &self.quote_order_qty);
        put_decimal(&mut p, "price", &self.price);
        put_string(&mut p, "newClientOrderId", &self.new_client_order_id);
        put_decimal(&mut p, "stopPrice", &self.stop_price);
        put_decimal(&mut p, "icebergQty", &self.iceberg_qty);
        match self.new_order_resp_type {
            Some(t) => put_str(&mut p, "newOrderRespType", t.wire_name()),
            None => {},
        }
        p
    }
}

impl Default for OrderRequest {
    /// A market buy of nothing yet named: every optional field absent.
    fn default() -> (o: OrderRequest)
        ensures
            o.symbol@ == Seq::<char>::empty(),
            o.side == OrderSide::Buy,
            o.order_type == OrderType::Market,
            o.time_in_force is None,
            o.quantity is None,
            o.quote_order_qty is None,
            o.price is None,
            o.new_client_order_id is None,
            o.stop_price is None,
            o.iceberg_qty is None,
            o.new_order_resp_type is None,
            o.recv_window is None,
    {
        OrderRequest {
            symbol: String::new(),
            side: OrderSide::Buy,
            order_type: OrderType::Market,
            time_in_force: None,
            quantity: None,
            quote_order_qty: None,
            price: None,
            new_client_order_id: None,
            stop_price: None,
            iceberg_qty: None,
            new_order_resp_type: None,
            recv_window: None,
        }
    }
}

/// A request to cancel an order, named by the exchange's id or by the
/// client's. Neither is demanded here: the exchange refuses a cancellation
/// that names no order.
#[derive(Clone, Debug, PartialEq, Eq)]
pub struct OrderCancellation {
    pub symbol: String,
    pub order_id: Option<u64>,
    pub orig_client_order_id: Option<String>,
    /// Identifies this cancellation; the exchange makes one up if there is none.
    pub new_client_order_id: Option<String>,
    /// In milliseconds; the exchange takes no more than 60000.
    pub recv_window: Option<u64>,
}

impl OrderCancellation {
    /// The parameters that the cancellation stands for.
    pub open spec fn params_map(&self) -> Map<Seq<char>, Seq<char>> {
        let m = Map::<Seq<char>, Seq<char>>::empty().insert("symbol"@, self.symbol@);
        let m = put(m, "orderId"@, number_opt(self.order_id));
        let m = put(m, "origClientOrderId"@, string_opt(self.orig_client_order_id));
        put(m, "newClientOrderId"@, string_opt(self.new_client_order_id))
    }

    /// Encodes the cancellation as its parameters.
    pub fn to_params(&self) -> (p: Params)
        ensures
            p@ == self.params_map(),
    {
        let mut p: Params = Params::new();
        put_str(&mut p, "symbol", self.symbol.as_str());
        put_number(&mut p, "orderId", &self.order_id);
        put_string(&mut p, "origClientOrderId", &self.orig_client_order_id);
        put_string(&mut p, "newClientOrderId", &self.new_client_order_id);
        p
    }
}

impl Default for OrderCancellation {
    /// No symbol and every optional field absent.
    fn default() -> (o: OrderCancellation)
        ensures
            o.symbol@ == Seq::<char>::empty(),
            o.order_id is None,
            o.orig_client_order_id is None,
            o.new_client_order_id is None,
            o.recv_window is None,
    {
        OrderCancellation {
            symbol: String::new(),
            order_id: None,
            orig_client_order_id: None,
            new_client_order_id: None,
            recv_window: None,
        }
    }
}

/// A request for the status of one order.
#[derive(Clone, Debug, PartialEq, Eq)]
pub struct OrderStatusRequest {
    pub symbol: String,
    pub order_id: Option<u64>,
    pub orig_client_order_id: Option<String>,
    /// In milliseconds; the exchange takes no more than 60000.
    pub recv_window: Option<u64>,
}

impl OrderStatusRequest {
    /// The parameters that the request stands for.
    pub open spec fn params_map(&self) -> Map<Seq<char>, Seq<char>> {
        let m = Map::<Seq<char>, Seq<char>>::empty().insert("symbol"@, self.symbol@);
        let m = put(m, "orderId"@, number_opt(self.order_id));
        put(m, "origClientOrderId"@, string_opt(self.orig_client_order_id))
    }

    /// Encodes the request as its parameters.
    pub fn to_params(&self) -> (p: Params)
        ensures
            p@ == self.params_map(),
    {
        let mut p: Params = Params::new();
        put_str(&mut p, "symbol", self.symbol.as_str());
        put_number(&mut p, "orderId", &self.order_id);
        put_string(&mut p, "origClientOrderId", &self.orig_client_order_id);
        p
    }
}

impl Default for OrderStatusRequest {
    /// No symbol and every optional field absent.
    fn default() -> (o: OrderStatusRequest)
        ensures
            o.symbol@ == Seq::<char>::empty(),
            o.order_id is None,
            o.orig_client_order_id is None,
            o.recv_window is None,
    {
        OrderStatusRequest {
            symbol: String::new(),
            order_id: None,
            orig_client_order_id: None,
            recv_window: None,
        }
    }
}

/// A query for all orders of a symbol.
#[derive(Clone, Debug, PartialEq, Eq)]
pub struct OrdersQuery {
    pub symbol: String,
    pub order_id: Option<u64>,
    pub start_time: Option<u64>,
    pub end_time: Option<u64>,
    /// The exchange returns 500 orders where there is no limit, and 1000 at most.
    pub limit: Option<u32>,
    /// In milliseconds; the exchange takes no more than 60000.
    pub recv_window: Option<u64>,
}

impl OrdersQuery {
    /// The parameters that the query stands for.
    pub open spec fn params_map(&self) -> Map<Seq<char>, Seq<char>> {
        let m = Map::<Seq<char>, Seq<char>>::empty().insert("symbol"@, self.symbol@);
        let m = put(m, "orderId"@, number_opt(self.order_id));
        let m = put(m, "startTime"@, number_opt(self.start_time));
        let m = put(m, "endTime"@, number_opt(self.end_time));
        put(
            m,
            "limit"@,
            match self.limit {
                Some(n) => Some(dec_text(n as nat)),
                None => None,
            },
        )
    }

    /// Encodes the query as its parameters.
    pub fn to_params(&self) -> (p: Params)
        ensures
            p@ == self.params_map(),
    {
        let mut p: Params = Params::new();
        put_str(&mut p, "symbol", self.symbol.as_str());
        put_number(&mut p, "orderId", &self.order_id);
        put_number(&mut p, "startTime", &self.start_time);
        put_number(&mut p, "endTime", &self.end_time);
        match self.limit {
            Some(n) => {
                let text: String = u64_to_string(n as u64);
                put_str(&mut p, "limit", text.as_str());
            },
            None => {},
        }
        p
    }
}

impl Default for OrdersQuery {
    /// No symbol and every optional field absent.
    fn default() -> (o: OrdersQuery)
        ensures
            o.symbol@ == Seq::<char>::empty(),
            o.order_id is None,
            o.start_time is None,
            o.end_time is None,
            o.limit is None,
            o.recv_window is None,
    {
        OrdersQuery {
            symbol: String::new(),
            order_id: None,
            start_time: None,
            end_time: None,
            limit: None,
            recv_window: None,
        }
    }
}

/// The request that creates a virtual sub-account.
#[derive(Clone, Debug, PartialEq, Eq)]
pub struct SubAccountCreationReq {
    pub sub_account_string: String,
}

impl SubAccountCreationReq {
    /// The parameters that the request stands for.
    pub open spec fn params_map(&self) -> Map<Seq<char>, Seq<char>> {
        Map::<Seq<char>, Seq<char>>::empty().insert("subAccountString"@, self.sub_account_string@)
    }

    /// Encodes the request as its parameters.
    pub fn to_params(&self) -> (p: Params)
        ensures
            p@ == self.params_map(),
    {
        let mut p: Params = Params::new();
        put_str(&mut p, "subAccountString", self.sub_account_string.as_str());
        p
    }
}

/// What an account holds of one asset.
#[derive(Clone, Debug, PartialEq, Eq)]
pub struct Balance {
    pub asset: String,
    pub free: Decimal,
    pub locked: Decimal,
}

/// What the exchange reports of an account, as far as the library reads it.
#[derive(Clone, Debug, PartialEq, Eq)]
pub struct AccountInformation {
    pub balances: Vec<Balance>,
}

} // verus!
