//! The account operations. Each one turns its arguments into the request
//! that is to be sent: the verb, the path, and the signed query string. The
//! caller sends it and decodes the answer.

use crate::error::Error;
use crate::model::{
    iceberg_rule_text, AccountInformation, Balance, OrderCancellation, OrderRequest,
    OrderStatusRequest, OrdersQuery, SubAccountCreationReq,
};
use crate::params::Params;
use crate::signer::{sign, signed};
use vstd::prelude::*;
use vstd::string::*;

verus! {

/// General account information.
pub const API_V3_ACCOUNT: &'static str = "/api/v3/account";

/// The open orders, of one symbol or of all.
pub const API_V3_OPEN_ORDERS: &'static str = "/api/v3/openOrders";

/// All orders of a symbol, open or not.
pub const API_V3_ALL_ORDERS: &'static str = "/api/v3/allOrders";

/// The trades of the account.
pub const API_V3_MYTRADES: &'static str = "/api/v3/myTrades";

/// One order: placed, queried or cancelled.
pub const API_V3_ORDER: &'static str = "/api/v3/order";

/// Orders sent here are validated by the exchange but not matched.
pub const API_V3_ORDER_TEST: &'static str = "/api/v3/order/test";

/// Virtual sub-accounts.
pub const API_VIRTUAL_SUB_ACCOUNT: &'static str = "/sapi/v1/sub-account/virtualSubAccount";

/// The verb of a request.
#[derive(Clone, Copy, Debug, PartialEq, Eq)]
pub enum Verb {
    Get,
    Post,
    Delete,
}

/// A request that is ready to be sent: the query string carries every
/// parameter and the signature, and there is no body.
#[derive(Clone, Debug, PartialEq, Eq)]
pub struct SignedRequest {
    pub verb: Verb,
    pub path: String,
    pub query: String,
}

/// The credentials of an account and the host they are for.
#[derive(Clone, Debug, PartialEq, Eq)]
pub struct Client {
    pub api_key: String,
    pub secret_key: String,
    pub host: String,
}

/// Access to the account endpoints.
#[derive(Clone, Debug)]
pub struct Account {
    pub client: Client,
    /// The receive window, in milliseconds, of requests that name none.
    pub recv_window: u64,
}

/// The receive window of a request: its own where it names one, the
/// configured one where it does not.
pub open spec fn effective_window(own: Option<u64>, configured: u64) -> u64 {
    match own {
        Some(w) => w,
        None => configured,
    }
}

/// The message of the error for an asset that the account does not hold.
pub open spec fn asset_not_found_text() -> Seq<char> {
    "Asset not found"@
}

/// Whether `i` is the place of the first balance of `asset`.
pub open spec fn first_holding(balances: Seq<Balance>, asset: Seq<char>, i: int) -> bool {
    &&& 0 <= i < balances.len()
    &&& balances[i].asset@ == asset
    &&& forall|j: int| 0 <= j < i ==> (#[trigger] balances[j]).asset@ != asset
}

/// Whether two outcomes are the same: the same request, or the same error.
pub open spec fn same_outcome(a: Result<SignedRequest, Error>, b: Result<SignedRequest, Error>) -> bool {
    match (a, b) {
        (Ok(x), Ok(y)) => x.verb == y.verb && x.path@ == y.path@ && x.query@ == y.query@,
        (Err(x), Err(y)) => x.same_as(&y),
        _ => false,
    }
}

/// Whether two outcomes differ in the path at most: the same verb and query
/// string, or the same error.
pub open spec fn same_but_path(a: Result<SignedRequest, Error>, b: Result<SignedRequest, Error>) -> bool {
    match (a, b) {
        (Ok(x), Ok(y)) => x.verb == y.verb && x.query@ == y.query@,
        (Err(x), Err(y)) => x.same_as(&y),
        _ => false,
    }
}

impl Account {
    /// An account with the given credentials and receive window.
    pub fn new(client: Client, recv_window: u64) -> (a: Account)
        ensures
            a.client == client,
            a.recv_window == recv_window,
    {
        Account { client, recv_window }
    }

    /// The receive window of a request: its own where it names one, that of
    /// the account where it does not.
    pub fn window_for(&self, own: Option<u64>) -> (w: u64)
        ensures
            w == effective_window(own, self.recv_window),
    {
        match own {
            Some(w) => w,
            None => self.recv_window,
        }
    }

    /// What every operation hands back for the parameters `m`: under a secret
    /// that is not empty the request with the given verb and path and the
    /// query string signed for `timestamp` and `recv_window`; under an empty
    /// secret a configuration error.
    pub open spec fn prepared(
        &self,
        r: Result<SignedRequest, Error>,
        verb: Verb,
        path: Seq<char>,
        m: Map<Seq<char>, Seq<char>>,
        recv_window: u64,
        timestamp: u64,
    ) -> bool {
        match r {
            Ok(req) => {
                &&& req.verb == verb
                &&& req.path@ == path
                &&& signed(Ok(req.query), m, self.client.secret_key@, timestamp, recv_window)
            },
            Err(e) => signed(Err(e), m, self.client.secret_key@, timestamp, recv_window),
        }
    }

    /// What placing an order hands back, at the live path and at the test
    /// path alike: for an order that breaks a rule the validation error, and
    /// nothing to send; for any other the signed request, with the order's
    /// own receive window where it names one.
    pub open spec fn placed(
        &self,
        r: Result<SignedRequest, Error>,
        order: &OrderRequest,
        path: Seq<char>,
        timestamp: u64,
    ) -> bool {
        if order.is_valid() {
            self.prepared(
                r,
                Verb::Post,
                path,
                order.params_map(),
                effective_window(order.recv_window, self.recv_window),
                timestamp,
            )
        } else {
            r matches Err(e) && e is InvalidOrderError && e.text() == iceberg_rule_text()
        }
    }

    /// The one pipeline of all operations: signs `params` with the account's
    /// secret for `timestamp` and `recv_window`, and puts verb and path beside
    /// the result.
    pub fn prepare(
        &self,
        verb: Verb,
        path: &str,
        params: Params,
        recv_window: u64,
        timestamp: u64,
    ) -> (r: Result<SignedRequest, Error>)
        ensures
            self.prepared(r, verb, path@, params@, recv_window, timestamp),
    {
        match sign(params, self.client.secret_key.as_str(), recv_window, timestamp) {
            Ok(query) => Ok(SignedRequest { verb, path: String::from_str(path), query }),
            Err(e) => Err(e),
        }
    }

    fn place(&self, order: &OrderRequest, path: &str, timestamp: u64) -> (r: Result<
        SignedRequest,
        Error,
    >)
        ensures
            self.placed(r, order, path@, timestamp),
    {
        match order.valid() {
            Err(e) => Err(e),
            Ok(_) => {
                let recv_window: u64 = self.window_for(order.recv_window);
                self.prepare(Verb::Post, path, order.to_params(), recv_window, timestamp)
            },
        }
    }

    /// General account information: no parameter but the signer's.
    pub fn get_account(&self, timestamp: u64) -> (r: Result<SignedRequest, Error>)
        ensures
            self.prepared(
                r,
                Verb::Get,
                API_V3_ACCOUNT@,
                Map::empty(),
                self.recv_window,
                timestamp,
            ),
    {
        self.prepare(Verb::Get, API_V3_ACCOUNT, Params::new(), self.recv_window, timestamp)
    }

    /// The balance of one asset, looked up in what the exchange reported of
    /// the account: the first balance of that asset, or an error where the
    /// account holds none. Nothing is asked of the exchange.
    pub fn get_balance(&self, account: &AccountInformation, asset: &str) -> (r: Result<
        Balance,
        Error,
    >)
        ensures
            r matches Ok(b) ==> exists|i: int|
                first_holding(account.balances@, asset@, i) && b.asset@ == asset@ && b.free
                    == account.balances@[i].free && b.locked == account.balances@[i].locked,
            r matches Err(e) ==> e is Msg && e.text() == asset_not_found_text() && forall|i: int|
                0 <= i < account.balances@.len() ==> (#[trigger] account.balances@[i]).asset@
                    != asset@,
    {
        let wanted: String = String::from_str(asset);
        let n: usize = account.balances.len();
        let mut i: usize = 0;
        while i < n
            invariant
                i <= n,
                n == account.balances@.len(),
                wanted@ == asset@,
                forall|j: int| 0 <= j < i ==> (#[trigger] account.balances@[j]).asset@ != asset@,
            decreases n - i,
        {
            if account.balances[i].asset == wanted {
                assert(first_holding(account.balances@, asset@, i as int));
                return Ok(
                    Balance {
                        asset: account.balances[i].asset.clone(),
                        free: account.balances[i].free,
                        locked: account.balances[i].locked,
                    },
                );
            }
            i += 1;
        }
        Err(Error::Msg(String::from_str("Asset not found")))
    }

    /// All open orders of one symbol.
    pub fn get_open_orders(&self, symbol: &str, timestamp: u64) -> (r: Result<SignedRequest, Error>)
        ensures
            self.prepared(
                r,
                Verb::Get,
                API_V3_OPEN_ORDERS@,
                Map::empty().insert("symbol"@, symbol@),
                self.recv_window,
                timestamp,
            ),
    {
        let mut params: Params = Params::new();
        params.insert(String::from_str("symbol"), String::from_str(symbol));
        self.prepare(Verb::Get, API_V3_OPEN_ORDERS, params, self.recv_window, timestamp)
    }

    /// All orders of the account that the query selects.
    pub fn get_all_orders(&self, query: &OrdersQuery, timestamp: u64) -> (r: Result<
        SignedRequest,
        Error,
    >)
        ensures
            self.prepared(
                r,
                Verb::Get,
                API_V3_ALL_ORDERS@,
                query.params_map(),
                effective_window(query.recv_window, self.recv_window),
                timestamp,
            ),
    {
        let recv_window: u64 = self.window_for(query.recv_window);
        self.prepare(Verb::Get, API_V3_ALL_ORDERS, query.to_params(), recv_window, timestamp)
    }

    /// All open orders of the account, whatever the symbol.
    pub fn get_all_open_orders(&self, timestamp: u64) -> (r: Result<SignedRequest, Error>)
        ensures
            self.prepared(
                r,
                Verb::Get,
                API_V3_OPEN_ORDERS@,
                Map::empty(),
                self.recv_window,
                timestamp,
            ),
    {
        self.prepare(Verb::Get, API_V3_OPEN_ORDERS, Params::new(), self.recv_window, timestamp)
    }

    /// Cancels all open orders of one symbol.
    pub fn cancel_all_open_orders(&self, symbol: &str, timestamp: u64) -> (r: Result<
        SignedRequest,
        Error,
    >)
        ensures
            self.prepared(
                r,
                Verb::Delete,
                API_V3_OPEN_ORDERS@,
                Map::empty().insert("symbol"@, symbol@),
                self.recv_window,
                timestamp,
            ),
    {
        let mut params: Params = Params::new();
        params.insert(String::from_str("symbol"), String::from_str(symbol));
        self.prepare(Verb::Delete, API_V3_OPEN_ORDERS, params, self.recv_window, timestamp)
    }

    /// The status of one order.
    pub fn order_status(&self, osr: &OrderStatusRequest, timestamp: u64) -> (r: Result<
        SignedRequest,
        Error,
    >)
        ensures
            self.prepared(
                r,
                Verb::Get,
                API_V3_ORDER@,
                osr.params_map(),
                effective_window(osr.recv_window, self.recv_window),
                timestamp,
            ),
    {
        let recv_window: u64 = self.window_for(osr.recv_window);
        self.prepare(Verb::Get, API_V3_ORDER, osr.to_params(), recv_window, timestamp)
    }

    /// The status request of `order_status`, sent to the test path.
    pub fn test_order_status(&self, osr: &OrderStatusRequest, timestamp: u64) -> (r: Result<
        SignedRequest,
        Error,
    >)
        ensures
            self.prepared(
                r,
                Verb::Get,
                API_V3_ORDER_TEST@,
                osr.params_map(),
                effective_window(osr.recv_window, self.recv_window),
                timestamp,
            ),
    {
        let recv_window: u64 = self.window_for(osr.recv_window);
        self.prepare(Verb::Get, API_V3_ORDER_TEST, osr.to_params(), recv_window, timestamp)
    }

    /// Places an order. The order is checked against the rules of the
    /// exchange first, and one that breaks a rule yields no request.
    pub fn place_order(&self, order: &OrderRequest, timestamp: u64) -> (r: Result<
        SignedRequest,
        Error,
    >)
        ensures
            self.placed(r, order, API_V3_ORDER@, timestamp),
    {
        self.place(order, API_V3_ORDER, timestamp)
    }

    /// Places a test order: checked and encoded as `place_order` does, and
    /// sent to the test path, where the exchange validates it without
    /// matching it.
    pub fn place_test_order(&self, order: &OrderRequest, timestamp: u64) -> (r: Result<
        SignedRequest,
        Error,
    >)
        ensures
            self.placed(r, order, API_V3_ORDER_TEST@, timestamp),
    {
        self.place(order, API_V3_ORDER_TEST, timestamp)
    }

    /// Cancels one order.
    pub fn cancel_order(&self, o: &OrderCancellation, timestamp: u64) -> (r: Result<
        SignedRequest,
        Error,
    >)
        ensures
            self.prepared(
                r,
                Verb::Delete,
                API_V3_ORDER@,
                o.params_map(),
                effective_window(o.recv_window, self.recv_window),
                timestamp,
            ),
    {
        let recv_window: u64 = self.window_for(o.recv_window);
        self.prepare(Verb::Delete, API_V3_ORDER, o.to_params(), recv_window, timestamp)
    }

    /// The cancellation of `cancel_order`, sent to the test path.
    pub fn test_cancel_order(&self, o: &OrderCancellation, timestamp: u64) -> (r: Result<
        SignedRequest,
        Error,
    >)
        ensures
            self.prepared(
                r,
                Verb::Delete,
                API_V3_ORDER_TEST@,
                o.params_map(),
                effective_window(o.recv_window, self.recv_window),
                timestamp,
            ),
    {
        let recv_window: u64 = self.window_for(o.recv_window);
        self.prepare(Verb::Delete, API_V3_ORDER_TEST, o.to_params(), recv_window, timestamp)
    }

    /// The trades of the account in one symbol.
    pub fn trade_history(&self, symbol: &str, timestamp: u64) -> (r: Result<SignedRequest, Error>)
        ensures
            self.prepared(
                r,
                Verb::Get,
                API_V3_MYTRADES@,
                Map::empty().insert("symbol"@, symbol@),
                self.recv_window,
                timestamp,
            ),
    {
        let mut params: Params = Params::new();
        params.insert(String::from_str("symbol"), String::from_str(symbol));
        self.prepare(Verb::Get, API_V3_MYTRADES, params, self.recv_window, timestamp)
    }

    /// Creates a virtual sub-account under the given label.
    pub fn create_sub_account(&self, label: &str, timestamp: u64) -> (r: Result<
        SignedRequest,
        Error,
    >)
        ensures
            self.prepared(
                r,
                Verb::Post,
                API_VIRTUAL_SUB_ACCOUNT@,
                Map::empty().insert("subAccountString"@, label@),
                self.recv_window,
                timestamp,
            ),
    {
        let request = SubAccountCreationReq { sub_account_string: String::from_str(label) };
        self.prepare(
            Verb::Post,
            API_VIRTUAL_SUB_ACCOUNT,
            request.to_params(),
            self.recv_window,
            timestamp,
        )
    }
}

/// An operation is a function of its inputs: two outcomes for the same
/// account, verb, path, parameters, receive window and timestamp are the
/// same outcome.
pub proof fn lemma_prepared_deterministic(
    account: Account,
    first: Result<SignedRequest, Error>,
    second: Result<SignedRequest, Error>,
    verb: Verb,
    path: Seq<char>,
    m: Map<Seq<char>, Seq<char>>,
    recv_window: u64,
    timestamp: u64,
)
    requires
        account.prepared(first, verb, path, m, recv_window, timestamp),
        account.prepared(second, verb, path, m, recv_window, timestamp),
    ensures
        same_outcome(first, second),
{
}

/// The live and the test placement of an order agree in everything but the
/// path: both refuse the order with the same error, or both hand back the
/// same verb and the same signed query string.
pub proof fn lemma_place_symmetry(
    account: Account,
    order: OrderRequest,
    timestamp: u64,
    live: Result<SignedRequest, Error>,
    test: Result<SignedRequest, Error>,
)
    requires
        account.placed(live, &order, API_V3_ORDER@, timestamp),
        account.placed(test, &order, API_V3_ORDER_TEST@, timestamp),
    ensures
        same_but_path(live, test),
        live matches Ok(req) ==> req.path@ == API_V3_ORDER@,
        test matches Ok(req) ==> req.path@ == API_V3_ORDER_TEST@,
{
}

/// An order that asks for an iceberg without being good till cancelled is
/// refused with a validation error whatever the credentials: there is no
/// request to send.
pub proof fn lemma_validation_gate(
    account: Account,
    order: OrderRequest,
    path: Seq<char>,
    timestamp: u64,
    r: Result<SignedRequest, Error>,
)
    requires
        order.iceberg_qty is Some,
        order.time_in_force != Some(crate::model::TimeInForce::GTC),
        account.placed(r, &order, path, timestamp),
    ensures
        r matches Err(e) && e is InvalidOrderError,
{
}

/// A request that names its own receive window is signed for that one, and
/// one that names none for the configured one.
pub proof fn lemma_window_precedence(own: u64, configured: u64)
    ensures
        effective_window(Some(own), configured) == own,
        effective_window(None, configured) == configured,
{
}

} // verus!
