use vstd::prelude::*;

verus! {

/// Side of an order book an order stands on.
#[derive(Debug, Eq, PartialEq, Copy, Clone, Hash, Structural)]
pub enum OrderSide {
    Buy,
    Sell,
}

/// The side facing `side`.
pub open spec fn opposite(side: OrderSide) -> OrderSide {
    match side {
        OrderSide::Buy => OrderSide::Sell,
        OrderSide::Sell => OrderSide::Buy,
    }
}

impl OrderSide {
    pub fn change_side(&self) -> (r: OrderSide)
        ensures
            r == opposite(*self),
    {
        match self {
            OrderSide::Buy => OrderSide::Sell,
            OrderSide::Sell => OrderSide::Buy,
        }
    }
}

/// Flipping a side that may be absent.
pub trait OptionOrderSideEx {
    spec fn changed_side_opt(&self) -> Option<OrderSide>;

    fn change_side_opt(&self) -> (r: Option<OrderSide>)
        ensures
            r == self.changed_side_opt(),
    ;
}

impl OptionOrderSideEx for Option<OrderSide> {
    open spec fn changed_side_opt(&self) -> Option<OrderSide> {
        match *self {
            None => None,
            Some(side) => Some(opposite(side)),
        }
    }

    fn change_side_opt(&self) -> (r: Option<OrderSide>) {
        match self {
            None => None,
            Some(OrderSide::Buy) => Some(OrderSide::Sell),
            Some(OrderSide::Sell) => Some(OrderSide::Buy),
        }
    }
}

#[derive(Debug, Eq, PartialEq, Copy, Clone, Hash, Structural)]
pub enum OrderRole {
    Maker,
    Taker,
}

impl From<OrderFillRole> for OrderRole {
    fn from(fill_role: OrderFillRole) -> (r: Self) {
        match fill_role {
            OrderFillRole::Maker => OrderRole::Maker,
            OrderFillRole::Taker => OrderRole::Taker,
        }
    }
}

impl vstd::std_specs::convert::FromSpecImpl<OrderFillRole> for OrderRole {
    open spec fn obeys_from_spec() -> bool {
        true
    }

    open spec fn from_spec(fill_role: OrderFillRole) -> Self {
        match fill_role {
            OrderFillRole::Maker => OrderRole::Maker,
            OrderFillRole::Taker => OrderRole::Taker,
        }
    }
}

#[derive(Debug, Eq, PartialEq, Copy, Clone, Hash, Structural)]
pub enum OrderType {
    Unknown,
    Limit,
    Market,
    StopLoss,
    TrailingStop,
    Liquidation,
}

#[derive(Debug, Eq, PartialEq, Copy, Clone, Hash, Structural)]
pub enum OrderExecutionType {
    Regular,
    MakerOnly,
}

/// Relies on String::as_mut_str: the string's whole contents as a mutable slice.
#[verifier::external_body]
fn string_as_mut_str(s: &mut String) -> (r: &mut str)
    ensures
        r@ == old(s)@,
{
    s.as_mut_str()
}

/// Order id assigned on the client side.
#[derive(Debug, Ord, PartialOrd, Eq, PartialEq, Clone, Hash)]
pub struct ClientOrderId(String);

impl ClientOrderId {
    pub closed spec fn view(&self) -> Seq<char> {
        self.0@
    }

    pub fn new(client_order_id: String) -> (r: Self)
        ensures
            r.view() == client_order_id@,
    {
        ClientOrderId(client_order_id)
    }

    /// The whole id as a string slice.
    pub fn as_str(&self) -> (r: &str)
        ensures
            r@ == self.view(),
    {
        self.0.as_str()
    }

    /// The whole id as a mutable string slice.
    pub fn as_mut_str(&mut self) -> (r: &mut str)
        ensures
            r@ == old(self).view(),
    {
        string_as_mut_str(&mut self.0)
    }

    /// The id as text, as it is displayed.
    pub fn to_string(&self) -> (r: String)
        ensures
            r@ == self.view(),
    {
        String::from_str(self.0.as_str())
    }
}

impl From<&str> for ClientOrderId {
    fn from(value: &str) -> (r: Self)
        ensures
            r.view() == value@,
    {
        ClientOrderId(String::from_str(value))
    }
}

impl vstd::std_specs::convert::FromSpecImpl<&str> for ClientOrderId {
    open spec fn obeys_from_spec() -> bool {
        false
    }

    open spec fn from_spec(value: &str) -> Self {
        arbitrary()
    }
}

/// Order id assigned by the exchange.
#[derive(Debug, Ord, PartialOrd, Eq, PartialEq, Clone, Hash)]
pub struct ExchangeOrderId(String);

impl ExchangeOrderId {
    pub closed spec fn view(&self) -> Seq<char> {
        self.0@
    }

    pub fn new(exchange_order_id: String) -> (r: Self)
        ensures
            r.view() == exchange_order_id@,
    {
        ExchangeOrderId(exchange_order_id)
    }

    /// The whole id as a string slice.
    pub fn as_str(&self) -> (r: &str)
        ensures
            r@ == self.view(),
    {
        self.0.as_str()
    }

    /// The whole id as a mutable string slice.
    pub fn as_mut_str(&mut self) -> (r: &mut str)
        ensures
            r@ == old(self).view(),
    {
        string_as_mut_str(&mut self.0)
    }
}

impl From<&str> for ExchangeOrderId {
    fn from(value: &str) -> (r: Self)
        ensures
            r.view() == value@,
    {
        ExchangeOrderId(String::from_str(value))
    }
}

impl vstd::std_specs::convert::FromSpecImpl<&str> for ExchangeOrderId {
    open spec fn obeys_from_spec() -> bool {
        false
    }

    open spec fn from_spec(value: &str) -> Self {
        arbitrary()
    }
}

#[derive(Debug, Eq, PartialEq, Copy, Clone, Hash, Structural)]
pub enum OrderStatus {
    Creating,
    Created,
    FailedToCreate,
    Canceling,
    Canceled,
    FailedToCancel,
    Completed,
}

impl Default for OrderStatus {
    fn default() -> (r: Self)
        ensures
            r == OrderStatus::Creating,
    {
        OrderStatus::Creating
    }
}

/// A status from which an order never moves on.
pub open spec fn status_is_final(status: OrderStatus) -> bool {
    status == OrderStatus::FailedToCreate || status == OrderStatus::Canceled || status
        == OrderStatus::Completed
}

impl OrderStatus {
    pub fn is_finished(&self) -> (r: bool)
        ensures
            r == status_is_final(*self),
    {
        let status = *self;
        status == OrderStatus::FailedToCreate || status == OrderStatus::Canceled || status
            == OrderStatus::Completed
    }
}

/// Id for reserved amount.
#[derive(Debug, Clone, Eq, PartialEq, Structural)]
pub struct ReservationId(pub u64);

/// Source of reservation ids, handing out 1, 2, 3 and so on. A process
/// shares one, behind a lock.
#[derive(Debug)]
pub struct ReservationIdCounter {
    next: u64,
}

impl ReservationIdCounter {
    /// The id the next call of `ReservationId::gen_new` hands out.
    pub closed spec fn next_id(&self) -> u64 {
        self.next
    }

    pub fn new() -> (r: Self)
        ensures
            r.next_id() == 1,
    {
        ReservationIdCounter { next: 1 }
    }
}

impl ReservationId {
    /// Takes the next id from the counter; after the largest id it wraps to 0.
    pub fn gen_new(counter: &mut ReservationIdCounter) -> (r: Self)
        ensures
            r.0 == old(counter).next_id(),
            final(counter).next_id() == if old(counter).next_id() == u64::MAX {
                0
            } else {
                (old(counter).next_id() + 1) as u64
            },
    {
        let new_id = counter.next;
        counter.next = counter.next.wrapping_add(1);
        ReservationId(new_id)
    }
}

#[derive(Debug, Eq, PartialEq, Copy, Clone, Hash, Structural)]
pub enum OrderFillType {
    UserTrade,
    Liquidation,
    Funding,
    ClosePosition,
}

#[derive(Debug, Eq, PartialEq, Copy, Clone, Hash, Structural)]
pub enum OrderFillRole {
    Maker,
    Taker,
}

impl From<OrderRole> for OrderFillRole {
    fn from(role: OrderRole) -> (r: Self) {
        match role {
            OrderRole::Maker => OrderFillRole::Maker,
            OrderRole::Taker => OrderFillRole::Taker,
        }
    }
}

impl vstd::std_specs::convert::FromSpecImpl<OrderRole> for OrderFillRole {
    open spec fn obeys_from_spec() -> bool {
        true
    }

    open spec fn from_spec(role: OrderRole) -> Self {
        match role {
            OrderRole::Maker => OrderFillRole::Maker,
            OrderRole::Taker => OrderFillRole::Taker,
        }
    }
}

/// rust_decimal's number, carried through opaque.
#[verifier::external_type_specification]
#[verifier::external_body]
pub struct ExDecimal(rust_decimal::Decimal);

/// A moment in UTC, as milliseconds since the Unix epoch.
#[derive(Debug, Clone, Copy, PartialEq, Eq, Structural)]
pub struct DateTime {
    pub unix_millis: i64,
}

/// uuid's identifier, carried through opaque.
#[verifier::external_type_specification]
#[verifier::external_body]
pub struct ExUuid(uuid::Uuid);

/// Relies on Decimal's Default impl: the decimal zero.
#[verifier::external_body]
fn decimal_zero() -> (r: rust_decimal::Decimal) {
    rust_decimal::Decimal::default()
}

/// Mutable properties of an order.
#[derive(Debug)]
pub struct OrderSimpleProps {
    client_order_id: ClientOrderId,
    pub raw_price: Option<rust_decimal::Decimal>,
    pub role: Option<OrderRole>,
    pub execution_type: Option<OrderExecutionType>,
    pub exchange_order_id: Option<ExchangeOrderId>,
    pub stop_loss_price: rust_decimal::Decimal,
    pub trailing_stop_delta: rust_decimal::Decimal,
    pub status: OrderStatus,
    pub finished_time: Option<DateTime>,
}

impl OrderSimpleProps {
    pub closed spec fn id(&self) -> ClientOrderId {
        self.client_order_id
    }

    pub closed spec fn price_set(&self) -> Option<rust_decimal::Decimal> {
        self.raw_price
    }

    pub closed spec fn order_role(&self) -> Option<OrderRole> {
        self.role
    }

    pub closed spec fn order_execution_type(&self) -> Option<OrderExecutionType> {
        self.execution_type
    }

    pub closed spec fn exchange_id(&self) -> Option<ExchangeOrderId> {
        self.exchange_order_id
    }

    pub closed spec fn order_status(&self) -> OrderStatus {
        self.status
    }

    pub closed spec fn finished(&self) -> Option<DateTime> {
        self.finished_time
    }

    /// Properties of an order that is being created: no role, execution type
    /// or exchange id yet, zero stop-loss price and trailing delta.
    pub fn new(client_order_id: ClientOrderId, price: Option<rust_decimal::Decimal>) -> (r: OrderSimpleProps)
        ensures
            r.id() == client_order_id,
            r.price_set() == price,
            r.order_role() is None,
            r.order_execution_type() is None,
            r.exchange_id() is None,
            r.order_status() == OrderStatus::Creating,
            r.finished() is None,
    {
        Self {
            client_order_id,
            raw_price: price,
            role: None,
            execution_type: None,
            exchange_order_id: None,
            stop_loss_price: decimal_zero(),
            trailing_stop_delta: decimal_zero(),
            status: OrderStatus::default(),
            finished_time: None,
        }
    }

    pub fn client_order_id(&self) -> (r: &ClientOrderId)
        ensures
            *r == self.id(),
    {
        &self.client_order_id
    }

    pub fn is_finished(&self) -> (r: bool)
        ensures
            r == status_is_final(self.order_status()),
    {
        self.status.is_finished()
    }

    /// The order's price; an order without one has no price to give.
    pub fn price(&self) -> (r: rust_decimal::Decimal)
        requires
            self.price_set() is Some,
        ensures
            r == self.price_set()->0,
    {
        self.raw_price.unwrap()
    }
}

/// One status an order went through, and when.
#[derive(Debug)]
pub struct OrderStatusChange {
    id: uuid::Uuid,
    status: OrderStatus,
    time: DateTime,
}

/// Every status an order went through, oldest first.
#[derive(Debug)]
pub struct OrderStatusHistory {
    status_changes: Vec<OrderStatusChange>,
}

/// Settings of the example strategy; it configures nothing of its own.
#[derive(Clone, Debug, PartialEq, Eq, Structural)]
pub struct ExampleStrategySettings {}

} // verus!
