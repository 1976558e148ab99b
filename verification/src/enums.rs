//! The enum catalog: closed sets of domain values with their exact wire
//! tokens.
//!
//! Each enum maps to and from its documented wire token; an unknown token is
//! rejected rather than defaulted.  The mapping is a bijection: see the
//! round-trip lemmas at the end of this module.

use vstd::prelude::*;

use crate::text::str_eq;

verus! {

/// Symbol status.
#[derive(Debug, Clone, Copy, PartialEq, Eq, Structural)]
pub enum SymbolStatus {
    Trading,
    EndOfDay,
    Halt,
    Break,
}

impl SymbolStatus {
    /// The wire token of the value.
    pub open spec fn spec_token(self) -> Seq<char> {
        match self {
            SymbolStatus::Trading => "TRADING"@,
            SymbolStatus::EndOfDay => "END_OF_DAY"@,
            SymbolStatus::Halt => "HALT"@,
            SymbolStatus::Break => "BREAK"@,
        }
    }

    /// The value a wire token denotes, if any.
    pub open spec fn spec_from_token(s: Seq<char>) -> Option<Self> {
        if s == "TRADING"@ {
            Some(SymbolStatus::Trading)
        } else if s == "END_OF_DAY"@ {
            Some(SymbolStatus::EndOfDay)
        } else if s == "HALT"@ {
            Some(SymbolStatus::Halt)
        } else if s == "BREAK"@ {
            Some(SymbolStatus::Break)
        } else {
            None
        }
    }

    /// Writes the value as its wire token.
    pub fn token(&self) -> (r: &'static str)
        ensures
            r@ == self.spec_token(),
    {
        match self {
            SymbolStatus::Trading => "TRADING",
            SymbolStatus::EndOfDay => "END_OF_DAY",
            SymbolStatus::Halt => "HALT",
            SymbolStatus::Break => "BREAK",
        }
    }

    /// Reads a wire token; an unknown token is rejected.
    pub fn from_token(s: &str) -> (r: Option<Self>)
        ensures
            r == Self::spec_from_token(s@),
    {
        if str_eq(s, "TRADING") {
            Some(SymbolStatus::Trading)
        } else if str_eq(s, "END_OF_DAY") {
            Some(SymbolStatus::EndOfDay)
        } else if str_eq(s, "HALT") {
            Some(SymbolStatus::Halt)
        } else if str_eq(s, "BREAK") {
            Some(SymbolStatus::Break)
        } else {
            None
        }
    }
}

/// Order status.
#[derive(Debug, Clone, Copy, PartialEq, Eq, Structural)]
pub enum OrderStatus {
    New,
    PendingNew,
    PartiallyFilled,
    Filled,
    Canceled,
    PendingCancel,
    Rejected,
    Expired,
    ExpiredInMatch,
}

impl OrderStatus {
    /// The wire token of the value.
    pub open spec fn spec_token(self) -> Seq<char> {
        match self {
            OrderStatus::New => "NEW"@,
            OrderStatus::PendingNew => "PENDING_NEW"@,
            OrderStatus::PartiallyFilled => "PARTIALLY_FILLED"@,
            OrderStatus::Filled => "FILLED"@,
            OrderStatus::Canceled => "CANCELED"@,
            OrderStatus::PendingCancel => "PENDING_CANCEL"@,
            OrderStatus::Rejected => "REJECTED"@,
            OrderStatus::Expired => "EXPIRED"@,
            OrderStatus::ExpiredInMatch => "EXPIRED_IN_MATCH"@,
        }
    }

    /// The value a wire token denotes, if any.
    pub open spec fn spec_from_token(s: Seq<char>) -> Option<Self> {
        if s == "NEW"@ {
            Some(OrderStatus::New)
        } else if s == "PENDING_NEW"@ {
            Some(OrderStatus::PendingNew)
        } else if s == "PARTIALLY_FILLED"@ {
            Some(OrderStatus::PartiallyFilled)
        } else if s == "FILLED"@ {
            Some(OrderStatus::Filled)
        } else if s == "CANCELED"@ {
            Some(OrderStatus::Canceled)
        } else if s == "PENDING_CANCEL"@ {
            Some(OrderStatus::PendingCancel)
        } else if s == "REJECTED"@ {
            Some(OrderStatus::Rejected)
        } else if s == "EXPIRED"@ {
            Some(OrderStatus::Expired)
        } else if s == "EXPIRED_IN_MATCH"@ {
            Some(OrderStatus::ExpiredInMatch)
        } else {
            None
        }
    }

    /// Writes the value as its wire token.
    pub fn token(&self) -> (r: &'static str)
        ensures
            r@ == self.spec_token(),
    {
        match self {
            OrderStatus::New => "NEW",
            OrderStatus::PendingNew => "PENDING_NEW",
            OrderStatus::PartiallyFilled => "PARTIALLY_FILLED",
            OrderStatus::Filled => "FILLED",
            OrderStatus::Canceled => "CANCELED",
            OrderStatus::PendingCancel => "PENDING_CANCEL",
            OrderStatus::Rejected => "REJECTED",
            OrderStatus::Expired => "EXPIRED",
            OrderStatus::ExpiredInMatch => "EXPIRED_IN_MATCH",
        }
    }

    /// Reads a wire token; an unknown token is rejected.
    pub fn from_token(s: &str) -> (r: Option<Self>)
        ensures
            r == Self::spec_from_token(s@),
    {
        if str_eq(s, "NEW") {
            Some(OrderStatus::New)
        } else if str_eq(s, "PENDING_NEW") {
            Some(OrderStatus::PendingNew)
        } else if str_eq(s, "PARTIALLY_FILLED") {
            Some(OrderStatus::PartiallyFilled)
        } else if str_eq(s, "FILLED") {
            Some(OrderStatus::Filled)
        } else if str_eq(s, "CANCELED") {
            Some(OrderStatus::Canceled)
        } else if str_eq(s, "PENDING_CANCEL") {
            Some(OrderStatus::PendingCancel)
        } else if str_eq(s, "REJECTED") {
            Some(OrderStatus::Rejected)
        } else if str_eq(s, "EXPIRED") {
            Some(OrderStatus::Expired)
        } else if str_eq(s, "EXPIRED_IN_MATCH") {
            Some(OrderStatus::ExpiredInMatch)
        } else {
            None
        }
    }
}

/// Order list status.
#[derive(Debug, Clone, Copy, PartialEq, Eq, Structural)]
pub enum OrderListStatus {
    Response,
    ExecStarted,
    Updated,
    AllDone,
}

impl OrderListStatus {
    /// The wire token of the value.
    pub open spec fn spec_token(self) -> Seq<char> {
        match self {
            OrderListStatus::Response => "RESPONSE"@,
            OrderListStatus::ExecStarted => "EXEC_STARTED"@,
            OrderListStatus::Updated => "UPDATED"@,
            OrderListStatus::AllDone => "ALL_DONE"@,
        }
    }

    /// The value a wire token denotes, if any.
    pub open spec fn spec_from_token(s: Seq<char>) -> Option<Self> {
        if s == "RESPONSE"@ {
            Some(OrderListStatus::Response)
        } else if s == "EXEC_STARTED"@ {
            Some(OrderListStatus::ExecStarted)
        } else if s == "UPDATED"@ {
            Some(OrderListStatus::Updated)
        } else if s == "ALL_DONE"@ {
            Some(OrderListStatus::AllDone)
        } else {
            None
        }
    }

    /// Writes the value as its wire token.
    pub fn token(&self) -> (r: &'static str)
        ensures
            r@ == self.spec_token(),
    {
        match self {
            OrderListStatus::Response => "RESPONSE",
            OrderListStatus::ExecStarted => "EXEC_STARTED",
            OrderListStatus::Updated => "UPDATED",
            OrderListStatus::AllDone => "ALL_DONE",
        }
    }

    /// Reads a wire token; an unknown token is rejected.
    pub fn from_token(s: &str) -> (r: Option<Self>)
        ensures
            r == Self::spec_from_token(s@),
    {
        if str_eq(s, "RESPONSE") {
            Some(OrderListStatus::Response)
        } else if str_eq(s, "EXEC_STARTED") {
            Some(OrderListStatus::ExecStarted)
        } else if str_eq(s, "UPDATED") {
            Some(OrderListStatus::Updated)
        } else if str_eq(s, "ALL_DONE") {
            Some(OrderListStatus::AllDone)
        } else {
            None
        }
    }
}

/// Order list order status.
#[derive(Debug, Clone, Copy, PartialEq, Eq, Structural)]
pub enum OrderListOrderStatus {
    Executing,
    AllDone,
    Reject,
}

impl OrderListOrderStatus {
    /// The wire token of the value.
    pub open spec fn spec_token(self) -> Seq<char> {
        match self {
            OrderListOrderStatus::Executing => "EXECUTING"@,
            OrderListOrderStatus::AllDone => "ALL_DONE"@,
            OrderListOrderStatus::Reject => "REJECT"@,
        }
    }

    /// The value a wire token denotes, if any.
    pub open spec fn spec_from_token(s: Seq<char>) -> Option<Self> {
        if s == "EXECUTING"@ {
            Some(OrderListOrderStatus::Executing)
        } else if s == "ALL_DONE"@ {
            Some(OrderListOrderStatus::AllDone)
        } else if s == "REJECT"@ {
            Some(OrderListOrderStatus::Reject)
        } else {
            None
        }
    }

    /// Writes the value as its wire token.
    pub fn token(&self) -> (r: &'static str)
        ensures
            r@ == self.spec_token(),
    {
        match self {
            OrderListOrderStatus::Executing => "EXECUTING",
            OrderListOrderStatus::AllDone => "ALL_DONE",
            OrderListOrderStatus::Reject => "REJECT",
        }
    }

    /// Reads a wire token; an unknown token is rejected.
    pub fn from_token(s: &str) -> (r: Option<Self>)
        ensures
            r == Self::spec_from_token(s@),
    {
        if str_eq(s, "EXECUTING") {
            Some(OrderListOrderStatus::Executing)
        } else if str_eq(s, "ALL_DONE") {
            Some(OrderListOrderStatus::AllDone)
        } else if str_eq(s, "REJECT") {
            Some(OrderListOrderStatus::Reject)
        } else {
            None
        }
    }
}

/// Contingency type.
#[derive(Debug, Clone, Copy, PartialEq, Eq, Structural)]
pub enum ContingencyType {
    OCO,
    OTO,
}

impl ContingencyType {
    /// The wire token of the value.
    pub open spec fn spec_token(self) -> Seq<char> {
        match self {
            ContingencyType::OCO => "OCO"@,
            ContingencyType::OTO => "OTO"@,
        }
    }

    /// The value a wire token denotes, if any.
    pub open spec fn spec_from_token(s: Seq<char>) -> Option<Self> {
        if s == "OCO"@ {
            Some(ContingencyType::OCO)
        } else if s == "OTO"@ {
            Some(ContingencyType::OTO)
        } else {
            None
        }
    }

    /// Writes the value as its wire token.
    pub fn token(&self) -> (r: &'static str)
        ensures
            r@ == self.spec_token(),
    {
        match self {
            ContingencyType::OCO => "OCO",
            ContingencyType::OTO => "OTO",
        }
    }

    /// Reads a wire token; an unknown token is rejected.
    pub fn from_token(s: &str) -> (r: Option<Self>)
        ensures
            r == Self::spec_from_token(s@),
    {
        if str_eq(s, "OCO") {
            Some(ContingencyType::OCO)
        } else if str_eq(s, "OTO") {
            Some(ContingencyType::OTO)
        } else {
            None
        }
    }
}

/// Allocation type.
#[derive(Debug, Clone, Copy, PartialEq, Eq, Structural)]
pub enum AllocationType {
    SOR,
}

impl AllocationType {
    /// The wire token of the value.
    pub open spec fn spec_token(self) -> Seq<char> {
        match self {
            AllocationType::SOR => "SOR"@,
        }
    }

    /// The value a wire token denotes, if any.
    pub open spec fn spec_from_token(s: Seq<char>) -> Option<Self> {
        if s == "SOR"@ {
            Some(AllocationType::SOR)
        } else {
            None
        }
    }

    /// Writes the value as its wire token.
    pub fn token(&self) -> (r: &'static str)
        ensures
            r@ == self.spec_token(),
    {
        match self {
            AllocationType::SOR => "SOR",
        }
    }

    /// Reads a wire token; an unknown token is rejected.
    pub fn from_token(s: &str) -> (r: Option<Self>)
        ensures
            r == Self::spec_from_token(s@),
    {
        if str_eq(s, "SOR") {
            Some(AllocationType::SOR)
        } else {
            None
        }
    }
}

/// Order types.
#[derive(Debug, Clone, Copy, PartialEq, Eq, Structural)]
pub enum OrderType {
    Limit,
    Market,
    StopLoss,
    StopLossLimit,
    TakeProfit,
    TakeProfitLimit,
    LimitMaker,
}

impl OrderType {
    /// The wire token of the value.
    pub open spec fn spec_token(self) -> Seq<char> {
        match self {
            OrderType::Limit => "LIMIT"@,
            OrderType::Market => "MARKET"@,
            OrderType::StopLoss => "STOP_LOSS"@,
            OrderType::StopLossLimit => "STOP_LOSS_LIMIT"@,
            OrderType::TakeProfit => "TAKE_PROFIT"@,
            OrderType::TakeProfitLimit => "TAKE_PROFIT_LIMIT"@,
            OrderType::LimitMaker => "LIMIT_MAKER"@,
        }
    }

    /// The value a wire token denotes, if any.
    pub open spec fn spec_from_token(s: Seq<char>) -> Option<Self> {
        if s == "LIMIT"@ {
            Some(OrderType::Limit)
        } else if s == "MARKET"@ {
            Some(OrderType::Market)
        } else if s == "STOP_LOSS"@ {
            Some(OrderType::StopLoss)
        } else if s == "STOP_LOSS_LIMIT"@ {
            Some(OrderType::StopLossLimit)
        } else if s == "TAKE_PROFIT"@ {
            Some(OrderType::TakeProfit)
        } else if s == "TAKE_PROFIT_LIMIT"@ {
            Some(OrderType::TakeProfitLimit)
        } else if s == "LIMIT_MAKER"@ {
            Some(OrderType::LimitMaker)
        } else {
            None
        }
    }

    /// Writes the value as its wire token.
    pub fn token(&self) -> (r: &'static str)
        ensures
            r@ == self.spec_token(),
    {
        match self {
            OrderType::Limit => "LIMIT",
            OrderType::Market => "MARKET",
            OrderType::StopLoss => "STOP_LOSS",
            OrderType::StopLossLimit => "STOP_LOSS_LIMIT",
            OrderType::TakeProfit => "TAKE_PROFIT",
            OrderType::TakeProfitLimit => "TAKE_PROFIT_LIMIT",
            OrderType::LimitMaker => "LIMIT_MAKER",
        }
    }

    /// Reads a wire token; an unknown token is rejected.
    pub fn from_token(s: &str) -> (r: Option<Self>)
        ensures
            r == Self::spec_from_token(s@),
    {
        if str_eq(s, "LIMIT") {
            Some(OrderType::Limit)
        } else if str_eq(s, "MARKET") {
            Some(OrderType::Market)
        } else if str_eq(s, "STOP_LOSS") {
            Some(OrderType::StopLoss)
        } else if str_eq(s, "STOP_LOSS_LIMIT") {
            Some(OrderType::StopLossLimit)
        } else if str_eq(s, "TAKE_PROFIT") {
            Some(OrderType::TakeProfit)
        } else if str_eq(s, "TAKE_PROFIT_LIMIT") {
            Some(OrderType::TakeProfitLimit)
        } else if str_eq(s, "LIMIT_MAKER") {
            Some(OrderType::LimitMaker)
        } else {
            None
        }
    }
}

/// Order response type.
#[derive(Debug, Clone, Copy, PartialEq, Eq, Structural)]
pub enum OrderResponseType {
    ACK,
    RESULT,
    FULL,
}

impl OrderResponseType {
    /// The wire token of the value.
    pub open spec fn spec_token(self) -> Seq<char> {
        match self {
            OrderResponseType::ACK => "ACK"@,
            OrderResponseType::RESULT => "RESULT"@,
            OrderResponseType::FULL => "FULL"@,
        }
    }

    /// The value a wire token denotes, if any.
    pub open spec fn spec_from_token(s: Seq<char>) -> Option<Self> {
        if s == "ACK"@ {
            Some(OrderResponseType::ACK)
        } else if s == "RESULT"@ {
            Some(OrderResponseType::RESULT)
        } else if s == "FULL"@ {
            Some(OrderResponseType::FULL)
        } else {
            None
        }
    }

    /// Writes the value as its wire token.
    pub fn token(&self) -> (r: &'static str)
        ensures
            r@ == self.spec_token(),
    {
        match self {
            OrderResponseType::ACK => "ACK",
            OrderResponseType::RESULT => "RESULT",
            OrderResponseType::FULL => "FULL",
        }
    }

    /// Reads a wire token; an unknown token is rejected.
    pub fn from_token(s: &str) -> (r: Option<Self>)
        ensures
            r == Self::spec_from_token(s@),
    {
        if str_eq(s, "ACK") {
            Some(OrderResponseType::ACK)
        } else if str_eq(s, "RESULT") {
            Some(OrderResponseType::RESULT)
        } else if str_eq(s, "FULL") {
            Some(OrderResponseType::FULL)
        } else {
            None
        }
    }
}

/// Working floor.
#[derive(Debug, Clone, Copy, PartialEq, Eq, Structural)]
pub enum WorkingFloor {
    EXCHANGE,
    SOR,
}

impl WorkingFloor {
    /// The wire token of the value.
    pub open spec fn spec_token(self) -> Seq<char> {
        match self {
            WorkingFloor::EXCHANGE => "EXCHANGE"@,
            WorkingFloor::SOR => "SOR"@,
        }
    }

    /// The value a wire token denotes, if any.
    pub open spec fn spec_from_token(s: Seq<char>) -> Option<Self> {
        if s == "EXCHANGE"@ {
            Some(WorkingFloor::EXCHANGE)
        } else if s == "SOR"@ {
            Some(WorkingFloor::SOR)
        } else {
            None
        }
    }

    /// Writes the value as its wire token.
    pub fn token(&self) -> (r: &'static str)
        ensures
            r@ == self.spec_token(),
    {
        match self {
            WorkingFloor::EXCHANGE => "EXCHANGE",
            WorkingFloor::SOR => "SOR",
        }
    }

    /// Reads a wire token; an unknown token is rejected.
    pub fn from_token(s: &str) -> (r: Option<Self>)
        ensures
            r == Self::spec_from_token(s@),
    {
        if str_eq(s, "EXCHANGE") {
            Some(WorkingFloor::EXCHANGE)
        } else if str_eq(s, "SOR") {
            Some(WorkingFloor::SOR)
        } else {
            None
        }
    }
}

/// Order side.
#[derive(Debug, Clone, Copy, PartialEq, Eq, Structural)]
pub enum OrderSide {
    BUY,
    SELL,
}

impl OrderSide {
    /// The wire token of the value.
    pub open spec fn spec_token(self) -> Seq<char> {
        match self {
            OrderSide::BUY => "BUY"@,
            OrderSide::SELL => "SELL"@,
        }
    }

    /// The value a wire token denotes, if any.
    pub open spec fn spec_from_token(s: Seq<char>) -> Option<Self> {
        if s == "BUY"@ {
            Some(OrderSide::BUY)
        } else if s == "SELL"@ {
            Some(OrderSide::SELL)
        } else {
            None
        }
    }

    /// Writes the value as its wire token.
    pub fn token(&self) -> (r: &'static str)
        ensures
            r@ == self.spec_token(),
    {
        match self {
            OrderSide::BUY => "BUY",
            OrderSide::SELL => "SELL",
        }
    }

    /// Reads a wire token; an unknown token is rejected.
    pub fn from_token(s: &str) -> (r: Option<Self>)
        ensures
            r == Self::spec_from_token(s@),
    {
        if str_eq(s, "BUY") {
            Some(OrderSide::BUY)
        } else if str_eq(s, "SELL") {
            Some(OrderSide::SELL)
        } else {
            None
        }
    }
}

/// Time in force: how long an order stays active before expiry.
#[derive(Debug, Clone, Copy, PartialEq, Eq, Structural)]
pub enum TimeInForce {
    GTC,
    IOC,
    FOK,
}

impl TimeInForce {
    /// The wire token of the value.
    pub open spec fn spec_token(self) -> Seq<char> {
        match self {
            TimeInForce::GTC => "GTC"@,
            TimeInForce::IOC => "IOC"@,
            TimeInForce::FOK => "FOK"@,
        }
    }

    /// The value a wire token denotes, if any.
    pub open spec fn spec_from_token(s: Seq<char>) -> Option<Self> {
        if s == "GTC"@ {
            Some(TimeInForce::GTC)
        } else if s == "IOC"@ {
            Some(TimeInForce::IOC)
        } else if s == "FOK"@ {
            Some(TimeInForce::FOK)
        } else {
            None
        }
    }

    /// Writes the value as its wire token.
    pub fn token(&self) -> (r: &'static str)
        ensures
            r@ == self.spec_token(),
    {
        match self {
            TimeInForce::GTC => "GTC",
            TimeInForce::IOC => "IOC",
            TimeInForce::FOK => "FOK",
        }
    }

    /// Reads a wire token; an unknown token is rejected.
    pub fn from_token(s: &str) -> (r: Option<Self>)
        ensures
            r == Self::spec_from_token(s@),
    {
        if str_eq(s, "GTC") {
            Some(TimeInForce::GTC)
        } else if str_eq(s, "IOC") {
            Some(TimeInForce::IOC)
        } else if str_eq(s, "FOK") {
            Some(TimeInForce::FOK)
        } else {
            None
        }
    }
}

/// Rate limiter kind.
#[derive(Debug, Clone, Copy, PartialEq, Eq, Structural)]
pub enum RateLimiter {
    RequestWeight,
    Orders,
    RawRequests,
}

impl RateLimiter {
    /// The wire token of the value.
    pub open spec fn spec_token(self) -> Seq<char> {
        match self {
            RateLimiter::RequestWeight => "REQUEST_WEIGHT"@,
            RateLimiter::Orders => "ORDERS"@,
            RateLimiter::RawRequests => "RAW_REQUESTS"@,
        }
    }

    /// The value a wire token denotes, if any.
    pub open spec fn spec_from_token(s: Seq<char>) -> Option<Self> {
        if s == "REQUEST_WEIGHT"@ {
            Some(RateLimiter::RequestWeight)
        } else if s == "ORDERS"@ {
            Some(RateLimiter::Orders)
        } else if s == "RAW_REQUESTS"@ {
            Some(RateLimiter::RawRequests)
        } else {
            None
        }
    }

    /// Writes the value as its wire token.
    pub fn token(&self) -> (r: &'static str)
        ensures
            r@ == self.spec_token(),
    {
        match self {
            RateLimiter::RequestWeight => "REQUEST_WEIGHT",
            RateLimiter::Orders => "ORDERS",
            RateLimiter::RawRequests => "RAW_REQUESTS",
        }
    }

    /// Reads a wire token; an unknown token is rejected.
    pub fn from_token(s: &str) -> (r: Option<Self>)
        ensures
            r == Self::spec_from_token(s@),
    {
        if str_eq(s, "REQUEST_WEIGHT") {
            Some(RateLimiter::RequestWeight)
        } else if str_eq(s, "ORDERS") {
            Some(RateLimiter::Orders)
        } else if str_eq(s, "RAW_REQUESTS") {
            Some(RateLimiter::RawRequests)
        } else {
            None
        }
    }
}

/// Rate limit interval.
#[derive(Debug, Clone, Copy, PartialEq, Eq, Structural)]
pub enum RateLimitInterval {
    Second,
    Minute,
    Day,
}

impl RateLimitInterval {
    /// The wire token of the value.
    pub open spec fn spec_token(self) -> Seq<char> {
        match self {
            RateLimitInterval::Second => "SECOND"@,
            RateLimitInterval::Minute => "MINUTE"@,
            RateLimitInterval::Day => "DAY"@,
        }
    }

    /// The value a wire token denotes, if any.
    pub open spec fn spec_from_token(s: Seq<char>) -> Option<Self> {
        if s == "SECOND"@ {
            Some(RateLimitInterval::Second)
        } else if s == "MINUTE"@ {
            Some(RateLimitInterval::Minute)
        } else if s == "DAY"@ {
            Some(RateLimitInterval::Day)
        } else {
            None
        }
    }

    /// Writes the value as its wire token.
    pub fn token(&self) -> (r: &'static str)
        ensures
            r@ == self.spec_token(),
    {
        match self {
            RateLimitInterval::Second => "SECOND",
            RateLimitInterval::Minute => "MINUTE",
            RateLimitInterval::Day => "DAY",
        }
    }

    /// Reads a wire token; an unknown token is rejected.
    pub fn from_token(s: &str) -> (r: Option<Self>)
        ensures
            r == Self::spec_from_token(s@),
    {
        if str_eq(s, "SECOND") {
            Some(RateLimitInterval::Second)
        } else if str_eq(s, "MINUTE") {
            Some(RateLimitInterval::Minute)
        } else if str_eq(s, "DAY") {
            Some(RateLimitInterval::Day)
        } else {
            None
        }
    }
}

/// Kline (candlestick) bucket width.
#[derive(Debug, Clone, Copy, PartialEq, Eq, Structural)]
pub enum KlineInterval {
    Second1,
    Minute1,
    Minute3,
    Minute5,
    Minute15,
    Minute30,
    Hour1,
    Hour2,
    Hour4,
    Hour6,
    Hour8,
    Hour12,
    Day1,
    Day3,
    Week1,
    Month1,
}

impl KlineInterval {
    /// The wire token of the value.
    pub open spec fn spec_token(self) -> Seq<char> {
        match self {
            KlineInterval::Second1 => "1s"@,
            KlineInterval::Minute1 => "1m"@,
            KlineInterval::Minute3 => "3m"@,
            KlineInterval::Minute5 => "5m"@,
            KlineInterval::Minute15 => "15m"@,
            KlineInterval::Minute30 => "30m"@,
            KlineInterval::Hour1 => "1h"@,
            KlineInterval::Hour2 => "2h"@,
            KlineInterval::Hour4 => "4h"@,
            KlineInterval::Hour6 => "6h"@,
            KlineInterval::Hour8 => "8h"@,
            KlineInterval::Hour12 => "12h"@,
            KlineInterval::Day1 => "1d"@,
            KlineInterval::Day3 => "3d"@,
            KlineInterval::Week1 => "1w"@,
            KlineInterval::Month1 => "1M"@,
        }
    }

    /// The value a wire token denotes, if any.
    pub open spec fn spec_from_token(s: Seq<char>) -> Option<Self> {
        if s == "1s"@ {
            Some(KlineInterval::Second1)
        } else if s == "1m"@ {
            Some(KlineInterval::Minute1)
        } else if s == "3m"@ {
            Some(KlineInterval::Minute3)
        } else if s == "5m"@ {
            Some(KlineInterval::Minute5)
        } else if s == "15m"@ {
            Some(KlineInterval::Minute15)
        } else if s == "30m"@ {
            Some(KlineInterval::Minute30)
        } else if s == "1h"@ {
            Some(KlineInterval::Hour1)
        } else if s == "2h"@ {
            Some(KlineInterval::Hour2)
        } else if s == "4h"@ {
            Some(KlineInterval::Hour4)
        } else if s == "6h"@ {
            Some(KlineInterval::Hour6)
        } else if s == "8h"@ {
            Some(KlineInterval::Hour8)
        } else if s == "12h"@ {
            Some(KlineInterval::Hour12)
        } else if s == "1d"@ {
            Some(KlineInterval::Day1)
        } else if s == "3d"@ {
            Some(KlineInterval::Day3)
        } else if s == "1w"@ {
            Some(KlineInterval::Week1)
        } else if s == "1M"@ {
            Some(KlineInterval::Month1)
        } else {
            None
        }
    }

    /// Writes the value as its wire token.
    pub fn token(&self) -> (r: &'static str)
        ensures
            r@ == self.spec_token(),
    {
        match self {
            KlineInterval::Second1 => "1s",
            KlineInterval::Minute1 => "1m",
            KlineInterval::Minute3 => "3m",
            KlineInterval::Minute5 => "5m",
            KlineInterval::Minute15 => "15m",
            KlineInterval::Minute30 => "30m",
            KlineInterval::Hour1 => "1h",
            KlineInterval::Hour2 => "2h",
            KlineInterval::Hour4 => "4h",
            KlineInterval::Hour6 => "6h",
            KlineInterval::Hour8 => "8h",
            KlineInterval::Hour12 => "12h",
            KlineInterval::Day1 => "1d",
            KlineInterval::Day3 => "3d",
            KlineInterval::Week1 => "1w",
            KlineInterval::Month1 => "1M",
        }
    }

    /// Reads a wire token; an unknown token is rejected.
    pub fn from_token(s: &str) -> (r: Option<Self>)
        ensures
            r == Self::spec_from_token(s@),
    {
        if str_eq(s, "1s") {
            Some(KlineInterval::Second1)
        } else if str_eq(s, "1m") {
            Some(KlineInterval::Minute1)
        } else if str_eq(s, "3m") {
            Some(KlineInterval::Minute3)
        } else if str_eq(s, "5m") {
            Some(KlineInterval::Minute5)
        } else if str_eq(s, "15m") {
            Some(KlineInterval::Minute15)
        } else if str_eq(s, "30m") {
            Some(KlineInterval::Minute30)
        } else if str_eq(s, "1h") {
            Some(KlineInterval::Hour1)
        } else if str_eq(s, "2h") {
            Some(KlineInterval::Hour2)
        } else if str_eq(s, "4h") {
            Some(KlineInterval::Hour4)
        } else if str_eq(s, "6h") {
            Some(KlineInterval::Hour6)
        } else if str_eq(s, "8h") {
            Some(KlineInterval::Hour8)
        } else if str_eq(s, "12h") {
            Some(KlineInterval::Hour12)
        } else if str_eq(s, "1d") {
            Some(KlineInterval::Day1)
        } else if str_eq(s, "3d") {
            Some(KlineInterval::Day3)
        } else if str_eq(s, "1w") {
            Some(KlineInterval::Week1)
        } else if str_eq(s, "1M") {
            Some(KlineInterval::Month1)
        } else {
            None
        }
    }
}

/// Self-trade prevention mode.
#[derive(Debug, Clone, Copy, PartialEq, Eq, Structural)]
pub enum STPMode {
    NoPrevention,
    ExpireMaker,
    ExpireTaker,
    ExpireBoth,
    Decrement,
}

impl STPMode {
    /// The wire token of the value.
    pub open spec fn spec_token(self) -> Seq<char> {
        match self {
            STPMode::NoPrevention => "NONE"@,
            STPMode::ExpireMaker => "EXPIRE_MAKER"@,
            STPMode::ExpireTaker => "EXPIRE_TAKER"@,
            STPMode::ExpireBoth => "EXPIRE_BOTH"@,
            STPMode::Decrement => "DECREMENT"@,
        }
    }

    /// The value a wire token denotes, if any.
    pub open spec fn spec_from_token(s: Seq<char>) -> Option<Self> {
        if s == "NONE"@ {
            Some(STPMode::NoPrevention)
        } else if s == "EXPIRE_MAKER"@ {
            Some(STPMode::ExpireMaker)
        } else if s == "EXPIRE_TAKER"@ {
            Some(STPMode::ExpireTaker)
        } else if s == "EXPIRE_BOTH"@ {
            Some(STPMode::ExpireBoth)
        } else if s == "DECREMENT"@ {
            Some(STPMode::Decrement)
        } else {
            None
        }
    }

    /// Writes the value as its wire token.
    pub fn token(&self) -> (r: &'static str)
        ensures
            r@ == self.spec_token(),
    {
        match self {
            STPMode::NoPrevention => "NONE",
            STPMode::ExpireMaker => "EXPIRE_MAKER",
            STPMode::ExpireTaker => "EXPIRE_TAKER",
            STPMode::ExpireBoth => "EXPIRE_BOTH",
            STPMode::Decrement => "DECREMENT",
        }
    }

    /// Reads a wire token; an unknown token is rejected.
    pub fn from_token(s: &str) -> (r: Option<Self>)
        ensures
            r == Self::spec_from_token(s@),
    {
        if str_eq(s, "NONE") {
            Some(STPMode::NoPrevention)
        } else if str_eq(s, "EXPIRE_MAKER") {
            Some(STPMode::ExpireMaker)
        } else if str_eq(s, "EXPIRE_TAKER") {
            Some(STPMode::ExpireTaker)
        } else if str_eq(s, "EXPIRE_BOTH") {
            Some(STPMode::ExpireBoth)
        } else if str_eq(s, "DECREMENT") {
            Some(STPMode::Decrement)
        } else {
            None
        }
    }
}

/// How an endpoint is secured.
#[derive(Debug, Clone, Copy, PartialEq, Eq, Structural)]
pub enum SecurityType {
    Open,
    Trade,
    UserData,
    UserStream,
}

impl SecurityType {
    /// The wire token of the value.
    pub open spec fn spec_token(self) -> Seq<char> {
        match self {
            SecurityType::Open => "NONE"@,
            SecurityType::Trade => "TRADE"@,
            SecurityType::UserData => "USER_DATA"@,
            SecurityType::UserStream => "USER_STREAM"@,
        }
    }

    /// The value a wire token denotes, if any.
    pub open spec fn spec_from_token(s: Seq<char>) -> Option<Self> {
        if s == "NONE"@ {
            Some(SecurityType::Open)
        } else if s == "TRADE"@ {
            Some(SecurityType::Trade)
        } else if s == "USER_DATA"@ {
            Some(SecurityType::UserData)
        } else if s == "USER_STREAM"@ {
            Some(SecurityType::UserStream)
        } else {
            None
        }
    }

    /// Writes the value as its wire token.
    pub fn token(&self) -> (r: &'static str)
        ensures
            r@ == self.spec_token(),
    {
        match self {
            SecurityType::Open => "NONE",
            SecurityType::Trade => "TRADE",
            SecurityType::UserData => "USER_DATA",
            SecurityType::UserStream => "USER_STREAM",
        }
    }

    /// Reads a wire token; an unknown token is rejected.
    pub fn from_token(s: &str) -> (r: Option<Self>)
        ensures
            r == Self::spec_from_token(s@),
    {
        if str_eq(s, "NONE") {
            Some(SecurityType::Open)
        } else if str_eq(s, "TRADE") {
            Some(SecurityType::Trade)
        } else if str_eq(s, "USER_DATA") {
            Some(SecurityType::UserData)
        } else if str_eq(s, "USER_STREAM") {
            Some(SecurityType::UserStream)
        } else {
            None
        }
    }
}

/// Encoding any SymbolStatus value and decoding the result yields the value
/// again.
pub proof fn lemma_symbol_status_round_trip(v: SymbolStatus)
    ensures
        SymbolStatus::spec_from_token(v.spec_token()) == Some(v),
{
    reveal_strlit("TRADING");
    reveal_strlit("END_OF_DAY");
    reveal_strlit("HALT");
    reveal_strlit("BREAK");
    assert("TRADING"@.len() == 7);
    assert("END_OF_DAY"@.len() == 10);
    assert("HALT"@.len() == 4);
    assert("BREAK"@.len() == 5);
    assert("TRADING"@ != "END_OF_DAY"@);
    assert("TRADING"@ != "HALT"@);
    assert("TRADING"@ != "BREAK"@);
    assert("END_OF_DAY"@ != "HALT"@);
    assert("END_OF_DAY"@ != "BREAK"@);
    assert("HALT"@ != "BREAK"@);
    match v {
        SymbolStatus::Trading => assert(SymbolStatus::spec_from_token(SymbolStatus::Trading.spec_token()) == Some(SymbolStatus::Trading)),
        SymbolStatus::EndOfDay => assert(SymbolStatus::spec_from_token(SymbolStatus::EndOfDay.spec_token()) == Some(SymbolStatus::EndOfDay)),
        SymbolStatus::Halt => assert(SymbolStatus::spec_from_token(SymbolStatus::Halt.spec_token()) == Some(SymbolStatus::Halt)),
        SymbolStatus::Break => assert(SymbolStatus::spec_from_token(SymbolStatus::Break.spec_token()) == Some(SymbolStatus::Break)),
    }
}

/// Encoding any OrderStatus value and decoding the result yields the value
/// again.
pub proof fn lemma_order_status_round_trip(v: OrderStatus)
    ensures
        OrderStatus::spec_from_token(v.spec_token()) == Some(v),
{
    reveal_strlit("NEW");
    reveal_strlit("PENDING_NEW");
    reveal_strlit("PARTIALLY_FILLED");
    reveal_strlit("FILLED");
    reveal_strlit("CANCELED");
    reveal_strlit("PENDING_CANCEL");
    reveal_strlit("REJECTED");
    reveal_strlit("EXPIRED");
    reveal_strlit("EXPIRED_IN_MATCH");
    assert("NEW"@.len() == 3);
    assert("PENDING_NEW"@.len() == 11);
    assert("PARTIALLY_FILLED"@.len() == 16);
    assert("FILLED"@.len() == 6);
    assert("CANCELED"@.len() == 8);
    assert("PENDING_CANCEL"@.len() == 14);
    assert("REJECTED"@.len() == 8);
    assert("EXPIRED"@.len() == 7);
    assert("EXPIRED_IN_MATCH"@.len() == 16);
    assert("PARTIALLY_FILLED"@[0] == 'P');
    assert("PARTIALLY_FILLED"@[1] == 'A');
    assert("PARTIALLY_FILLED"@[2] == 'R');
    assert("PARTIALLY_FILLED"@[3] == 'T');
    assert("PARTIALLY_FILLED"@[4] == 'I');
    assert("PARTIALLY_FILLED"@[5] == 'A');
    assert("PARTIALLY_FILLED"@[6] == 'L');
    assert("PARTIALLY_FILLED"@[7] == 'L');
    assert("PARTIALLY_FILLED"@[8] == 'Y');
    assert("PARTIALLY_FILLED"@[9] == '_');
    assert("PARTIALLY_FILLED"@[10] == 'F');
    assert("PARTIALLY_FILLED"@[11] == 'I');
    assert("PARTIALLY_FILLED"@[12] == 'L');
    assert("PARTIALLY_FILLED"@[13] == 'L');
    assert("PARTIALLY_FILLED"@[14] == 'E');
    assert("PARTIALLY_FILLED"@[15] == 'D');
    assert("EXPIRED_IN_MATCH"@[0] == 'E');
    assert("EXPIRED_IN_MATCH"@[1] == 'X');
    assert("EXPIRED_IN_MATCH"@[2] == 'P');
    assert("EXPIRED_IN_MATCH"@[3] == 'I');
    assert("EXPIRED_IN_MATCH"@[4] == 'R');
    assert("EXPIRED_IN_MATCH"@[5] == 'E');
    assert("EXPIRED_IN_MATCH"@[6] == 'D');
    assert("EXPIRED_IN_MATCH"@[7] == '_');
    assert("EXPIRED_IN_MATCH"@[8] == 'I');
    assert("EXPIRED_IN_MATCH"@[9] == 'N');
    assert("EXPIRED_IN_MATCH"@[10] == '_');
    assert("EXPIRED_IN_MATCH"@[11] == 'M');
    assert("EXPIRED_IN_MATCH"@[12] == 'A');
    assert("EXPIRED_IN_MATCH"@[13] == 'T');
    assert("EXPIRED_IN_MATCH"@[14] == 'C');
    assert("EXPIRED_IN_MATCH"@[15] == 'H');
    assert("CANCELED"@[0] == 'C');
    assert("CANCELED"@[1] == 'A');
    assert("CANCELED"@[2] == 'N');
    assert("CANCELED"@[3] == 'C');
    assert("CANCELED"@[4] == 'E');
    assert("CANCELED"@[5] == 'L');
    assert("CANCELED"@[6] == 'E');
    assert("CANCELED"@[7] == 'D');
    assert("REJECTED"@[0] == 'R');
    assert("REJECTED"@[1] == 'E');
    assert("REJECTED"@[2] == 'J');
    assert("REJECTED"@[3] == 'E');
    assert("REJECTED"@[4] == 'C');
    assert("REJECTED"@[5] == 'T');
    assert("REJECTED"@[6] == 'E');
    assert("REJECTED"@[7] == 'D');
    assert("NEW"@ != "PENDING_NEW"@);
    assert("NEW"@ != "PARTIALLY_FILLED"@);
    assert("NEW"@ != "FILLED"@);
    assert("NEW"@ != "CANCELED"@);
    assert("NEW"@ != "PENDING_CANCEL"@);
    assert("NEW"@ != "REJECTED"@);
    assert("NEW"@ != "EXPIRED"@);
    assert("NEW"@ != "EXPIRED_IN_MATCH"@);
    assert("PENDING_NEW"@ != "PARTIALLY_FILLED"@);
    assert("PENDING_NEW"@ != "FILLED"@);
    assert("PENDING_NEW"@ != "CANCELED"@);
    assert("PENDING_NEW"@ != "PENDING_CANCEL"@);
    assert("PENDING_NEW"@ != "REJECTED"@);
    assert("PENDING_NEW"@ != "EXPIRED"@);
    assert("PENDING_NEW"@ != "EXPIRED_IN_MATCH"@);
    assert("PARTIALLY_FILLED"@ != "FILLED"@);
    assert("PARTIALLY_FILLED"@ != "CANCELED"@);
    assert("PARTIALLY_FILLED"@ != "PENDING_CANCEL"@);
    assert("PARTIALLY_FILLED"@ != "REJECTED"@);
    assert("PARTIALLY_FILLED"@ != "EXPIRED"@);
    assert("PARTIALLY_FILLED"@ != "EXPIRED_IN_MATCH"@);
    assert("FILLED"@ != "CANCELED"@);
    assert("FILLED"@ != "PENDING_CANCEL"@);
    assert("FILLED"@ != "REJECTED"@);
    assert("FILLED"@ != "EXPIRED"@);
    assert("FILLED"@ != "EXPIRED_IN_MATCH"@);
    assert("CANCELED"@ != "PENDING_CANCEL"@);
    assert("CANCELED"@ != "REJECTED"@);
    assert("CANCELED"@ != "EXPIRED"@);
    assert("CANCELED"@ != "EXPIRED_IN_MATCH"@);
    assert("PENDING_CANCEL"@ != "REJECTED"@);
    assert("PENDING_CANCEL"@ != "EXPIRED"@);
    assert("PENDING_CANCEL"@ != "EXPIRED_IN_MATCH"@);
    assert("REJECTED"@ != "EXPIRED"@);
    assert("REJECTED"@ != "EXPIRED_IN_MATCH"@);
    assert("EXPIRED"@ != "EXPIRED_IN_MATCH"@);
    match v {
        OrderStatus::New => assert(OrderStatus::spec_from_token(OrderStatus::New.spec_token()) == Some(OrderStatus::New)),
        OrderStatus::PendingNew => assert(OrderStatus::spec_from_token(OrderStatus::PendingNew.spec_token()) == Some(OrderStatus::PendingNew)),
        OrderStatus::PartiallyFilled => assert(OrderStatus::spec_from_token(OrderStatus::PartiallyFilled.spec_token()) == Some(OrderStatus::PartiallyFilled)),
        OrderStatus::Filled => assert(OrderStatus::spec_from_token(OrderStatus::Filled.spec_token()) == Some(OrderStatus::Filled)),
        OrderStatus::Canceled => assert(OrderStatus::spec_from_token(OrderStatus::Canceled.spec_token()) == Some(OrderStatus::Canceled)),
        OrderStatus::PendingCancel => assert(OrderStatus::spec_from_token(OrderStatus::PendingCancel.spec_token()) == Some(OrderStatus::PendingCancel)),
        OrderStatus::Rejected => assert(OrderStatus::spec_from_token(OrderStatus::Rejected.spec_token()) == Some(OrderStatus::Rejected)),
        OrderStatus::Expired => assert(OrderStatus::spec_from_token(OrderStatus::Expired.spec_token()) == Some(OrderStatus::Expired)),
        OrderStatus::ExpiredInMatch => assert(OrderStatus::spec_from_token(OrderStatus::ExpiredInMatch.spec_token()) == Some(OrderStatus::ExpiredInMatch)),
    }
}

/// Encoding any OrderListStatus value and decoding the result yields the value
/// again.
pub proof fn lemma_order_list_status_round_trip(v: OrderListStatus)
    ensures
        OrderListStatus::spec_from_token(v.spec_token()) == Some(v),
{
    reveal_strlit("RESPONSE");
    reveal_strlit("EXEC_STARTED");
    reveal_strlit("UPDATED");
    reveal_strlit("ALL_DONE");
    assert("RESPONSE"@.len() == 8);
    assert("EXEC_STARTED"@.len() == 12);
    assert("UPDATED"@.len() == 7);
    assert("ALL_DONE"@.len() == 8);
    assert("RESPONSE"@[0] == 'R');
    assert("RESPONSE"@[1] == 'E');
    assert("RESPONSE"@[2] == 'S');
    assert("RESPONSE"@[3] == 'P');
    assert("RESPONSE"@[4] == 'O');
    assert("RESPONSE"@[5] == 'N');
    assert("RESPONSE"@[6] == 'S');
    assert("RESPONSE"@[7] == 'E');
    assert("ALL_DONE"@[0] == 'A');
    assert("ALL_DONE"@[1] == 'L');
    assert("ALL_DONE"@[2] == 'L');
    assert("ALL_DONE"@[3] == '_');
    assert("ALL_DONE"@[4] == 'D');
    assert("ALL_DONE"@[5] == 'O');
    assert("ALL_DONE"@[6] == 'N');
    assert("ALL_DONE"@[7] == 'E');
    assert("RESPONSE"@ != "EXEC_STARTED"@);
    assert("RESPONSE"@ != "UPDATED"@);
    assert("RESPONSE"@ != "ALL_DONE"@);
    assert("EXEC_STARTED"@ != "UPDATED"@);
    assert("EXEC_STARTED"@ != "ALL_DONE"@);
    assert("UPDATED"@ != "ALL_DONE"@);
    match v {
        OrderListStatus::Response => assert(OrderListStatus::spec_from_token(OrderListStatus::Response.spec_token()) == Some(OrderListStatus::Response)),
        OrderListStatus::ExecStarted => assert(OrderListStatus::spec_from_token(OrderListStatus::ExecStarted.spec_token()) == Some(OrderListStatus::ExecStarted)),
        OrderListStatus::Updated => assert(OrderListStatus::spec_from_token(OrderListStatus::Updated.spec_token()) == Some(OrderListStatus::Updated)),
        OrderListStatus::AllDone => assert(OrderListStatus::spec_from_token(OrderListStatus::AllDone.spec_token()) == Some(OrderListStatus::AllDone)),
    }
}

/// Encoding any OrderListOrderStatus value and decoding the result yields the value
/// again.
pub proof fn lemma_order_list_order_status_round_trip(v: OrderListOrderStatus)
    ensures
        OrderListOrderStatus::spec_from_token(v.spec_token()) == Some(v),
{
    reveal_strlit("EXECUTING");
    reveal_strlit("ALL_DONE");
    reveal_strlit("REJECT");
    assert("EXECUTING"@.len() == 9);
    assert("ALL_DONE"@.len() == 8);
    assert("REJECT"@.len() == 6);
    assert("EXECUTING"@ != "ALL_DONE"@);
    assert("EXECUTING"@ != "REJECT"@);
    assert("ALL_DONE"@ != "REJECT"@);
    match v {
        OrderListOrderStatus::Executing => assert(OrderListOrderStatus::spec_from_token(OrderListOrderStatus::Executing.spec_token()) == Some(OrderListOrderStatus::Executing)),
        OrderListOrderStatus::AllDone => assert(OrderListOrderStatus::spec_from_token(OrderListOrderStatus::AllDone.spec_token()) == Some(OrderListOrderStatus::AllDone)),
        OrderListOrderStatus::Reject => assert(OrderListOrderStatus::spec_from_token(OrderListOrderStatus::Reject.spec_token()) == Some(OrderListOrderStatus::Reject)),
    }
}

/// Encoding any ContingencyType value and decoding the result yields the value
/// again.
pub proof fn lemma_contingency_type_round_trip(v: ContingencyType)
    ensures
        ContingencyType::spec_from_token(v.spec_token()) == Some(v),
{
    reveal_strlit("OCO");
    reveal_strlit("OTO");
    assert("OCO"@.len() == 3);
    assert("OTO"@.len() == 3);
    assert("OCO"@[0] == 'O');
    assert("OCO"@[1] == 'C');
    assert("OCO"@[2] == 'O');
    assert("OTO"@[0] == 'O');
    assert("OTO"@[1] == 'T');
    assert("OTO"@[2] == 'O');
    assert("OCO"@ != "OTO"@);
    match v {
        ContingencyType::OCO => assert(ContingencyType::spec_from_token(ContingencyType::OCO.spec_token()) == Some(ContingencyType::OCO)),
        ContingencyType::OTO => assert(ContingencyType::spec_from_token(ContingencyType::OTO.spec_token()) == Some(ContingencyType::OTO)),
    }
}

/// Encoding any AllocationType value and decoding the result yields the value
/// again.
pub proof fn lemma_allocation_type_round_trip(v: AllocationType)
    ensures
        AllocationType::spec_from_token(v.spec_token()) == Some(v),
{
    reveal_strlit("SOR");
    assert("SOR"@.len() == 3);
    match v {
        AllocationType::SOR => assert(AllocationType::spec_from_token(AllocationType::SOR.spec_token()) == Some(AllocationType::SOR)),
    }
}

/// Encoding any OrderType value and decoding the result yields the value
/// again.
pub proof fn lemma_order_type_round_trip(v: OrderType)
    ensures
        OrderType::spec_from_token(v.spec_token()) == Some(v),
{
    reveal_strlit("LIMIT");
    reveal_strlit("MARKET");
    reveal_strlit("STOP_LOSS");
    reveal_strlit("STOP_LOSS_LIMIT");
    reveal_strlit("TAKE_PROFIT");
    reveal_strlit("TAKE_PROFIT_LIMIT");
    reveal_strlit("LIMIT_MAKER");
    assert("LIMIT"@.len() == 5);
    assert("MARKET"@.len() == 6);
    assert("STOP_LOSS"@.len() == 9);
    assert("STOP_LOSS_LIMIT"@.len() == 15);
    assert("TAKE_PROFIT"@.len() == 11);
    assert("TAKE_PROFIT_LIMIT"@.len() == 17);
    assert("LIMIT_MAKER"@.len() == 11);
    assert("TAKE_PROFIT"@[0] == 'T');
    assert("TAKE_PROFIT"@[1] == 'A');
    assert("TAKE_PROFIT"@[2] == 'K');
    assert("TAKE_PROFIT"@[3] == 'E');
    assert("TAKE_PROFIT"@[4] == '_');
    assert("TAKE_PROFIT"@[5] == 'P');
    assert("TAKE_PROFIT"@[6] == 'R');
    assert("TAKE_PROFIT"@[7] == 'O');
    assert("TAKE_PROFIT"@[8] == 'F');
    assert("TAKE_PROFIT"@[9] == 'I');
    assert("TAKE_PROFIT"@[10] == 'T');
    assert("LIMIT_MAKER"@[0] == 'L');
    assert("LIMIT_MAKER"@[1] == 'I');
    assert("LIMIT_MAKER"@[2] == 'M');
    assert("LIMIT_MAKER"@[3] == 'I');
    assert("LIMIT_MAKER"@[4] == 'T');
    assert("LIMIT_MAKER"@[5] == '_');
    assert("LIMIT_MAKER"@[6] == 'M');
    assert("LIMIT_MAKER"@[7] == 'A');
    assert("LIMIT_MAKER"@[8] == 'K');
    assert("LIMIT_MAKER"@[9] == 'E');
    assert("LIMIT_MAKER"@[10] == 'R');
    assert("LIMIT"@ != "MARKET"@);
    assert("LIMIT"@ != "STOP_LOSS"@);
    assert("LIMIT"@ != "STOP_LOSS_LIMIT"@);
    assert("LIMIT"@ != "TAKE_PROFIT"@);
    assert("LIMIT"@ != "TAKE_PROFIT_LIMIT"@);
    assert("LIMIT"@ != "LIMIT_MAKER"@);
    assert("MARKET"@ != "STOP_LOSS"@);
    assert("MARKET"@ != "STOP_LOSS_LIMIT"@);
    assert("MARKET"@ != "TAKE_PROFIT"@);
    assert("MARKET"@ != "TAKE_PROFIT_LIMIT"@);
    assert("MARKET"@ != "LIMIT_MAKER"@);
    assert("STOP_LOSS"@ != "STOP_LOSS_LIMIT"@);
    assert("STOP_LOSS"@ != "TAKE_PROFIT"@);
    assert("STOP_LOSS"@ != "TAKE_PROFIT_LIMIT"@);
    assert("STOP_LOSS"@ != "LIMIT_MAKER"@);
    assert("STOP_LOSS_LIMIT"@ != "TAKE_PROFIT"@);
    assert("STOP_LOSS_LIMIT"@ != "TAKE_PROFIT_LIMIT"@);
    assert("STOP_LOSS_LIMIT"@ != "LIMIT_MAKER"@);
    assert("TAKE_PROFIT"@ != "TAKE_PROFIT_LIMIT"@);
    assert("TAKE_PROFIT"@ != "LIMIT_MAKER"@);
    assert("TAKE_PROFIT_LIMIT"@ != "LIMIT_MAKER"@);
    match v {
        OrderType::Limit => assert(OrderType::spec_from_token(OrderType::Limit.spec_token()) == Some(OrderType::Limit)),
        OrderType::Market => assert(OrderType::spec_from_token(OrderType::Market.spec_token()) == Some(OrderType::Market)),
        OrderType::StopLoss => assert(OrderType::spec_from_token(OrderType::StopLoss.spec_token()) == Some(OrderType::StopLoss)),
        OrderType::StopLossLimit => assert(OrderType::spec_from_token(OrderType::StopLossLimit.spec_token()) == Some(OrderType::StopLossLimit)),
        OrderType::TakeProfit => assert(OrderType::spec_from_token(OrderType::TakeProfit.spec_token()) == Some(OrderType::TakeProfit)),
        OrderType::TakeProfitLimit => assert(OrderType::spec_from_token(OrderType::TakeProfitLimit.spec_token()) == Some(OrderType::TakeProfitLimit)),
        OrderType::LimitMaker => assert(OrderType::spec_from_token(OrderType::LimitMaker.spec_token()) == Some(OrderType::LimitMaker)),
    }
}

/// Encoding any OrderResponseType value and decoding the result yields the value
/// again.
pub proof fn lemma_order_response_type_round_trip(v: OrderResponseType)
    ensures
        OrderResponseType::spec_from_token(v.spec_token()) == Some(v),
{
    reveal_strlit("ACK");
    reveal_strlit("RESULT");
    reveal_strlit("FULL");
    assert("ACK"@.len() == 3);
    assert("RESULT"@.len() == 6);
    assert("FULL"@.len() == 4);
    assert("ACK"@ != "RESULT"@);
    assert("ACK"@ != "FULL"@);
    assert("RESULT"@ != "FULL"@);
    match v {
        OrderResponseType::ACK => assert(OrderResponseType::spec_from_token(OrderResponseType::ACK.spec_token()) == Some(OrderResponseType::ACK)),
        OrderResponseType::RESULT => assert(OrderResponseType::spec_from_token(OrderResponseType::RESULT.spec_token()) == Some(OrderResponseType::RESULT)),
        OrderResponseType::FULL => assert(OrderResponseType::spec_from_token(OrderResponseType::FULL.spec_token()) == Some(OrderResponseType::FULL)),
    }
}

/// Encoding any WorkingFloor value and decoding the result yields the value
/// again.
pub proof fn lemma_working_floor_round_trip(v: WorkingFloor)
    ensures
        WorkingFloor::spec_from_token(v.spec_token()) == Some(v),
{
    reveal_strlit("EXCHANGE");
    reveal_strlit("SOR");
    assert("EXCHANGE"@.len() == 8);
    assert("SOR"@.len() == 3);
    assert("EXCHANGE"@ != "SOR"@);
    match v {
        WorkingFloor::EXCHANGE => assert(WorkingFloor::spec_from_token(WorkingFloor::EXCHANGE.spec_token()) == Some(WorkingFloor::EXCHANGE)),
        WorkingFloor::SOR => assert(WorkingFloor::spec_from_token(WorkingFloor::SOR.spec_token()) == Some(WorkingFloor::SOR)),
    }
}

/// Encoding any OrderSide value and decoding the result yields the value
/// again.
pub proof fn lemma_order_side_round_trip(v: OrderSide)
    ensures
        OrderSide::spec_from_token(v.spec_token()) == Some(v),
{
    reveal_strlit("BUY");
    reveal_strlit("SELL");
    assert("BUY"@.len() == 3);
    assert("SELL"@.len() == 4);
    assert("BUY"@ != "SELL"@);
    match v {
        OrderSide::BUY => assert(OrderSide::spec_from_token(OrderSide::BUY.spec_token()) == Some(OrderSide::BUY)),
        OrderSide::SELL => assert(OrderSide::spec_from_token(OrderSide::SELL.spec_token()) == Some(OrderSide::SELL)),
    }
}

/// Encoding any TimeInForce value and decoding the result yields the value
/// again.
pub proof fn lemma_time_in_force_round_trip(v: TimeInForce)
    ensures
        TimeInForce::spec_from_token(v.spec_token()) == Some(v),
{
    reveal_strlit("GTC");
    reveal_strlit("IOC");
    reveal_strlit("FOK");
    assert("GTC"@.len() == 3);
    assert("IOC"@.len() == 3);
    assert("FOK"@.len() == 3);
    assert("GTC"@[0] == 'G');
    assert("GTC"@[1] == 'T');
    assert("GTC"@[2] == 'C');
    assert("IOC"@[0] == 'I');
    assert("IOC"@[1] == 'O');
    assert("IOC"@[2] == 'C');
    assert("FOK"@[0] == 'F');
    assert("FOK"@[1] == 'O');
    assert("FOK"@[2] == 'K');
    assert("GTC"@ != "IOC"@);
    assert("GTC"@ != "FOK"@);
    assert("IOC"@ != "FOK"@);
    match v {
        TimeInForce::GTC => assert(TimeInForce::spec_from_token(TimeInForce::GTC.spec_token()) == Some(TimeInForce::GTC)),
        TimeInForce::IOC => assert(TimeInForce::spec_from_token(TimeInForce::IOC.spec_token()) == Some(TimeInForce::IOC)),
        TimeInForce::FOK => assert(TimeInForce::spec_from_token(TimeInForce::FOK.spec_token()) == Some(TimeInForce::FOK)),
    }
}

/// Encoding any RateLimiter value and decoding the result yields the value
/// again.
pub proof fn lemma_rate_limiter_round_trip(v: RateLimiter)
    ensures
        RateLimiter::spec_from_token(v.spec_token()) == Some(v),
{
    reveal_strlit("REQUEST_WEIGHT");
    reveal_strlit("ORDERS");
    reveal_strlit("RAW_REQUESTS");
    assert("REQUEST_WEIGHT"@.len() == 14);
    assert("ORDERS"@.len() == 6);
    assert("RAW_REQUESTS"@.len() == 12);
    assert("REQUEST_WEIGHT"@ != "ORDERS"@);
    assert("REQUEST_WEIGHT"@ != "RAW_REQUESTS"@);
    assert("ORDERS"@ != "RAW_REQUESTS"@);
    match v {
        RateLimiter::RequestWeight => assert(RateLimiter::spec_from_token(RateLimiter::RequestWeight.spec_token()) == Some(RateLimiter::RequestWeight)),
        RateLimiter::Orders => assert(RateLimiter::spec_from_token(RateLimiter::Orders.spec_token()) == Some(RateLimiter::Orders)),
        RateLimiter::RawRequests => assert(RateLimiter::spec_from_token(RateLimiter::RawRequests.spec_token()) == Some(RateLimiter::RawRequests)),
    }
}

/// Encoding any RateLimitInterval value and decoding the result yields the value
/// again.
pub proof fn lemma_rate_limit_interval_round_trip(v: RateLimitInterval)
    ensures
        RateLimitInterval::spec_from_token(v.spec_token()) == Some(v),
{
    reveal_strlit("SECOND");
    reveal_strlit("MINUTE");
    reveal_strlit("DAY");
    assert("SECOND"@.len() == 6);
    assert("MINUTE"@.len() == 6);
    assert("DAY"@.len() == 3);
    assert("SECOND"@[0] == 'S');
    assert("SECOND"@[1] == 'E');
    assert("SECOND"@[2] == 'C');
    assert("SECOND"@[3] == 'O');
    assert("SECOND"@[4] == 'N');
    assert("SECOND"@[5] == 'D');
    assert("MINUTE"@[0] == 'M');
    assert("MINUTE"@[1] == 'I');
    assert("MINUTE"@[2] == 'N');
    assert("MINUTE"@[3] == 'U');
    assert("MINUTE"@[4] == 'T');
    assert("MINUTE"@[5] == 'E');
    assert("SECOND"@ != "MINUTE"@);
    assert("SECOND"@ != "DAY"@);
    assert("MINUTE"@ != "DAY"@);
    match v {
        RateLimitInterval::Second => assert(RateLimitInterval::spec_from_token(RateLimitInterval::Second.spec_token()) == Some(RateLimitInterval::Second)),
        RateLimitInterval::Minute => assert(RateLimitInterval::spec_from_token(RateLimitInterval::Minute.spec_token()) == Some(RateLimitInterval::Minute)),
        RateLimitInterval::Day => assert(RateLimitInterval::spec_from_token(RateLimitInterval::Day.spec_token()) == Some(RateLimitInterval::Day)),
    }
}

/// Encoding any KlineInterval value and decoding the result yields the value
/// again.
pub proof fn lemma_kline_interval_round_trip(v: KlineInterval)
    ensures
        KlineInterval::spec_from_token(v.spec_token()) == Some(v),
{
    reveal_strlit("1s");
    reveal_strlit("1m");
    reveal_strlit("3m");
    reveal_strlit("5m");
    reveal_strlit("15m");
    reveal_strlit("30m");
    reveal_strlit("1h");
    reveal_strlit("2h");
    reveal_strlit("4h");
    reveal_strlit("6h");
    reveal_strlit("8h");
    reveal_strlit("12h");
    reveal_strlit("1d");
    reveal_strlit("3d");
    reveal_strlit("1w");
    reveal_strlit("1M");
    assert("1s"@.len() == 2);
    assert("1m"@.len() == 2);
    assert("3m"@.len() == 2);
    assert("5m"@.len() == 2);
    assert("15m"@.len() == 3);
    assert("30m"@.len() == 3);
    assert("1h"@.len() == 2);
    assert("2h"@.len() == 2);
    assert("4h"@.len() == 2);
    assert("6h"@.len() == 2);
    assert("8h"@.len() == 2);
    assert("12h"@.len() == 3);
    assert("1d"@.len() == 2);
    assert("3d"@.len() == 2);
    assert("1w"@.len() == 2);
    assert("1M"@.len() == 2);
    assert("1s"@[0] == '1');
    assert("1s"@[1] == 's');
    assert("1m"@[0] == '1');
    assert("1m"@[1] == 'm');
    assert("3m"@[0] == '3');
    assert("3m"@[1] == 'm');
    assert("5m"@[0] == '5');
    assert("5m"@[1] == 'm');
    assert("1h"@[0] == '1');
    assert("1h"@[1] == 'h');
    assert("2h"@[0] == '2');
    assert("2h"@[1] == 'h');
    assert("4h"@[0] == '4');
    assert("4h"@[1] == 'h');
    assert("6h"@[0] == '6');
    assert("6h"@[1] == 'h');
    assert("8h"@[0] == '8');
    assert("8h"@[1] == 'h');
    assert("1d"@[0] == '1');
    assert("1d"@[1] == 'd');
    assert("3d"@[0] == '3');
    assert("3d"@[1] == 'd');
    assert("1w"@[0] == '1');
    assert("1w"@[1] == 'w');
    assert("1M"@[0] == '1');
    assert("1M"@[1] == 'M');
    assert("15m"@[0] == '1');
    assert("15m"@[1] == '5');
    assert("15m"@[2] == 'm');
    assert("30m"@[0] == '3');
    assert("30m"@[1] == '0');
    assert("30m"@[2] == 'm');
    assert("12h"@[0] == '1');
    assert("12h"@[1] == '2');
    assert("12h"@[2] == 'h');
    assert("1s"@ != "1m"@);
    assert("1s"@ != "3m"@);
    assert("1s"@ != "5m"@);
    assert("1s"@ != "15m"@);
    assert("1s"@ != "30m"@);
    assert("1s"@ != "1h"@);
    assert("1s"@ != "2h"@);
    assert("1s"@ != "4h"@);
    assert("1s"@ != "6h"@);
    assert("1s"@ != "8h"@);
    assert("1s"@ != "12h"@);
    assert("1s"@ != "1d"@);
    assert("1s"@ != "3d"@);
    assert("1s"@ != "1w"@);
    assert("1s"@ != "1M"@);
    assert("1m"@ != "3m"@);
    assert("1m"@ != "5m"@);
    assert("1m"@ != "15m"@);
    assert("1m"@ != "30m"@);
    assert("1m"@ != "1h"@);
    assert("1m"@ != "2h"@);
    assert("1m"@ != "4h"@);
    assert("1m"@ != "6h"@);
    assert("1m"@ != "8h"@);
    assert("1m"@ != "12h"@);
    assert("1m"@ != "1d"@);
    assert("1m"@ != "3d"@);
    assert("1m"@ != "1w"@);
    assert("1m"@ != "1M"@);
    assert("3m"@ != "5m"@);
    assert("3m"@ != "15m"@);
    assert("3m"@ != "30m"@);
    assert("3m"@ != "1h"@);
    assert("3m"@ != "2h"@);
    assert("3m"@ != "4h"@);
    assert("3m"@ != "6h"@);
    assert("3m"@ != "8h"@);
    assert("3m"@ != "12h"@);
    assert("3m"@ != "1d"@);
    assert("3m"@ != "3d"@);
    assert("3m"@ != "1w"@);
    assert("3m"@ != "1M"@);
    assert("5m"@ != "15m"@);
    assert("5m"@ != "30m"@);
    assert("5m"@ != "1h"@);
    assert("5m"@ != "2h"@);
    assert("5m"@ != "4h"@);
    assert("5m"@ != "6h"@);
    assert("5m"@ != "8h"@);
    assert("5m"@ != "12h"@);
    assert("5m"@ != "1d"@);
    assert("5m"@ != "3d"@);
    assert("5m"@ != "1w"@);
    assert("5m"@ != "1M"@);
    assert("15m"@ != "30m"@);
    assert("15m"@ != "1h"@);
    assert("15m"@ != "2h"@);
    assert("15m"@ != "4h"@);
    assert("15m"@ != "6h"@);
    assert("15m"@ != "8h"@);
    assert("15m"@ != "12h"@);
    assert("15m"@ != "1d"@);
    assert("15m"@ != "3d"@);
    assert("15m"@ != "1w"@);
    assert("15m"@ != "1M"@);
    assert("30m"@ != "1h"@);
    assert("30m"@ != "2h"@);
    assert("30m"@ != "4h"@);
    assert("30m"@ != "6h"@);
    assert("30m"@ != "8h"@);
    assert("30m"@ != "12h"@);
    assert("30m"@ != "1d"@);
    assert("30m"@ != "3d"@);
    assert("30m"@ != "1w"@);
    assert("30m"@ != "1M"@);
    assert("1h"@ != "2h"@);
    assert("1h"@ != "4h"@);
    assert("1h"@ != "6h"@);
    assert("1h"@ != "8h"@);
    assert("1h"@ != "12h"@);
    assert("1h"@ != "1d"@);
    assert("1h"@ != "3d"@);
    assert("1h"@ != "1w"@);
    assert("1h"@ != "1M"@);
    assert("2h"@ != "4h"@);
    assert("2h"@ != "6h"@);
    assert("2h"@ != "8h"@);
    assert("2h"@ != "12h"@);
    assert("2h"@ != "1d"@);
    assert("2h"@ != "3d"@);
    assert("2h"@ != "1w"@);
    assert("2h"@ != "1M"@);
    assert("4h"@ != "6h"@);
    assert("4h"@ != "8h"@);
    assert("4h"@ != "12h"@);
    assert("4h"@ != "1d"@);
    assert("4h"@ != "3d"@);
    assert("4h"@ != "1w"@);
    assert("4h"@ != "1M"@);
    assert("6h"@ != "8h"@);
    assert("6h"@ != "12h"@);
    assert("6h"@ != "1d"@);
    assert("6h"@ != "3d"@);
    assert("6h"@ != "1w"@);
    assert("6h"@ != "1M"@);
    assert("8h"@ != "12h"@);
    assert("8h"@ != "1d"@);
    assert("8h"@ != "3d"@);
    assert("8h"@ != "1w"@);
    assert("8h"@ != "1M"@);
    assert("12h"@ != "1d"@);
    assert("12h"@ != "3d"@);
    assert("12h"@ != "1w"@);
    assert("12h"@ != "1M"@);
    assert("1d"@ != "3d"@);
    assert("1d"@ != "1w"@);
    assert("1d"@ != "1M"@);
    assert("3d"@ != "1w"@);
    assert("3d"@ != "1M"@);
    assert("1w"@ != "1M"@);
    match v {
        KlineInterval::Second1 => assert(KlineInterval::spec_from_token(KlineInterval::Second1.spec_token()) == Some(KlineInterval::Second1)),
        KlineInterval::Minute1 => assert(KlineInterval::spec_from_token(KlineInterval::Minute1.spec_token()) == Some(KlineInterval::Minute1)),
        KlineInterval::Minute3 => assert(KlineInterval::spec_from_token(KlineInterval::Minute3.spec_token()) == Some(KlineInterval::Minute3)),
        KlineInterval::Minute5 => assert(KlineInterval::spec_from_token(KlineInterval::Minute5.spec_token()) == Some(KlineInterval::Minute5)),
        KlineInterval::Minute15 => assert(KlineInterval::spec_from_token(KlineInterval::Minute15.spec_token()) == Some(KlineInterval::Minute15)),
        KlineInterval::Minute30 => assert(KlineInterval::spec_from_token(KlineInterval::Minute30.spec_token()) == Some(KlineInterval::Minute30)),
        KlineInterval::Hour1 => assert(KlineInterval::spec_from_token(KlineInterval::Hour1.spec_token()) == Some(KlineInterval::Hour1)),
        KlineInterval::Hour2 => assert(KlineInterval::spec_from_token(KlineInterval::Hour2.spec_token()) == Some(KlineInterval::Hour2)),
        KlineInterval::Hour4 => assert(KlineInterval::spec_from_token(KlineInterval::Hour4.spec_token()) == Some(KlineInterval::Hour4)),
        KlineInterval::Hour6 => assert(KlineInterval::spec_from_token(KlineInterval::Hour6.spec_token()) == Some(KlineInterval::Hour6)),
        KlineInterval::Hour8 => assert(KlineInterval::spec_from_token(KlineInterval::Hour8.spec_token()) == Some(KlineInterval::Hour8)),
        KlineInterval::Hour12 => assert(KlineInterval::spec_from_token(KlineInterval::Hour12.spec_token()) == Some(KlineInterval::Hour12)),
        KlineInterval::Day1 => assert(KlineInterval::spec_from_token(KlineInterval::Day1.spec_token()) == Some(KlineInterval::Day1)),
        KlineInterval::Day3 => assert(KlineInterval::spec_from_token(KlineInterval::Day3.spec_token()) == Some(KlineInterval::Day3)),
        KlineInterval::Week1 => assert(KlineInterval::spec_from_token(KlineInterval::Week1.spec_token()) == Some(KlineInterval::Week1)),
        KlineInterval::Month1 => assert(KlineInterval::spec_from_token(KlineInterval::Month1.spec_token()) == Some(KlineInterval::Month1)),
    }
}

/// Encoding any STPMode value and decoding the result yields the value
/// again.
pub proof fn lemma_s_t_p_mode_round_trip(v: STPMode)
    ensures
        STPMode::spec_from_token(v.spec_token()) == Some(v),
{
    reveal_strlit("NONE");
    reveal_strlit("EXPIRE_MAKER");
    reveal_strlit("EXPIRE_TAKER");
    reveal_strlit("EXPIRE_BOTH");
    reveal_strlit("DECREMENT");
    assert("NONE"@.len() == 4);
    assert("EXPIRE_MAKER"@.len() == 12);
    assert("EXPIRE_TAKER"@.len() == 12);
    assert("EXPIRE_BOTH"@.len() == 11);
    assert("DECREMENT"@.len() == 9);
    assert("EXPIRE_MAKER"@[0] == 'E');
    assert("EXPIRE_MAKER"@[1] == 'X');
    assert("EXPIRE_MAKER"@[2] == 'P');
    assert("EXPIRE_MAKER"@[3] == 'I');
    assert("EXPIRE_MAKER"@[4] == 'R');
    assert("EXPIRE_MAKER"@[5] == 'E');
    assert("EXPIRE_MAKER"@[6] == '_');
    assert("EXPIRE_MAKER"@[7] == 'M');
    assert("EXPIRE_MAKER"@[8] == 'A');
    assert("EXPIRE_MAKER"@[9] == 'K');
    assert("EXPIRE_MAKER"@[10] == 'E');
    assert("EXPIRE_MAKER"@[11] == 'R');
    assert("EXPIRE_TAKER"@[0] == 'E');
    assert("EXPIRE_TAKER"@[1] == 'X');
    assert("EXPIRE_TAKER"@[2] == 'P');
    assert("EXPIRE_TAKER"@[3] == 'I');
    assert("EXPIRE_TAKER"@[4] == 'R');
    assert("EXPIRE_TAKER"@[5] == 'E');
    assert("EXPIRE_TAKER"@[6] == '_');
    assert("EXPIRE_TAKER"@[7] == 'T');
    assert("EXPIRE_TAKER"@[8] == 'A');
    assert("EXPIRE_TAKER"@[9] == 'K');
    assert("EXPIRE_TAKER"@[10] == 'E');
    assert("EXPIRE_TAKER"@[11] == 'R');
    assert("NONE"@ != "EXPIRE_MAKER"@);
    assert("NONE"@ != "EXPIRE_TAKER"@);
    assert("NONE"@ != "EXPIRE_BOTH"@);
    assert("NONE"@ != "DECREMENT"@);
    assert("EXPIRE_MAKER"@ != "EXPIRE_TAKER"@);
    assert("EXPIRE_MAKER"@ != "EXPIRE_BOTH"@);
    assert("EXPIRE_MAKER"@ != "DECREMENT"@);
    assert("EXPIRE_TAKER"@ != "EXPIRE_BOTH"@);
    assert("EXPIRE_TAKER"@ != "DECREMENT"@);
    assert("EXPIRE_BOTH"@ != "DECREMENT"@);
    match v {
        STPMode::NoPrevention => assert(STPMode::spec_from_token(STPMode::NoPrevention.spec_token()) == Some(STPMode::NoPrevention)),
        STPMode::ExpireMaker => assert(STPMode::spec_from_token(STPMode::ExpireMaker.spec_token()) == Some(STPMode::ExpireMaker)),
        STPMode::ExpireTaker => assert(STPMode::spec_from_token(STPMode::ExpireTaker.spec_token()) == Some(STPMode::ExpireTaker)),
        STPMode::ExpireBoth => assert(STPMode::spec_from_token(STPMode::ExpireBoth.spec_token()) == Some(STPMode::ExpireBoth)),
        STPMode::Decrement => assert(STPMode::spec_from_token(STPMode::Decrement.spec_token()) == Some(STPMode::Decrement)),
    }
}

/// Encoding any SecurityType value and decoding the result yields the value
/// again.
pub proof fn lemma_security_type_round_trip(v: SecurityType)
    ensures
        SecurityType::spec_from_token(v.spec_token()) == Some(v),
{
    reveal_strlit("NONE");
    reveal_strlit("TRADE");
    reveal_strlit("USER_DATA");
    reveal_strlit("USER_STREAM");
    assert("NONE"@.len() == 4);
    assert("TRADE"@.len() == 5);
    assert("USER_DATA"@.len() == 9);
    assert("USER_STREAM"@.len() == 11);
    assert("NONE"@ != "TRADE"@);
    assert("NONE"@ != "USER_DATA"@);
    assert("NONE"@ != "USER_STREAM"@);
    assert("TRADE"@ != "USER_DATA"@);
    assert("TRADE"@ != "USER_STREAM"@);
    assert("USER_DATA"@ != "USER_STREAM"@);
    match v {
        SecurityType::Open => assert(SecurityType::spec_from_token(SecurityType::Open.spec_token()) == Some(SecurityType::Open)),
        SecurityType::Trade => assert(SecurityType::spec_from_token(SecurityType::Trade.spec_token()) == Some(SecurityType::Trade)),
        SecurityType::UserData => assert(SecurityType::spec_from_token(SecurityType::UserData.spec_token()) == Some(SecurityType::UserData)),
        SecurityType::UserStream => assert(SecurityType::spec_from_token(SecurityType::UserStream.spec_token()) == Some(SecurityType::UserStream)),
    }
}

} // verus!
