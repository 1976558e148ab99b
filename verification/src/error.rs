//! Error taxonomy.
//!
//! [`Error`] is the single error type that a client call can surface: a
//! transport failure reported by the HTTP collaborator, a query-string
//! encoding failure, or a decode failure.  A [`DecodeError`] names the exact
//! structural path (field names and array indices) at which a response body
//! stopped matching the expected shape.
//!
//! [`ErrorCode`] is the exchange's own catalog of error conditions; the
//! numeric values are fixed by the exchange and never renumbered.

use vstd::prelude::*;

use crate::text::dec_digits;
use crate::text::u64_to_string;

verus! {

/// One step into a JSON document: an object field or an array element.
#[derive(Debug, Clone, PartialEq)]
pub enum PathSeg {
    Key(String),
    Index(usize),
}

/// Model of a path step.
pub enum SpecPathSeg {
    Key(Seq<char>),
    Index(int),
}

impl DeepView for PathSeg {
    type V = SpecPathSeg;

    open spec fn deep_view(&self) -> SpecPathSeg {
        match self {
            PathSeg::Key(k) => SpecPathSeg::Key(k@),
            PathSeg::Index(i) => SpecPathSeg::Index(*i as int),
        }
    }
}

/// What went wrong at the failing position of a decode.
#[derive(Debug, Clone, PartialEq)]
pub enum DecodeKind {
    /// The body was not JSON at all; holds the parser's message.
    Syntax(String),
    /// A required object field was absent.
    MissingField,
    /// The value at the position had the wrong JSON type.
    WrongType,
    /// A positional array had the wrong number of elements.
    WrongArity { expected: usize, got: usize },
    /// A string was not one of the catalog's wire tokens.
    UnknownToken,
    /// A numeric value was malformed or out of range.
    BadNumber,
}

/// A decode failure, with the structural path to the first mismatch.
#[derive(Debug, Clone, PartialEq)]
pub struct DecodeError {
    pub path: Vec<PathSeg>,
    pub kind: DecodeKind,
}

/// The rendering of one path step: `.key` or `[index]`.
pub open spec fn spec_seg_chars(seg: SpecPathSeg) -> Seq<char> {
    match seg {
        SpecPathSeg::Key(k) => "."@ + k,
        SpecPathSeg::Index(i) => "["@ + dec_digits(i as nat) + "]"@,
    }
}

/// The rendering of a whole path, e.g. `.symbols[0].orderTypes`.
pub open spec fn spec_path_chars(path: Seq<SpecPathSeg>) -> Seq<char>
    decreases path.len(),
{
    if path.len() == 0 {
        Seq::empty()
    } else {
        spec_path_chars(path.drop_last()) + spec_seg_chars(path.last())
    }
}

impl DecodeError {
    /// A failure at the current position, with an empty path.
    pub fn at_root(kind: DecodeKind) -> (r: Self)
        ensures
            r.path@.len() == 0,
            r.kind == kind,
    {
        DecodeError { path: Vec::new(), kind }
    }

    /// Records that the failure happened under an object field.
    pub fn under_key(self, key: String) -> (r: Self)
        ensures
            r.path.deep_view() =~= seq![SpecPathSeg::Key(key@)] + self.path.deep_view(),
            r.kind == self.kind,
    {
        let DecodeError { mut path, kind } = self;
        path.insert(0, PathSeg::Key(key));
        DecodeError { path, kind }
    }

    /// Records that the failure happened under an array element.
    pub fn under_index(self, index: usize) -> (r: Self)
        ensures
            r.path.deep_view() =~= seq![SpecPathSeg::Index(index as int)] + self.path.deep_view(),
            r.kind == self.kind,
    {
        let DecodeError { mut path, kind } = self;
        path.insert(0, PathSeg::Index(index));
        DecodeError { path, kind }
    }

    /// Renders the structural path, one `.key` or `[index]` per step.
    pub fn path_string(&self) -> (r: String)
        ensures
            r@ == spec_path_chars(self.path.deep_view()),
    {
        let mut out = String::new();
        let n = self.path.len();
        let mut i: usize = 0;
        while i < n
            invariant
                0 <= i <= n,
                n == self.path@.len(),
                out@ == spec_path_chars(self.path.deep_view().subrange(0, i as int)),
            decreases n - i,
        {
            match &self.path[i] {
                PathSeg::Key(k) => {
                    out.append(".");
                    out.append(k.as_str());
                },
                PathSeg::Index(idx) => {
                    out.append("[");
                    let digits = u64_to_string(*idx as u64);
                    out.append(digits.as_str());
                    out.append("]");
                },
            }
            proof {
                let pv = self.path.deep_view();
                assert(pv.subrange(0, i + 1).drop_last() =~= pv.subrange(0, i as int));
                assert(pv.subrange(0, i + 1).last() == pv[i as int]);
            }
            i += 1;
        }
        proof {
            assert(self.path.deep_view().subrange(0, n as int) =~= self.path.deep_view());
        }
        out
    }
}

/// Everything a client call can fail with.
#[derive(Debug, Clone, PartialEq)]
pub enum Error {
    /// The HTTP collaborator could not complete the exchange.
    Transport(String),
    /// The parameters could not be turned into a query string.
    Encode(String),
    /// The response body did not match the expected shape.
    Decode(DecodeError),
}

/// Error codes reported by the exchange; values are stable and documented
/// per the exchange specification.
#[derive(Debug, Clone, Copy, PartialEq, Eq, Structural)]
pub enum ErrorCode {
    /// An unknown error occurred while processing the request.
    Unknown,
    /// Internal error; unable to process your request. Please try again.
    Disconnected,
    /// You are not authorized to execute this request.
    Unauthorized,
    /// Too many requests queued.
    TooManyRequests,
    /// An unexpected response was received from the message bus. Execution status unknown.
    UnexpectedResp,
    /// Timeout waiting for response from backend server. Send status unknown; execution status unknown.
    Timeout,
    /// Server is currently overloaded with other requests. Please try again in a few minutes.
    ServerBusy,
    /// This code is sent when an error has been returned by the matching engine.
    ErrorMsgReceived,
    /// The request is rejected by the API. (i.e. The request didn't reach the Matching Engine.)
    InvalidMessage,
    /// Unsupported order combination.
    UnknownOrderComposition,
    /// Too many new orders.
    TooManyOrders,
    /// This service is no longer available.
    ServiceShuttingDown,
    /// This operation is not supported.
    UnsupportedOperation,
    /// Timestamp for this request is outside of the recvWindow.
    InvalidTimestamp,
    /// Signature for this request is not valid.
    InvalidSignature,
    /// SenderCompId(49) is currently in use. Concurrent use of the same SenderCompId within one account is not allowed.
    CompIdInUse,
    /// Too many concurrent connections; current limit is '%s'.
    TooManyConnections,
    /// Please send Logout<5> message to close the session.
    LoggedOut,
    /// Illegal characters found in a parameter.
    IllegalChars,
    /// Too many parameters sent for this endpoint.
    TooManyParameters,
    /// A mandatory parameter was not sent, was empty/null, or malformed.
    MandatoryParamEmptyOrMalformed,
    /// An unknown parameter was sent.
    UnknownParam,
    /// Not all sent parameters were read.
    UnreadParameters,
    /// A parameter was empty.
    ParamEmpty,
    /// A parameter was sent when not required.
    ParamNotRequired,
    /// Parameter '%s' overflowed.
    ParamOverflow,
    /// Parameter '%s' has too much precision.
    BadPrecision,
    /// No orders on book for symbol.
    NoDepth,
    /// TimeInForce parameter sent when not required.
    TifNotRequired,
    /// Invalid timeInForce.
    InvalidTif,
    /// Invalid orderType.
    InvalidOrderType,
    /// Invalid side.
    InvalidSide,
    /// New client order ID was empty.
    EmptyNewClOrdId,
    /// Original client order ID was empty.
    EmptyOrgClOrdId,
    /// Invalid interval.
    BadInterval,
    /// Invalid symbol.
    BadSymbol,
    /// Invalid symbolStatus.
    InvalidSymbolstatus,
    /// This listenKey does not exist.
    InvalidListenKey,
    /// Lookup interval is too big.
    MoreThanXxHours,
    /// Combination of optional parameters invalid.
    OptionalParamsBadCombo,
    /// Invalid data sent for a parameter.
    InvalidParameter,
    /// strategyType was less than 1000000.
    BadStrategyType,
    /// Invalid JSON Request
    InvalidJson,
    /// Invalid ticker type.
    InvalidTickerType,
    /// cancelRestrictions has to be either ONLY_NEW or ONLY_PARTIALLY_FILLED.
    InvalidCancelRestrictions,
    /// Symbol is present multiple times in the list.
    DuplicateSymbols,
    /// Invalid X-MBX-SBE header; expected <SCHEMA_ID>:<VERSION>.
    InvalidSbeHeader,
    /// Unsupported SBE schema ID or version specified in the X-MBX-SBE header.
    UnsupportedSchemaId,
    /// SBE is not enabled.
    SbeDisabled,
    /// Order type not supported in OCO.
    OcoOrderTypeRejected,
    /// Parameter '%s' is not supported if aboveTimeInForce/belowTimeInForce is not GTC.
    OcoIcebergqtyTimeinforce,
    /// Unable to encode the response in SBE schema 'x'. Please use schema 'y' or higher.
    DeprecatedSchema,
    /// A limit order in a buy OCO must be below.
    BuyOcoLimitMustBeBelow,
    /// A limit order in a sell OCO must be above.
    SellOcoLimitMustBeAbove,
    /// At least one OCO order must be contingent.
    BothOcoOrdersCannotBeLimit,
    /// Invalid tag number.
    InvalidTagNumber,
    /// Tag '%s' not defined for this message type.
    TagNotDefinedInMessage,
    /// Tag '%s' appears more than once.
    TagAppearsMoreThanOnce,
    /// Tag '%s' specified out of required order.
    TagOutOfOrder,
    /// Repeating group '%s' fields out of order.
    GroupFieldsOutOfOrder,
    /// Component '%s' is incorrectly populated on '%s' order. Recommendation: '%s'
    InvalidComponent,
    /// Continuation of sequence numbers to new session is currently unsupported. Sequence numbers must be reset for each new session.
    ResetSeqNumSupport,
    /// Logon<A> should only be sent once.
    AlreadyLoggedIn,
    /// CheckSum(10) contains an incorrect value.
    GarbledMessage,
    /// SenderCompId(49) contains an incorrect value. The SenderCompID value should not change throughout the lifetime of a session.
    BadSenderCompid,
    /// MsgSeqNum(34) contains an unexpected value. Expected: '%d'.
    BadSeqNum,
    /// Logon<A> must be the first message in the session.
    ExpectedLogon,
    /// Too many messages; current limit is '%d' messages per '%s'.
    TooManyMessages,
    /// Conflicting fields: [%s]
    ParamsBadCombo,
    /// Requested operation is not allowed in DropCopy sessions.
    NotAllowedInDropCopySessions,
    /// DropCopy sessions are not supported on this server. Please reconnect to a drop copy server.
    DropCopySessionNotAllowed,
    /// Only DropCopy sessions are supported on this server. Either reconnect to order entry server or send DropCopyFlag (9406) field.
    DropCopySessionRequired,
    /// Requested operation is not allowed in order entry sessions.
    NotAllowedInOrderEntrySessions,
    /// Requested operation is not allowed in market data sessions.
    NotAllowedInMarketDataSessions,
    /// Incorrect NumInGroup count for repeating group '%s'.
    IncorrectNumInGroupCount,
    /// Group '%s' contains duplicate entries.
    DuplicateEntriesInAGroup,
    /// MDReqID (262) contains a subscription request id that is already in use on this connection.
    InvalidRequestId,
    /// Too many subscriptions. Connection may create up to '%s' subscriptions at a time.
    TooManySubscriptions,
    /// Invalid value for time unit; expected either MICROSECOND or MILLISECOND.
    InvalidTimeUnit,
    /// A stop loss order in a buy OCO must be above.
    BuyOcoStopLossMustBeAbove,
    /// A stop loss order in a sell OCO must be below.
    SellOcoStopLossMustBeBelow,
    /// A take profit order in a buy OCO must be below.
    BuyOcoTakeProfitMustBeBelow,
    /// A take profit order in a sell OCO must be above.
    SellOcoTakeProfitMustBeAbove,
    /// NEW_ORDER_REJECTED
    NewOrderRejected,
    /// CANCEL_REJECTED
    CancelRejected,
    /// Order does not exist.
    NoSuchOrder,
    /// API-key format invalid.
    BadApiKeyFmt,
    /// Invalid API-key, IP, or permissions for action.
    RejectedMbxKey,
    /// No trading window could be found for the symbol. Try ticker/24hrs instead.
    NoTradingWindow,
    /// This code is sent when either the cancellation of the order failed or the new order placement failed but not both.
    OrderCancelReplacePartiallyFailed,
    /// This code is sent when both the cancellation of the order failed and the new order placement failed.
    OrderCancelReplaceFailed,
    /// Order was canceled or expired with no executed qty over 90 days ago and has been archived.
    OrderArchived,
    /// This code is sent when an error has been returned by the matching engine.
    OrderAmendRejected,
    /// Client order ID is not correct for this order ID.
    ClientOrderIdInvalid,
}

impl ErrorCode {
    /// The numeric wire value of the code.
    pub open spec fn spec_code(self) -> int {
        match self {
            ErrorCode::Unknown => -1000,
            ErrorCode::Disconnected => -1001,
            ErrorCode::Unauthorized => -1002,
            ErrorCode::TooManyRequests => -1003,
            ErrorCode::UnexpectedResp => -1006,
            ErrorCode::Timeout => -1007,
            ErrorCode::ServerBusy => -1008,
            ErrorCode::ErrorMsgReceived => -1010,
            ErrorCode::InvalidMessage => -1013,
            ErrorCode::UnknownOrderComposition => -1014,
            ErrorCode::TooManyOrders => -1015,
            ErrorCode::ServiceShuttingDown => -1016,
            ErrorCode::UnsupportedOperation => -1020,
            ErrorCode::InvalidTimestamp => -1021,
            ErrorCode::InvalidSignature => -1022,
            ErrorCode::CompIdInUse => -1033,
            ErrorCode::TooManyConnections => -1034,
            ErrorCode::LoggedOut => -1035,
            ErrorCode::IllegalChars => -1100,
            ErrorCode::TooManyParameters => -1101,
            ErrorCode::MandatoryParamEmptyOrMalformed => -1102,
            ErrorCode::UnknownParam => -1103,
            ErrorCode::UnreadParameters => -1104,
            ErrorCode::ParamEmpty => -1105,
            ErrorCode::ParamNotRequired => -1106,
            ErrorCode::ParamOverflow => -1108,
            ErrorCode::BadPrecision => -1111,
            ErrorCode::NoDepth => -1112,
            ErrorCode::TifNotRequired => -1114,
            ErrorCode::InvalidTif => -1115,
            ErrorCode::InvalidOrderType => -1116,
            ErrorCode::InvalidSide => -1117,
            ErrorCode::EmptyNewClOrdId => -1118,
            ErrorCode::EmptyOrgClOrdId => -1119,
            ErrorCode::BadInterval => -1120,
            ErrorCode::BadSymbol => -1121,
            ErrorCode::InvalidSymbolstatus => -1122,
            ErrorCode::InvalidListenKey => -1125,
            ErrorCode::MoreThanXxHours => -1127,
            ErrorCode::OptionalParamsBadCombo => -1128,
            ErrorCode::InvalidParameter => -1130,
            ErrorCode::BadStrategyType => -1134,
            ErrorCode::InvalidJson => -1135,
            ErrorCode::InvalidTickerType => -1139,
            ErrorCode::InvalidCancelRestrictions => -1145,
            ErrorCode::DuplicateSymbols => -1151,
            ErrorCode::InvalidSbeHeader => -1152,
            ErrorCode::UnsupportedSchemaId => -1153,
            ErrorCode::SbeDisabled => -1155,
            ErrorCode::OcoOrderTypeRejected => -1158,
            ErrorCode::OcoIcebergqtyTimeinforce => -1160,
            ErrorCode::DeprecatedSchema => -1161,
            ErrorCode::BuyOcoLimitMustBeBelow => -1165,
            ErrorCode::SellOcoLimitMustBeAbove => -1166,
            ErrorCode::BothOcoOrdersCannotBeLimit => -1168,
            ErrorCode::InvalidTagNumber => -1169,
            ErrorCode::TagNotDefinedInMessage => -1170,
            ErrorCode::TagAppearsMoreThanOnce => -1171,
            ErrorCode::TagOutOfOrder => -1172,
            ErrorCode::GroupFieldsOutOfOrder => -1173,
            ErrorCode::InvalidComponent => -1174,
            ErrorCode::ResetSeqNumSupport => -1175,
            ErrorCode::AlreadyLoggedIn => -1176,
            ErrorCode::GarbledMessage => -1177,
            ErrorCode::BadSenderCompid => -1178,
            ErrorCode::BadSeqNum => -1179,
            ErrorCode::ExpectedLogon => -1180,
            ErrorCode::TooManyMessages => -1181,
            ErrorCode::ParamsBadCombo => -1182,
            ErrorCode::NotAllowedInDropCopySessions => -1183,
            ErrorCode::DropCopySessionNotAllowed => -1184,
            ErrorCode::DropCopySessionRequired => -1185,
            ErrorCode::NotAllowedInOrderEntrySessions => -1186,
            ErrorCode::NotAllowedInMarketDataSessions => -1187,
            ErrorCode::IncorrectNumInGroupCount => -1188,
            ErrorCode::DuplicateEntriesInAGroup => -1189,
            ErrorCode::InvalidRequestId => -1190,
            ErrorCode::TooManySubscriptions => -1191,
            ErrorCode::InvalidTimeUnit => -1194,
            ErrorCode::BuyOcoStopLossMustBeAbove => -1196,
            ErrorCode::SellOcoStopLossMustBeBelow => -1197,
            ErrorCode::BuyOcoTakeProfitMustBeBelow => -1198,
            ErrorCode::SellOcoTakeProfitMustBeAbove => -1199,
            ErrorCode::NewOrderRejected => -2010,
            ErrorCode::CancelRejected => -2011,
            ErrorCode::NoSuchOrder => -2013,
            ErrorCode::BadApiKeyFmt => -2014,
            ErrorCode::RejectedMbxKey => -2015,
            ErrorCode::NoTradingWindow => -2016,
            ErrorCode::OrderCancelReplacePartiallyFailed => -2021,
            ErrorCode::OrderCancelReplaceFailed => -2022,
            ErrorCode::OrderArchived => -2026,
            ErrorCode::OrderAmendRejected => -2038,
            ErrorCode::ClientOrderIdInvalid => -2039,
        }
    }

    /// The code for a numeric wire value, if the catalog has it.
    pub open spec fn spec_from_code(code: int) -> Option<ErrorCode> {
        if code == -1000 {
            Some(ErrorCode::Unknown)
        } else if code == -1001 {
            Some(ErrorCode::Disconnected)
        } else if code == -1002 {
            Some(ErrorCode::Unauthorized)
        } else if code == -1003 {
            Some(ErrorCode::TooManyRequests)
        } else if code == -1006 {
            Some(ErrorCode::UnexpectedResp)
        } else if code == -1007 {
            Some(ErrorCode::Timeout)
        } else if code == -1008 {
            Some(ErrorCode::ServerBusy)
        } else if code == -1010 {
            Some(ErrorCode::ErrorMsgReceived)
        } else if code == -1013 {
            Some(ErrorCode::InvalidMessage)
        } else if code == -1014 {
            Some(ErrorCode::UnknownOrderComposition)
        } else if code == -1015 {
            Some(ErrorCode::TooManyOrders)
        } else if code == -1016 {
            Some(ErrorCode::ServiceShuttingDown)
        } else if code == -1020 {
            Some(ErrorCode::UnsupportedOperation)
        } else if code == -1021 {
            Some(ErrorCode::InvalidTimestamp)
        } else if code == -1022 {
            Some(ErrorCode::InvalidSignature)
        } else if code == -1033 {
            Some(ErrorCode::CompIdInUse)
        } else if code == -1034 {
            Some(ErrorCode::TooManyConnections)
        } else if code == -1035 {
            Some(ErrorCode::LoggedOut)
        } else if code == -1100 {
            Some(ErrorCode::IllegalChars)
        } else if code == -1101 {
            Some(ErrorCode::TooManyParameters)
        } else if code == -1102 {
            Some(ErrorCode::MandatoryParamEmptyOrMalformed)
        } else if code == -1103 {
            Some(ErrorCode::UnknownParam)
        } else if code == -1104 {
            Some(ErrorCode::UnreadParameters)
        } else if code == -1105 {
            Some(ErrorCode::ParamEmpty)
        } else if code == -1106 {
            Some(ErrorCode::ParamNotRequired)
        } else if code == -1108 {
            Some(ErrorCode::ParamOverflow)
        } else if code == -1111 {
            Some(ErrorCode::BadPrecision)
        } else if code == -1112 {
            Some(ErrorCode::NoDepth)
        } else if code == -1114 {
            Some(ErrorCode::TifNotRequired)
        } else if code == -1115 {
            Some(ErrorCode::InvalidTif)
        } else if code == -1116 {
            Some(ErrorCode::InvalidOrderType)
        } else if code == -1117 {
            Some(ErrorCode::InvalidSide)
        } else if code == -1118 {
            Some(ErrorCode::EmptyNewClOrdId)
        } else if code == -1119 {
            Some(ErrorCode::EmptyOrgClOrdId)
        } else if code == -1120 {
            Some(ErrorCode::BadInterval)
        } else if code == -1121 {
            Some(ErrorCode::BadSymbol)
        } else if code == -1122 {
            Some(ErrorCode::InvalidSymbolstatus)
        } else if code == -1125 {
            Some(ErrorCode::InvalidListenKey)
        } else if code == -1127 {
            Some(ErrorCode::MoreThanXxHours)
        } else if code == -1128 {
            Some(ErrorCode::OptionalParamsBadCombo)
        } else if code == -1130 {
            Some(ErrorCode::InvalidParameter)
        } else if code == -1134 {
            Some(ErrorCode::BadStrategyType)
        } else if code == -1135 {
            Some(ErrorCode::InvalidJson)
        } else if code == -1139 {
            Some(ErrorCode::InvalidTickerType)
        } else if code == -1145 {
            Some(ErrorCode::InvalidCancelRestrictions)
        } else if code == -1151 {
            Some(ErrorCode::DuplicateSymbols)
        } else if code == -1152 {
            Some(ErrorCode::InvalidSbeHeader)
        } else if code == -1153 {
            Some(ErrorCode::UnsupportedSchemaId)
        } else if code == -1155 {
            Some(ErrorCode::SbeDisabled)
        } else if code == -1158 {
            Some(ErrorCode::OcoOrderTypeRejected)
        } else if code == -1160 {
            Some(ErrorCode::OcoIcebergqtyTimeinforce)
        } else if code == -1161 {
            Some(ErrorCode::DeprecatedSchema)
        } else if code == -1165 {
            Some(ErrorCode::BuyOcoLimitMustBeBelow)
        } else if code == -1166 {
            Some(ErrorCode::SellOcoLimitMustBeAbove)
        } else if code == -1168 {
            Some(ErrorCode::BothOcoOrdersCannotBeLimit)
        } else if code == -1169 {
            Some(ErrorCode::InvalidTagNumber)
        } else if code == -1170 {
            Some(ErrorCode::TagNotDefinedInMessage)
        } else if code == -1171 {
            Some(ErrorCode::TagAppearsMoreThanOnce)
        } else if code == -1172 {
            Some(ErrorCode::TagOutOfOrder)
        } else if code == -1173 {
            Some(ErrorCode::GroupFieldsOutOfOrder)
        } else if code == -1174 {
            Some(ErrorCode::InvalidComponent)
        } else if code == -1175 {
            Some(ErrorCode::ResetSeqNumSupport)
        } else if code == -1176 {
            Some(ErrorCode::AlreadyLoggedIn)
        } else if code == -1177 {
            Some(ErrorCode::GarbledMessage)
        } else if code == -1178 {
            Some(ErrorCode::BadSenderCompid)
        } else if code == -1179 {
            Some(ErrorCode::BadSeqNum)
        } else if code == -1180 {
            Some(ErrorCode::ExpectedLogon)
        } else if code == -1181 {
            Some(ErrorCode::TooManyMessages)
        } else if code == -1182 {
            Some(ErrorCode::ParamsBadCombo)
        } else if code == -1183 {
            Some(ErrorCode::NotAllowedInDropCopySessions)
        } else if code == -1184 {
            Some(ErrorCode::DropCopySessionNotAllowed)
        } else if code == -1185 {
            Some(ErrorCode::DropCopySessionRequired)
        } else if code == -1186 {
            Some(ErrorCode::NotAllowedInOrderEntrySessions)
        } else if code == -1187 {
            Some(ErrorCode::NotAllowedInMarketDataSessions)
        } else if code == -1188 {
            Some(ErrorCode::IncorrectNumInGroupCount)
        } else if code == -1189 {
            Some(ErrorCode::DuplicateEntriesInAGroup)
        } else if code == -1190 {
            Some(ErrorCode::InvalidRequestId)
        } else if code == -1191 {
            Some(ErrorCode::TooManySubscriptions)
        } else if code == -1194 {
            Some(ErrorCode::InvalidTimeUnit)
        } else if code == -1196 {
            Some(ErrorCode::BuyOcoStopLossMustBeAbove)
        } else if code == -1197 {
            Some(ErrorCode::SellOcoStopLossMustBeBelow)
        } else if code == -1198 {
            Some(ErrorCode::BuyOcoTakeProfitMustBeBelow)
        } else if code == -1199 {
            Some(ErrorCode::SellOcoTakeProfitMustBeAbove)
        } else if code == -2010 {
            Some(ErrorCode::NewOrderRejected)
        } else if code == -2011 {
            Some(ErrorCode::CancelRejected)
        } else if code == -2013 {
            Some(ErrorCode::NoSuchOrder)
        } else if code == -2014 {
            Some(ErrorCode::BadApiKeyFmt)
        } else if code == -2015 {
            Some(ErrorCode::RejectedMbxKey)
        } else if code == -2016 {
            Some(ErrorCode::NoTradingWindow)
        } else if code == -2021 {
            Some(ErrorCode::OrderCancelReplacePartiallyFailed)
        } else if code == -2022 {
            Some(ErrorCode::OrderCancelReplaceFailed)
        } else if code == -2026 {
            Some(ErrorCode::OrderArchived)
        } else if code == -2038 {
            Some(ErrorCode::OrderAmendRejected)
        } else if code == -2039 {
            Some(ErrorCode::ClientOrderIdInvalid)
        } else {
            None
        }
    }

    /// The numeric wire value of the code.
    pub fn code(&self) -> (r: i16)
        ensures
            r as int == self.spec_code(),
    {
        match self {
            ErrorCode::Unknown => -1000,
            ErrorCode::Disconnected => -1001,
            ErrorCode::Unauthorized => -1002,
            ErrorCode::TooManyRequests => -1003,
            ErrorCode::UnexpectedResp => -1006,
            ErrorCode::Timeout => -1007,
            ErrorCode::ServerBusy => -1008,
            ErrorCode::ErrorMsgReceived => -1010,
            ErrorCode::InvalidMessage => -1013,
            ErrorCode::UnknownOrderComposition => -1014,
            ErrorCode::TooManyOrders => -1015,
            ErrorCode::ServiceShuttingDown => -1016,
            ErrorCode::UnsupportedOperation => -1020,
            ErrorCode::InvalidTimestamp => -1021,
            ErrorCode::InvalidSignature => -1022,
            ErrorCode::CompIdInUse => -1033,
            ErrorCode::TooManyConnections => -1034,
            ErrorCode::LoggedOut => -1035,
            ErrorCode::IllegalChars => -1100,
            ErrorCode::TooManyParameters => -1101,
            ErrorCode::MandatoryParamEmptyOrMalformed => -1102,
            ErrorCode::UnknownParam => -1103,
            ErrorCode::UnreadParameters => -1104,
            ErrorCode::ParamEmpty => -1105,
            ErrorCode::ParamNotRequired => -1106,
            ErrorCode::ParamOverflow => -1108,
            ErrorCode::BadPrecision => -1111,
            ErrorCode::NoDepth => -1112,
            ErrorCode::TifNotRequired => -1114,
            ErrorCode::InvalidTif => -1115,
            ErrorCode::InvalidOrderType => -1116,
            ErrorCode::InvalidSide => -1117,
            ErrorCode::EmptyNewClOrdId => -1118,
            ErrorCode::EmptyOrgClOrdId => -1119,
            ErrorCode::BadInterval => -1120,
            ErrorCode::BadSymbol => -1121,
            ErrorCode::InvalidSymbolstatus => -1122,
            ErrorCode::InvalidListenKey => -1125,
            ErrorCode::MoreThanXxHours => -1127,
            ErrorCode::OptionalParamsBadCombo => -1128,
            ErrorCode::InvalidParameter => -1130,
            ErrorCode::BadStrategyType => -1134,
            ErrorCode::InvalidJson => -1135,
            ErrorCode::InvalidTickerType => -1139,
            ErrorCode::InvalidCancelRestrictions => -1145,
            ErrorCode::DuplicateSymbols => -1151,
            ErrorCode::InvalidSbeHeader => -1152,
            ErrorCode::UnsupportedSchemaId => -1153,
            ErrorCode::SbeDisabled => -1155,
            ErrorCode::OcoOrderTypeRejected => -1158,
            ErrorCode::OcoIcebergqtyTimeinforce => -1160,
            ErrorCode::DeprecatedSchema => -1161,
            ErrorCode::BuyOcoLimitMustBeBelow => -1165,
            ErrorCode::SellOcoLimitMustBeAbove => -1166,
            ErrorCode::BothOcoOrdersCannotBeLimit => -1168,
            ErrorCode::InvalidTagNumber => -1169,
            ErrorCode::TagNotDefinedInMessage => -1170,
            ErrorCode::TagAppearsMoreThanOnce => -1171,
            ErrorCode::TagOutOfOrder => -1172,
            ErrorCode::GroupFieldsOutOfOrder => -1173,
            ErrorCode::InvalidComponent => -1174,
            ErrorCode::ResetSeqNumSupport => -1175,
            ErrorCode::AlreadyLoggedIn => -1176,
            ErrorCode::GarbledMessage => -1177,
            ErrorCode::BadSenderCompid => -1178,
            ErrorCode::BadSeqNum => -1179,
            ErrorCode::ExpectedLogon => -1180,
            ErrorCode::TooManyMessages => -1181,
            ErrorCode::ParamsBadCombo => -1182,
            ErrorCode::NotAllowedInDropCopySessions => -1183,
            ErrorCode::DropCopySessionNotAllowed => -1184,
            ErrorCode::DropCopySessionRequired => -1185,
            ErrorCode::NotAllowedInOrderEntrySessions => -1186,
            ErrorCode::NotAllowedInMarketDataSessions => -1187,
            ErrorCode::IncorrectNumInGroupCount => -1188,
            ErrorCode::DuplicateEntriesInAGroup => -1189,
            ErrorCode::InvalidRequestId => -1190,
            ErrorCode::TooManySubscriptions => -1191,
            ErrorCode::InvalidTimeUnit => -1194,
            ErrorCode::BuyOcoStopLossMustBeAbove => -1196,
            ErrorCode::SellOcoStopLossMustBeBelow => -1197,
            ErrorCode::BuyOcoTakeProfitMustBeBelow => -1198,
            ErrorCode::SellOcoTakeProfitMustBeAbove => -1199,
            ErrorCode::NewOrderRejected => -2010,
            ErrorCode::CancelRejected => -2011,
            ErrorCode::NoSuchOrder => -2013,
            ErrorCode::BadApiKeyFmt => -2014,
            ErrorCode::RejectedMbxKey => -2015,
            ErrorCode::NoTradingWindow => -2016,
            ErrorCode::OrderCancelReplacePartiallyFailed => -2021,
            ErrorCode::OrderCancelReplaceFailed => -2022,
            ErrorCode::OrderArchived => -2026,
            ErrorCode::OrderAmendRejected => -2038,
            ErrorCode::ClientOrderIdInvalid => -2039,
        }
    }

    /// Looks a numeric wire value up in the catalog.
    pub fn from_code(code: i16) -> (r: Option<ErrorCode>)
        ensures
            r == Self::spec_from_code(code as int),
    {
        match code {
            -1000 => Some(ErrorCode::Unknown),
            -1001 => Some(ErrorCode::Disconnected),
            -1002 => Some(ErrorCode::Unauthorized),
            -1003 => Some(ErrorCode::TooManyRequests),
            -1006 => Some(ErrorCode::UnexpectedResp),
            -1007 => Some(ErrorCode::Timeout),
            -1008 => Some(ErrorCode::ServerBusy),
            -1010 => Some(ErrorCode::ErrorMsgReceived),
            -1013 => Some(ErrorCode::InvalidMessage),
            -1014 => Some(ErrorCode::UnknownOrderComposition),
            -1015 => Some(ErrorCode::TooManyOrders),
            -1016 => Some(ErrorCode::ServiceShuttingDown),
            -1020 => Some(ErrorCode::UnsupportedOperation),
            -1021 => Some(ErrorCode::InvalidTimestamp),
            -1022 => Some(ErrorCode::InvalidSignature),
            -1033 => Some(ErrorCode::CompIdInUse),
            -1034 => Some(ErrorCode::TooManyConnections),
            -1035 => Some(ErrorCode::LoggedOut),
            -1100 => Some(ErrorCode::IllegalChars),
            -1101 => Some(ErrorCode::TooManyParameters),
            -1102 => Some(ErrorCode::MandatoryParamEmptyOrMalformed),
            -1103 => Some(ErrorCode::UnknownParam),
            -1104 => Some(ErrorCode::UnreadParameters),
            -1105 => Some(ErrorCode::ParamEmpty),
            -1106 => Some(ErrorCode::ParamNotRequired),
            -1108 => Some(ErrorCode::ParamOverflow),
            -1111 => Some(ErrorCode::BadPrecision),
            -1112 => Some(ErrorCode::NoDepth),
            -1114 => Some(ErrorCode::TifNotRequired),
            -1115 => Some(ErrorCode::InvalidTif),
            -1116 => Some(ErrorCode::InvalidOrderType),
            -1117 => Some(ErrorCode::InvalidSide),
            -1118 => Some(ErrorCode::EmptyNewClOrdId),
            -1119 => Some(ErrorCode::EmptyOrgClOrdId),
            -1120 => Some(ErrorCode::BadInterval),
            -1121 => Some(ErrorCode::BadSymbol),
            -1122 => Some(ErrorCode::InvalidSymbolstatus),
            -1125 => Some(ErrorCode::InvalidListenKey),
            -1127 => Some(ErrorCode::MoreThanXxHours),
            -1128 => Some(ErrorCode::OptionalParamsBadCombo),
            -1130 => Some(ErrorCode::InvalidParameter),
            -1134 => Some(ErrorCode::BadStrategyType),
            -1135 => Some(ErrorCode::InvalidJson),
            -1139 => Some(ErrorCode::InvalidTickerType),
            -1145 => Some(ErrorCode::InvalidCancelRestrictions),
            -1151 => Some(ErrorCode::DuplicateSymbols),
            -1152 => Some(ErrorCode::InvalidSbeHeader),
            -1153 => Some(ErrorCode::UnsupportedSchemaId),
            -1155 => Some(ErrorCode::SbeDisabled),
            -1158 => Some(ErrorCode::OcoOrderTypeRejected),
            -1160 => Some(ErrorCode::OcoIcebergqtyTimeinforce),
            -1161 => Some(ErrorCode::DeprecatedSchema),
            -1165 => Some(ErrorCode::BuyOcoLimitMustBeBelow),
            -1166 => Some(ErrorCode::SellOcoLimitMustBeAbove),
            -1168 => Some(ErrorCode::BothOcoOrdersCannotBeLimit),
            -1169 => Some(ErrorCode::InvalidTagNumber),
            -1170 => Some(ErrorCode::TagNotDefinedInMessage),
            -1171 => Some(ErrorCode::TagAppearsMoreThanOnce),
            -1172 => Some(ErrorCode::TagOutOfOrder),
            -1173 => Some(ErrorCode::GroupFieldsOutOfOrder),
            -1174 => Some(ErrorCode::InvalidComponent),
            -1175 => Some(ErrorCode::ResetSeqNumSupport),
            -1176 => Some(ErrorCode::AlreadyLoggedIn),
            -1177 => Some(ErrorCode::GarbledMessage),
            -1178 => Some(ErrorCode::BadSenderCompid),
            -1179 => Some(ErrorCode::BadSeqNum),
            -1180 => Some(ErrorCode::ExpectedLogon),
            -1181 => Some(ErrorCode::TooManyMessages),
            -1182 => Some(ErrorCode::ParamsBadCombo),
            -1183 => Some(ErrorCode::NotAllowedInDropCopySessions),
            -1184 => Some(ErrorCode::DropCopySessionNotAllowed),
            -1185 => Some(ErrorCode::DropCopySessionRequired),
            -1186 => Some(ErrorCode::NotAllowedInOrderEntrySessions),
            -1187 => Some(ErrorCode::NotAllowedInMarketDataSessions),
            -1188 => Some(ErrorCode::IncorrectNumInGroupCount),
            -1189 => Some(ErrorCode::DuplicateEntriesInAGroup),
            -1190 => Some(ErrorCode::InvalidRequestId),
            -1191 => Some(ErrorCode::TooManySubscriptions),
            -1194 => Some(ErrorCode::InvalidTimeUnit),
            -1196 => Some(ErrorCode::BuyOcoStopLossMustBeAbove),
            -1197 => Some(ErrorCode::SellOcoStopLossMustBeBelow),
            -1198 => Some(ErrorCode::BuyOcoTakeProfitMustBeBelow),
            -1199 => Some(ErrorCode::SellOcoTakeProfitMustBeAbove),
            -2010 => Some(ErrorCode::NewOrderRejected),
            -2011 => Some(ErrorCode::CancelRejected),
            -2013 => Some(ErrorCode::NoSuchOrder),
            -2014 => Some(ErrorCode::BadApiKeyFmt),
            -2015 => Some(ErrorCode::RejectedMbxKey),
            -2016 => Some(ErrorCode::NoTradingWindow),
            -2021 => Some(ErrorCode::OrderCancelReplacePartiallyFailed),
            -2022 => Some(ErrorCode::OrderCancelReplaceFailed),
            -2026 => Some(ErrorCode::OrderArchived),
            -2038 => Some(ErrorCode::OrderAmendRejected),
            -2039 => Some(ErrorCode::ClientOrderIdInvalid),
            _ => None,
        }
    }
}

/// Every code in the catalog round-trips through its numeric wire value.
pub proof fn lemma_error_code_round_trip(e: ErrorCode)
    ensures
        ErrorCode::spec_from_code(e.spec_code()) == Some(e),
{
}

} // verus!
