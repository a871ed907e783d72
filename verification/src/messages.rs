//! The messages a client sends, and how their bodies begin.
//!
//! A message body names its message in one of three ways:
//!
//! - a protobuf message starts with its id plus [`PROTOBUF_MSG_ID`], in four
//!   big-endian bytes;
//! - a legacy binary message starts with the id itself, in four big-endian
//!   bytes;
//! - a text message starts with its id in decimal, up to the first NUL.
use vstd::prelude::*;
use crate::bytes::{a_number_is_written_byte_by_byte, be_bytes, u32_to_be_bytes};

verus! {

/// What a protobuf message adds to its id.
pub const PROTOBUF_MSG_ID: i32 = 200;

/// The messages a client sends.
#[derive(Debug, Clone, Copy, PartialEq, Eq, Structural)]
pub enum OutgoingMessages {
    RequestMarketData,
    CancelMarketData,
    PlaceOrder,
    CancelOrder,
    RequestOpenOrders,
    RequestAccountData,
    RequestExecutions,
    RequestIds,
    RequestContractData,
    RequestMarketDepth,
    CancelMarketDepth,
    RequestNewsBulletins,
    CancelNewsBulletin,
    ChangeServerLog,
    RequestAutoOpenOrders,
    RequestAllOpenOrders,
    RequestManagedAccounts,
    RequestFA,
    ReplaceFA,
    RequestHistoricalData,
    ExerciseOptions,
    RequestScannerSubscription,
    CancelScannerSubscription,
    RequestScannerParameters,
    CancelHistoricalData,
    RequestCurrentTime,
    RequestRealTimeBars,
    CancelRealTimeBars,
    RequestFundamentalData,
    CancelFundamentalData,
    ReqCalcImpliedVolat,
    ReqCalcOptionPrice,
    CancelImpliedVolatility,
    CancelOptionPrice,
    RequestGlobalCancel,
    RequestMarketDataType,
    RequestPositions,
    RequestAccountSummary,
    CancelAccountSummary,
    CancelPositions,
    VerifyRequest,
    VerifyMessage,
    QueryDisplayGroups,
    SubscribeToGroupEvents,
    UpdateDisplayGroup,
    UnsubscribeFromGroupEvents,
    StartApi,
    VerifyAndAuthRequest,
    VerifyAndAuthMessage,
    RequestPositionsMulti,
    CancelPositionsMulti,
    RequestAccountUpdatesMulti,
    CancelAccountUpdatesMulti,
    RequestSecurityDefinitionOptionalParameters,
    RequestSoftDollarTiers,
    RequestFamilyCodes,
    RequestMatchingSymbols,
    RequestMktDepthExchanges,
    RequestSmartComponents,
    RequestNewsArticle,
    RequestNewsProviders,
    RequestHistoricalNews,
    RequestHeadTimestamp,
    RequestHistogramData,
    CancelHistogramData,
    CancelHeadTimestamp,
    RequestMarketRule,
    RequestPnL,
    CancelPnL,
    RequestPnLSingle,
    CancelPnLSingle,
    RequestHistoricalTicks,
    RequestTickByTickData,
    CancelTickByTickData,
    RequestCompletedOrders,
    RequestWshMetaData,
    CancelWshMetaData,
    RequestWshEventData,
    CancelWshEventData,
    RequestUserInfo,
}

/// The message with a given id, if there is one.
pub open spec fn message_with_id(id: int) -> Option<OutgoingMessages> {
    if exists|message: OutgoingMessages| #[trigger] message.wire_id() == id {
        Some(choose|message: OutgoingMessages| #[trigger] message.wire_id() == id)
    } else {
        None
    }
}

impl OutgoingMessages {
    /// The id that stands for this message on the wire.
    pub open spec fn wire_id(self) -> int {
        match self {
            OutgoingMessages::RequestMarketData => 1,
            OutgoingMessages::CancelMarketData => 2,
            OutgoingMessages::PlaceOrder => 3,
            OutgoingMessages::CancelOrder => 4,
            OutgoingMessages::RequestOpenOrders => 5,
            OutgoingMessages::RequestAccountData => 6,
            OutgoingMessages::RequestExecutions => 7,
            OutgoingMessages::RequestIds => 8,
            OutgoingMessages::RequestContractData => 9,
            OutgoingMessages::RequestMarketDepth => 10,
            OutgoingMessages::CancelMarketDepth => 11,
            OutgoingMessages::RequestNewsBulletins => 12,
            OutgoingMessages::CancelNewsBulletin => 13,
            OutgoingMessages::ChangeServerLog => 14,
            OutgoingMessages::RequestAutoOpenOrders => 15,
            OutgoingMessages::RequestAllOpenOrders => 16,
            OutgoingMessages::RequestManagedAccounts => 17,
            OutgoingMessages::RequestFA => 18,
            OutgoingMessages::ReplaceFA => 19,
            OutgoingMessages::RequestHistoricalData => 20,
            OutgoingMessages::ExerciseOptions => 21,
            OutgoingMessages::RequestScannerSubscription => 22,
            OutgoingMessages::CancelScannerSubscription => 23,
            OutgoingMessages::RequestScannerParameters => 24,
            OutgoingMessages::CancelHistoricalData => 25,
            OutgoingMessages::RequestCurrentTime => 49,
            OutgoingMessages::RequestRealTimeBars => 50,
            OutgoingMessages::CancelRealTimeBars => 51,
            OutgoingMessages::RequestFundamentalData => 52,
            OutgoingMessages::CancelFundamentalData => 53,
            OutgoingMessages::ReqCalcImpliedVolat => 54,
            OutgoingMessages::ReqCalcOptionPrice => 55,
            OutgoingMessages::CancelImpliedVolatility => 56,
            OutgoingMessages::CancelOptionPrice => 57,
            OutgoingMessages::RequestGlobalCancel => 58,
            OutgoingMessages::RequestMarketDataType => 59,
            OutgoingMessages::RequestPositions => 61,
            OutgoingMessages::RequestAccountSummary => 62,
            OutgoingMessages::CancelAccountSummary => 63,
            OutgoingMessages::CancelPositions => 64,
            OutgoingMessages::VerifyRequest => 65,
            OutgoingMessages::VerifyMessage => 66,
            OutgoingMessages::QueryDisplayGroups => 67,
            OutgoingMessages::SubscribeToGroupEvents => 68,
            OutgoingMessages::UpdateDisplayGroup => 69,
            OutgoingMessages::UnsubscribeFromGroupEvents => 70,
            OutgoingMessages::StartApi => 71,
            OutgoingMessages::VerifyAndAuthRequest => 72,
            OutgoingMessages::VerifyAndAuthMessage => 73,
            OutgoingMessages::RequestPositionsMulti => 74,
            OutgoingMessages::CancelPositionsMulti => 75,
            OutgoingMessages::RequestAccountUpdatesMulti => 76,
            OutgoingMessages::CancelAccountUpdatesMulti => 77,
            OutgoingMessages::RequestSecurityDefinitionOptionalParameters => 78,
            OutgoingMessages::RequestSoftDollarTiers => 79,
            OutgoingMessages::RequestFamilyCodes => 80,
            OutgoingMessages::RequestMatchingSymbols => 81,
            OutgoingMessages::RequestMktDepthExchanges => 82,
            OutgoingMessages::RequestSmartComponents => 83,
            OutgoingMessages::RequestNewsArticle => 84,
            OutgoingMessages::RequestNewsProviders => 85,
            OutgoingMessages::RequestHistoricalNews => 86,
            OutgoingMessages::RequestHeadTimestamp => 87,
            OutgoingMessages::RequestHistogramData => 88,
            OutgoingMessages::CancelHistogramData => 89,
            OutgoingMessages::CancelHeadTimestamp => 90,
            OutgoingMessages::RequestMarketRule => 91,
            OutgoingMessages::RequestPnL => 92,
            OutgoingMessages::CancelPnL => 93,
            OutgoingMessages::RequestPnLSingle => 94,
            OutgoingMessages::CancelPnLSingle => 95,
            OutgoingMessages::RequestHistoricalTicks => 96,
            OutgoingMessages::RequestTickByTickData => 97,
            OutgoingMessages::CancelTickByTickData => 98,
            OutgoingMessages::RequestCompletedOrders => 99,
            OutgoingMessages::RequestWshMetaData => 100,
            OutgoingMessages::CancelWshMetaData => 101,
            OutgoingMessages::RequestWshEventData => 102,
            OutgoingMessages::CancelWshEventData => 103,
            OutgoingMessages::RequestUserInfo => 104,
        }
    }

    /// The id that stands for this message on the wire.
    pub fn id(self) -> (id: i32)
        ensures
            id == self.wire_id(),
            0 < id < PROTOBUF_MSG_ID,
    {
            match self {
            OutgoingMessages::RequestMarketData => 1,
            OutgoingMessages::CancelMarketData => 2,
            OutgoingMessages::PlaceOrder => 3,
            OutgoingMessages::CancelOrder => 4,
            OutgoingMessages::RequestOpenOrders => 5,
            OutgoingMessages::RequestAccountData => 6,
            OutgoingMessages::RequestExecutions => 7,
            OutgoingMessages::RequestIds => 8,
            OutgoingMessages::RequestContractData => 9,
            OutgoingMessages::RequestMarketDepth => 10,
            OutgoingMessages::CancelMarketDepth => 11,
            OutgoingMessages::RequestNewsBulletins => 12,
            OutgoingMessages::CancelNewsBulletin => 13,
            OutgoingMessages::ChangeServerLog => 14,
            OutgoingMessages::RequestAutoOpenOrders => 15,
            OutgoingMessages::RequestAllOpenOrders => 16,
            OutgoingMessages::RequestManagedAccounts => 17,
            OutgoingMessages::RequestFA => 18,
            OutgoingMessages::ReplaceFA => 19,
            OutgoingMessages::RequestHistoricalData => 20,
            OutgoingMessages::ExerciseOptions => 21,
            OutgoingMessages::RequestScannerSubscription => 22,
            OutgoingMessages::CancelScannerSubscription => 23,
            OutgoingMessages::RequestScannerParameters => 24,
            OutgoingMessages::CancelHistoricalData => 25,
            OutgoingMessages::RequestCurrentTime => 49,
            OutgoingMessages::RequestRealTimeBars => 50,
            OutgoingMessages::CancelRealTimeBars => 51,
            OutgoingMessages::RequestFundamentalData => 52,
            OutgoingMessages::CancelFundamentalData => 53,
            OutgoingMessages::ReqCalcImpliedVolat => 54,
            OutgoingMessages::ReqCalcOptionPrice => 55,
            OutgoingMessages::CancelImpliedVolatility => 56,
            OutgoingMessages::CancelOptionPrice => 57,
            OutgoingMessages::RequestGlobalCancel => 58,
            OutgoingMessages::RequestMarketDataType => 59,
            OutgoingMessages::RequestPositions => 61,
            OutgoingMessages::RequestAccountSummary => 62,
            OutgoingMessages::CancelAccountSummary => 63,
            OutgoingMessages::CancelPositions => 64,
            OutgoingMessages::VerifyRequest => 65,
            OutgoingMessages::VerifyMessage => 66,
            OutgoingMessages::QueryDisplayGroups => 67,
            OutgoingMessages::SubscribeToGroupEvents => 68,
            OutgoingMessages::UpdateDisplayGroup => 69,
            OutgoingMessages::UnsubscribeFromGroupEvents => 70,
            OutgoingMessages::StartApi => 71,
            OutgoingMessages::VerifyAndAuthRequest => 72,
            OutgoingMessages::VerifyAndAuthMessage => 73,
            OutgoingMessages::RequestPositionsMulti => 74,
            OutgoingMessages::CancelPositionsMulti => 75,
            OutgoingMessages::RequestAccountUpdatesMulti => 76,
            OutgoingMessages::CancelAccountUpdatesMulti => 77,
            OutgoingMessages::RequestSecurityDefinitionOptionalParameters => 78,
            OutgoingMessages::RequestSoftDollarTiers => 79,
            OutgoingMessages::RequestFamilyCodes => 80,
            OutgoingMessages::RequestMatchingSymbols => 81,
            OutgoingMessages::RequestMktDepthExchanges => 82,
            OutgoingMessages::RequestSmartComponents => 83,
            OutgoingMessages::RequestNewsArticle => 84,
            OutgoingMessages::RequestNewsProviders => 85,
            OutgoingMessages::RequestHistoricalNews => 86,
            OutgoingMessages::RequestHeadTimestamp => 87,
            OutgoingMessages::RequestHistogramData => 88,
            OutgoingMessages::CancelHistogramData => 89,
            OutgoingMessages::CancelHeadTimestamp => 90,
            OutgoingMessages::RequestMarketRule => 91,
            OutgoingMessages::RequestPnL => 92,
            OutgoingMessages::CancelPnL => 93,
            OutgoingMessages::RequestPnLSingle => 94,
            OutgoingMessages::CancelPnLSingle => 95,
            OutgoingMessages::RequestHistoricalTicks => 96,
            OutgoingMessages::RequestTickByTickData => 97,
            OutgoingMessages::CancelTickByTickData => 98,
            OutgoingMessages::RequestCompletedOrders => 99,
            OutgoingMessages::RequestWshMetaData => 100,
            OutgoingMessages::CancelWshMetaData => 101,
            OutgoingMessages::RequestWshEventData => 102,
            OutgoingMessages::CancelWshEventData => 103,
            OutgoingMessages::RequestUserInfo => 104,
        }
    }

    /// The message with the id `id`, if there is one.
    pub fn from_id(id: i32) -> (message: Option<OutgoingMessages>)
        ensures
            message == message_with_id(id as int),
    {
        let message: Option<OutgoingMessages> = match id {
            1 => Some(OutgoingMessages::RequestMarketData),
            2 => Some(OutgoingMessages::CancelMarketData),
            3 => Some(OutgoingMessages::PlaceOrder),
            4 => Some(OutgoingMessages::CancelOrder),
            5 => Some(OutgoingMessages::RequestOpenOrders),
            6 => Some(OutgoingMessages::RequestAccountData),
            7 => Some(OutgoingMessages::RequestExecutions),
            8 => Some(OutgoingMessages::RequestIds),
            9 => Some(OutgoingMessages::RequestContractData),
            10 => Some(OutgoingMessages::RequestMarketDepth),
            11 => Some(OutgoingMessages::CancelMarketDepth),
            12 => Some(OutgoingMessages::RequestNewsBulletins),
            13 => Some(OutgoingMessages::CancelNewsBulletin),
            14 => Some(OutgoingMessages::ChangeServerLog),
            15 => Some(OutgoingMessages::RequestAutoOpenOrders),
            16 => Some(OutgoingMessages::RequestAllOpenOrders),
            17 => Some(OutgoingMessages::RequestManagedAccounts),
            18 => Some(OutgoingMessages::RequestFA),
            19 => Some(OutgoingMessages::ReplaceFA),
            20 => Some(OutgoingMessages::RequestHistoricalData),
            21 => Some(OutgoingMessages::ExerciseOptions),
            22 => Some(OutgoingMessages::RequestScannerSubscription),
            23 => Some(OutgoingMessages::CancelScannerSubscription),
            24 => Some(OutgoingMessages::RequestScannerParameters),
            25 => Some(OutgoingMessages::CancelHistoricalData),
            49 => Some(OutgoingMessages::RequestCurrentTime),
            50 => Some(OutgoingMessages::RequestRealTimeBars),
            51 => Some(OutgoingMessages::CancelRealTimeBars),
            52 => Some(OutgoingMessages::RequestFundamentalData),
            53 => Some(OutgoingMessages::CancelFundamentalData),
            54 => Some(OutgoingMessages::ReqCalcImpliedVolat),
            55 => Some(OutgoingMessages::ReqCalcOptionPrice),
            56 => Some(OutgoingMessages::CancelImpliedVolatility),
            57 => Some(OutgoingMessages::CancelOptionPrice),
            58 => Some(OutgoingMessages::RequestGlobalCancel),
            59 => Some(OutgoingMessages::RequestMarketDataType),
            61 => Some(OutgoingMessages::RequestPositions),
            62 => Some(OutgoingMessages::RequestAccountSummary),
            63 => Some(OutgoingMessages::CancelAccountSummary),
            64 => Some(OutgoingMessages::CancelPositions),
            65 => Some(OutgoingMessages::VerifyRequest),
            66 => Some(OutgoingMessages::VerifyMessage),
            67 => Some(OutgoingMessages::QueryDisplayGroups),
            68 => Some(OutgoingMessages::SubscribeToGroupEvents),
            69 => Some(OutgoingMessages::UpdateDisplayGroup),
            70 => Some(OutgoingMessages::UnsubscribeFromGroupEvents),
            71 => Some(OutgoingMessages::StartApi),
            72 => Some(OutgoingMessages::VerifyAndAuthRequest),
            73 => Some(OutgoingMessages::VerifyAndAuthMessage),
            74 => Some(OutgoingMessages::RequestPositionsMulti),
            75 => Some(OutgoingMessages::CancelPositionsMulti),
            76 => Some(OutgoingMessages::RequestAccountUpdatesMulti),
            77 => Some(OutgoingMessages::CancelAccountUpdatesMulti),
            78 => Some(OutgoingMessages::RequestSecurityDefinitionOptionalParameters),
            79 => Some(OutgoingMessages::RequestSoftDollarTiers),
            80 => Some(OutgoingMessages::RequestFamilyCodes),
            81 => Some(OutgoingMessages::RequestMatchingSymbols),
            82 => Some(OutgoingMessages::RequestMktDepthExchanges),
            83 => Some(OutgoingMessages::RequestSmartComponents),
            84 => Some(OutgoingMessages::RequestNewsArticle),
            85 => Some(OutgoingMessages::RequestNewsProviders),
            86 => Some(OutgoingMessages::RequestHistoricalNews),
            87 => Some(OutgoingMessages::RequestHeadTimestamp),
            88 => Some(OutgoingMessages::RequestHistogramData),
            89 => Some(OutgoingMessages::CancelHistogramData),
            90 => Some(OutgoingMessages::CancelHeadTimestamp),
            91 => Some(OutgoingMessages::RequestMarketRule),
            92 => Some(OutgoingMessages::RequestPnL),
            93 => Some(OutgoingMessages::CancelPnL),
            94 => Some(OutgoingMessages::RequestPnLSingle),
            95 => Some(OutgoingMessages::CancelPnLSingle),
            96 => Some(OutgoingMessages::RequestHistoricalTicks),
            97 => Some(OutgoingMessages::RequestTickByTickData),
            98 => Some(OutgoingMessages::CancelTickByTickData),
            99 => Some(OutgoingMessages::RequestCompletedOrders),
            100 => Some(OutgoingMessages::RequestWshMetaData),
            101 => Some(OutgoingMessages::CancelWshMetaData),
            102 => Some(OutgoingMessages::RequestWshEventData),
            103 => Some(OutgoingMessages::CancelWshEventData),
            104 => Some(OutgoingMessages::RequestUserInfo),
            _ => None,
        };
        proof {
            match message {
                Some(found) => an_id_names_one_message(found),
                None => assert(forall|other: OutgoingMessages| #[trigger] other.wire_id() != id),
            }
        }
        message
    }
}

/// No two messages share an id.
pub proof fn no_two_messages_share_an_id(one: OutgoingMessages, other: OutgoingMessages)
    requires
        one.wire_id() == other.wire_id(),
    ensures
        one == other,
{
}

/// Every message has an id of its own, and the id gives the message back.
pub proof fn an_id_names_one_message(message: OutgoingMessages)
    ensures
        message_with_id(message.wire_id()) == Some(message),
        0 < message.wire_id() < PROTOBUF_MSG_ID,
{
    let named = choose|named: OutgoingMessages| #[trigger] named.wire_id() == message.wire_id();
    no_two_messages_share_an_id(named, message);
}

/// What an id names has that id: an id that no message has names nothing.
pub proof fn a_named_message_has_the_id(id: int)
    ensures
        message_with_id(id) matches Some(message) ==> message.wire_id() == id,
        message_with_id(id) is None ==> forall|message: OutgoingMessages|
            #[trigger] message.wire_id() != id,
{
}

/// The body of a protobuf message: its id plus [`PROTOBUF_MSG_ID`] in four
/// big-endian bytes, then the request.
pub open spec fn protobuf_body(message_id: int, request: Seq<u8>) -> Seq<u8> {
    be_bytes(message_id + PROTOBUF_MSG_ID) + request
}

/// Put the id of a protobuf message before its request.
pub fn encode_protobuf_message(message_id: i32, request: &[u8]) -> (body: Vec<u8>)
    requires
        0 <= message_id <= i32::MAX - PROTOBUF_MSG_ID,
    ensures
        body@ == protobuf_body(message_id as int, request@),
{
    let mut body: Vec<u8> = u32_to_be_bytes((message_id + PROTOBUF_MSG_ID) as u32);
    body.extend_from_slice(request);
    body
}

/// The messages are numbered from one on, in the order in which they were
/// added to the protocol. The numbers that it leaves out are no message's.
pub proof fn the_messages_are_numbered_in_order()
    ensures
        OutgoingMessages::RequestMarketData.wire_id() == 1,
        OutgoingMessages::CancelMarketData.wire_id()
            == OutgoingMessages::RequestMarketData.wire_id() + 1,
        OutgoingMessages::PlaceOrder.wire_id()
            == OutgoingMessages::CancelMarketData.wire_id() + 1,
        OutgoingMessages::CancelOrder.wire_id()
            == OutgoingMessages::PlaceOrder.wire_id() + 1,
        OutgoingMessages::RequestOpenOrders.wire_id()
            == OutgoingMessages::CancelOrder.wire_id() + 1,
        OutgoingMessages::RequestAccountData.wire_id()
            == OutgoingMessages::RequestOpenOrders.wire_id() + 1,
        OutgoingMessages::RequestExecutions.wire_id()
            == OutgoingMessages::RequestAccountData.wire_id() + 1,
        OutgoingMessages::RequestIds.wire_id()
            == OutgoingMessages::RequestExecutions.wire_id() + 1,
        OutgoingMessages::RequestContractData.wire_id()
            == OutgoingMessages::RequestIds.wire_id() + 1,
        OutgoingMessages::RequestMarketDepth.wire_id()
            == OutgoingMessages::RequestContractData.wire_id() + 1,
        OutgoingMessages::CancelMarketDepth.wire_id()
            == OutgoingMessages::RequestMarketDepth.wire_id() + 1,
        OutgoingMessages::RequestNewsBulletins.wire_id()
            == OutgoingMessages::CancelMarketDepth.wire_id() + 1,
        OutgoingMessages::CancelNewsBulletin.wire_id()
            == OutgoingMessages::RequestNewsBulletins.wire_id() + 1,
        OutgoingMessages::ChangeServerLog.wire_id()
            == OutgoingMessages::CancelNewsBulletin.wire_id() + 1,
        OutgoingMessages::RequestAutoOpenOrders.wire_id()
            == OutgoingMessages::ChangeServerLog.wire_id() + 1,
        OutgoingMessages::RequestAllOpenOrders.wire_id()
            == OutgoingMessages::RequestAutoOpenOrders.wire_id() + 1,
        OutgoingMessages::RequestManagedAccounts.wire_id()
            == OutgoingMessages::RequestAllOpenOrders.wire_id() + 1,
        OutgoingMessages::RequestFA.wire_id()
            == OutgoingMessages::RequestManagedAccounts.wire_id() + 1,
        OutgoingMessages::ReplaceFA.wire_id()
            == OutgoingMessages::RequestFA.wire_id() + 1,
        OutgoingMessages::RequestHistoricalData.wire_id()
            == OutgoingMessages::ReplaceFA.wire_id() + 1,
        OutgoingMessages::ExerciseOptions.wire_id()
            == OutgoingMessages::RequestHistoricalData.wire_id() + 1,
        OutgoingMessages::RequestScannerSubscription.wire_id()
            == OutgoingMessages::ExerciseOptions.wire_id() + 1,
        OutgoingMessages::CancelScannerSubscription.wire_id()
            == OutgoingMessages::RequestScannerSubscription.wire_id() + 1,
        OutgoingMessages::RequestScannerParameters.wire_id()
            == OutgoingMessages::CancelScannerSubscription.wire_id() + 1,
        OutgoingMessages::CancelHistoricalData.wire_id()
            == OutgoingMessages::RequestScannerParameters.wire_id() + 1,
        OutgoingMessages::RequestCurrentTime.wire_id()
            == OutgoingMessages::CancelHistoricalData.wire_id() + 24,
        OutgoingMessages::RequestRealTimeBars.wire_id()
            == OutgoingMessages::RequestCurrentTime.wire_id() + 1,
        OutgoingMessages::CancelRealTimeBars.wire_id()
            == OutgoingMessages::RequestRealTimeBars.wire_id() + 1,
        OutgoingMessages::RequestFundamentalData.wire_id()
            == OutgoingMessages::CancelRealTimeBars.wire_id() + 1,
        OutgoingMessages::CancelFundamentalData.wire_id()
            == OutgoingMessages::RequestFundamentalData.wire_id() + 1,
        OutgoingMessages::ReqCalcImpliedVolat.wire_id()
            == OutgoingMessages::CancelFundamentalData.wire_id() + 1,
        OutgoingMessages::ReqCalcOptionPrice.wire_id()
            == OutgoingMessages::ReqCalcImpliedVolat.wire_id() + 1,
        OutgoingMessages::CancelImpliedVolatility.wire_id()
            == OutgoingMessages::ReqCalcOptionPrice.wire_id() + 1,
        OutgoingMessages::CancelOptionPrice.wire_id()
            == OutgoingMessages::CancelImpliedVolatility.wire_id() + 1,
        OutgoingMessages::RequestGlobalCancel.wire_id()
            == OutgoingMessages::CancelOptionPrice.wire_id() + 1,
        OutgoingMessages::RequestMarketDataType.wire_id()
            == OutgoingMessages::RequestGlobalCancel.wire_id() + 1,
        OutgoingMessages::RequestPositions.wire_id()
            == OutgoingMessages::RequestMarketDataType.wire_id() + 2,
        OutgoingMessages::RequestAccountSummary.wire_id()
            == OutgoingMessages::RequestPositions.wire_id() + 1,
        OutgoingMessages::CancelAccountSummary.wire_id()
            == OutgoingMessages::RequestAccountSummary.wire_id() + 1,
        OutgoingMessages::CancelPositions.wire_id()
            == OutgoingMessages::CancelAccountSummary.wire_id() + 1,
        OutgoingMessages::VerifyRequest.wire_id()
            == OutgoingMessages::CancelPositions.wire_id() + 1,
        OutgoingMessages::VerifyMessage.wire_id()
            == OutgoingMessages::VerifyRequest.wire_id() + 1,
        OutgoingMessages::QueryDisplayGroups.wire_id()
            == OutgoingMessages::VerifyMessage.wire_id() + 1,
        OutgoingMessages::SubscribeToGroupEvents.wire_id()
            == OutgoingMessages::QueryDisplayGroups.wire_id() + 1,
        OutgoingMessages::UpdateDisplayGroup.wire_id()
            == OutgoingMessages::SubscribeToGroupEvents.wire_id() + 1,
        OutgoingMessages::UnsubscribeFromGroupEvents.wire_id()
            == OutgoingMessages::UpdateDisplayGroup.wire_id() + 1,
        OutgoingMessages::StartApi.wire_id()
            == OutgoingMessages::UnsubscribeFromGroupEvents.wire_id() + 1,
        OutgoingMessages::VerifyAndAuthRequest.wire_id()
            == OutgoingMessages::StartApi.wire_id() + 1,
        OutgoingMessages::VerifyAndAuthMessage.wire_id()
            == OutgoingMessages::VerifyAndAuthRequest.wire_id() + 1,
        OutgoingMessages::RequestPositionsMulti.wire_id()
            == OutgoingMessages::VerifyAndAuthMessage.wire_id() + 1,
        OutgoingMessages::CancelPositionsMulti.wire_id()
            == OutgoingMessages::RequestPositionsMulti.wire_id() + 1,
        OutgoingMessages::RequestAccountUpdatesMulti.wire_id()
            == OutgoingMessages::CancelPositionsMulti.wire_id() + 1,
        OutgoingMessages::CancelAccountUpdatesMulti.wire_id()
            == OutgoingMessages::RequestAccountUpdatesMulti.wire_id() + 1,
        OutgoingMessages::RequestSecurityDefinitionOptionalParameters.wire_id()
            == OutgoingMessages::CancelAccountUpdatesMulti.wire_id() + 1,
        OutgoingMessages::RequestSoftDollarTiers.wire_id()
            == OutgoingMessages::RequestSecurityDefinitionOptionalParameters.wire_id() + 1,
        OutgoingMessages::RequestFamilyCodes.wire_id()
            == OutgoingMessages::RequestSoftDollarTiers.wire_id() + 1,
        OutgoingMessages::RequestMatchingSymbols.wire_id()
            == OutgoingMessages::RequestFamilyCodes.wire_id() + 1,
        OutgoingMessages::RequestMktDepthExchanges.wire_id()
            == OutgoingMessages::RequestMatchingSymbols.wire_id() + 1,
        OutgoingMessages::RequestSmartComponents.wire_id()
            == OutgoingMessages::RequestMktDepthExchanges.wire_id() + 1,
        OutgoingMessages::RequestNewsArticle.wire_id()
            == OutgoingMessages::RequestSmartComponents.wire_id() + 1,
        OutgoingMessages::RequestNewsProviders.wire_id()
            == OutgoingMessages::RequestNewsArticle.wire_id() + 1,
        OutgoingMessages::RequestHistoricalNews.wire_id()
            == OutgoingMessages::RequestNewsProviders.wire_id() + 1,
        OutgoingMessages::RequestHeadTimestamp.wire_id()
            == OutgoingMessages::RequestHistoricalNews.wire_id() + 1,
        OutgoingMessages::RequestHistogramData.wire_id()
            == OutgoingMessages::RequestHeadTimestamp.wire_id() + 1,
        OutgoingMessages::CancelHistogramData.wire_id()
            == OutgoingMessages::RequestHistogramData.wire_id() + 1,
        OutgoingMessages::CancelHeadTimestamp.wire_id()
            == OutgoingMessages::CancelHistogramData.wire_id() + 1,
        OutgoingMessages::RequestMarketRule.wire_id()
            == OutgoingMessages::CancelHeadTimestamp.wire_id() + 1,
        OutgoingMessages::RequestPnL.wire_id()
            == OutgoingMessages::RequestMarketRule.wire_id() + 1,
        OutgoingMessages::CancelPnL.wire_id()
            == OutgoingMessages::RequestPnL.wire_id() + 1,
        OutgoingMessages::RequestPnLSingle.wire_id()
            == OutgoingMessages::CancelPnL.wire_id() + 1,
        OutgoingMessages::CancelPnLSingle.wire_id()
            == OutgoingMessages::RequestPnLSingle.wire_id() + 1,
        OutgoingMessages::RequestHistoricalTicks.wire_id()
            == OutgoingMessages::CancelPnLSingle.wire_id() + 1,
        OutgoingMessages::RequestTickByTickData.wire_id()
            == OutgoingMessages::RequestHistoricalTicks.wire_id() + 1,
        OutgoingMessages::CancelTickByTickData.wire_id()
            == OutgoingMessages::RequestTickByTickData.wire_id() + 1,
        OutgoingMessages::RequestCompletedOrders.wire_id()
            == OutgoingMessages::CancelTickByTickData.wire_id() + 1,
        OutgoingMessages::RequestWshMetaData.wire_id()
            == OutgoingMessages::RequestCompletedOrders.wire_id() + 1,
        OutgoingMessages::CancelWshMetaData.wire_id()
            == OutgoingMessages::RequestWshMetaData.wire_id() + 1,
        OutgoingMessages::RequestWshEventData.wire_id()
            == OutgoingMessages::CancelWshMetaData.wire_id() + 1,
        OutgoingMessages::CancelWshEventData.wire_id()
            == OutgoingMessages::RequestWshEventData.wire_id() + 1,
        OutgoingMessages::RequestUserInfo.wire_id()
            == OutgoingMessages::CancelWshEventData.wire_id() + 1,
{
}

/// A number outside those of the messages names none, and so does one that
/// the protocol leaves out.
pub proof fn a_number_that_is_left_out_names_nothing(id: int)
    ensures
        message_with_id(id) is Some <==> 1 <= id <= 104 && !(25 < id < 49) && id != 60,
{
    if 1 <= id <= 104 && !(25 < id < 49) && id != 60 {
        a_number_in_use_names_a_message(id);
    } else {
        assert(forall|message: OutgoingMessages| #[trigger] message.wire_id() != id);
    }
}

proof fn a_number_in_use_names_a_message(id: int)
    requires
        1 <= id <= 104,
        !(25 < id < 49),
        id != 60,
    ensures
        exists|message: OutgoingMessages| #[trigger] message.wire_id() == id,
{
    assert(id == 1 ==> OutgoingMessages::RequestMarketData.wire_id() == id);
    assert(id == 2 ==> OutgoingMessages::CancelMarketData.wire_id() == id);
    assert(id == 3 ==> OutgoingMessages::PlaceOrder.wire_id() == id);
    assert(id == 4 ==> OutgoingMessages::CancelOrder.wire_id() == id);
    assert(id == 5 ==> OutgoingMessages::RequestOpenOrders.wire_id() == id);
    assert(id == 6 ==> OutgoingMessages::RequestAccountData.wire_id() == id);
    assert(id == 7 ==> OutgoingMessages::RequestExecutions.wire_id() == id);
    assert(id == 8 ==> OutgoingMessages::RequestIds.wire_id() == id);
    assert(id == 9 ==> OutgoingMessages::RequestContractData.wire_id() == id);
    assert(id == 10 ==> OutgoingMessages::RequestMarketDepth.wire_id() == id);
    assert(id == 11 ==> OutgoingMessages::CancelMarketDepth.wire_id() == id);
    assert(id == 12 ==> OutgoingMessages::RequestNewsBulletins.wire_id() == id);
    assert(id == 13 ==> OutgoingMessages::CancelNewsBulletin.wire_id() == id);
    assert(id == 14 ==> OutgoingMessages::ChangeServerLog.wire_id() == id);
    assert(id == 15 ==> OutgoingMessages::RequestAutoOpenOrders.wire_id() == id);
    assert(id == 16 ==> OutgoingMessages::RequestAllOpenOrders.wire_id() == id);
    assert(id == 17 ==> OutgoingMessages::RequestManagedAccounts.wire_id() == id);
    assert(id == 18 ==> OutgoingMessages::RequestFA.wire_id() == id);
    assert(id == 19 ==> OutgoingMessages::ReplaceFA.wire_id() == id);
    assert(id == 20 ==> OutgoingMessages::RequestHistoricalData.wire_id() == id);
    assert(id == 21 ==> OutgoingMessages::ExerciseOptions.wire_id() == id);
    assert(id == 22 ==> OutgoingMessages::RequestScannerSubscription.wire_id() == id);
    assert(id == 23 ==> OutgoingMessages::CancelScannerSubscription.wire_id() == id);
    assert(id == 24 ==> OutgoingMessages::RequestScannerParameters.wire_id() == id);
    assert(id == 25 ==> OutgoingMessages::CancelHistoricalData.wire_id() == id);
    assert(id == 49 ==> OutgoingMessages::RequestCurrentTime.wire_id() == id);
    assert(id == 50 ==> OutgoingMessages::RequestRealTimeBars.wire_id() == id);
    assert(id == 51 ==> OutgoingMessages::CancelRealTimeBars.wire_id() == id);
    assert(id == 52 ==> OutgoingMessages::RequestFundamentalData.wire_id() == id);
    assert(id == 53 ==> OutgoingMessages::CancelFundamentalData.wire_id() == id);
    assert(id == 54 ==> OutgoingMessages::ReqCalcImpliedVolat.wire_id() == id);
    assert(id == 55 ==> OutgoingMessages::ReqCalcOptionPrice.wire_id() == id);
    assert(id == 56 ==> OutgoingMessages::CancelImpliedVolatility.wire_id() == id);
    assert(id == 57 ==> OutgoingMessages::CancelOptionPrice.wire_id() == id);
    assert(id == 58 ==> OutgoingMessages::RequestGlobalCancel.wire_id() == id);
    assert(id == 59 ==> OutgoingMessages::RequestMarketDataType.wire_id() == id);
    assert(id == 61 ==> OutgoingMessages::RequestPositions.wire_id() == id);
    assert(id == 62 ==> OutgoingMessages::RequestAccountSummary.wire_id() == id);
    assert(id == 63 ==> OutgoingMessages::CancelAccountSummary.wire_id() == id);
    assert(id == 64 ==> OutgoingMessages::CancelPositions.wire_id() == id);
    assert(id == 65 ==> OutgoingMessages::VerifyRequest.wire_id() == id);
    assert(id == 66 ==> OutgoingMessages::VerifyMessage.wire_id() == id);
    assert(id == 67 ==> OutgoingMessages::QueryDisplayGroups.wire_id() == id);
    assert(id == 68 ==> OutgoingMessages::SubscribeToGroupEvents.wire_id() == id);
    assert(id == 69 ==> OutgoingMessages::UpdateDisplayGroup.wire_id() == id);
    assert(id == 70 ==> OutgoingMessages::UnsubscribeFromGroupEvents.wire_id() == id);
    assert(id == 71 ==> OutgoingMessages::StartApi.wire_id() == id);
    assert(id == 72 ==> OutgoingMessages::VerifyAndAuthRequest.wire_id() == id);
    assert(id == 73 ==> OutgoingMessages::VerifyAndAuthMessage.wire_id() == id);
    assert(id == 74 ==> OutgoingMessages::RequestPositionsMulti.wire_id() == id);
    assert(id == 75 ==> OutgoingMessages::CancelPositionsMulti.wire_id() == id);
    assert(id == 76 ==> OutgoingMessages::RequestAccountUpdatesMulti.wire_id() == id);
    assert(id == 77 ==> OutgoingMessages::CancelAccountUpdatesMulti.wire_id() == id);
    assert(id == 78 ==> OutgoingMessages::RequestSecurityDefinitionOptionalParameters.wire_id() == id);
    assert(id == 79 ==> OutgoingMessages::RequestSoftDollarTiers.wire_id() == id);
    assert(id == 80 ==> OutgoingMessages::RequestFamilyCodes.wire_id() == id);
    assert(id == 81 ==> OutgoingMessages::RequestMatchingSymbols.wire_id() == id);
    assert(id == 82 ==> OutgoingMessages::RequestMktDepthExchanges.wire_id() == id);
    assert(id == 83 ==> OutgoingMessages::RequestSmartComponents.wire_id() == id);
    assert(id == 84 ==> OutgoingMessages::RequestNewsArticle.wire_id() == id);
    assert(id == 85 ==> OutgoingMessages::RequestNewsProviders.wire_id() == id);
    assert(id == 86 ==> OutgoingMessages::RequestHistoricalNews.wire_id() == id);
    assert(id == 87 ==> OutgoingMessages::RequestHeadTimestamp.wire_id() == id);
    assert(id == 88 ==> OutgoingMessages::RequestHistogramData.wire_id() == id);
    assert(id == 89 ==> OutgoingMessages::CancelHistogramData.wire_id() == id);
    assert(id == 90 ==> OutgoingMessages::CancelHeadTimestamp.wire_id() == id);
    assert(id == 91 ==> OutgoingMessages::RequestMarketRule.wire_id() == id);
    assert(id == 92 ==> OutgoingMessages::RequestPnL.wire_id() == id);
    assert(id == 93 ==> OutgoingMessages::CancelPnL.wire_id() == id);
    assert(id == 94 ==> OutgoingMessages::RequestPnLSingle.wire_id() == id);
    assert(id == 95 ==> OutgoingMessages::CancelPnLSingle.wire_id() == id);
    assert(id == 96 ==> OutgoingMessages::RequestHistoricalTicks.wire_id() == id);
    assert(id == 97 ==> OutgoingMessages::RequestTickByTickData.wire_id() == id);
    assert(id == 98 ==> OutgoingMessages::CancelTickByTickData.wire_id() == id);
    assert(id == 99 ==> OutgoingMessages::RequestCompletedOrders.wire_id() == id);
    assert(id == 100 ==> OutgoingMessages::RequestWshMetaData.wire_id() == id);
    assert(id == 101 ==> OutgoingMessages::CancelWshMetaData.wire_id() == id);
    assert(id == 102 ==> OutgoingMessages::RequestWshEventData.wire_id() == id);
    assert(id == 103 ==> OutgoingMessages::CancelWshEventData.wire_id() == id);
    assert(id == 104 ==> OutgoingMessages::RequestUserInfo.wire_id() == id);
}

/// The body of a protobuf message is its request behind four bytes that spell
/// the message's id plus two hundred, the most significant first.
pub proof fn a_protobuf_body_is_its_request_behind_its_id(message_id: int, request: Seq<u8>)
    requires
        0 <= message_id <= u32::MAX - 200,
    ensures
        ({
            let body = protobuf_body(message_id, request);
            &&& body.len() == 4 + request.len()
            &&& body.skip(4) == request
            &&& ((body[0] * 256 + body[1]) * 256 + body[2]) * 256 + body[3] == message_id + 200
        }),
{
    let prefix = be_bytes(message_id + PROTOBUF_MSG_ID);
    a_number_is_written_byte_by_byte(message_id + PROTOBUF_MSG_ID);
    let body = protobuf_body(message_id, request);
    assert(body[0] == prefix[0] && body[1] == prefix[1]);
    assert(body[2] == prefix[2] && body[3] == prefix[3]);
    assert(body.skip(4) == request);
}

/// Whatever [`OutgoingMessages::from_id`] returns for an id is the one message
/// for which [`OutgoingMessages::id`] returns it, or nothing where there is
/// none; and no other message has that id.
pub proof fn from_id_returns_the_message_with_the_id(
    id: i32,
    message: Option<OutgoingMessages>,
    other: OutgoingMessages,
    other_id: i32,
)
    requires
        call_ensures(OutgoingMessages::from_id, (id,), message),
        call_ensures(OutgoingMessages::id, (other,), other_id),
    ensures
        message == Some(other) <==> other_id == id,
        message is Some <==> 1 <= id <= 104 && !(25 < id < 49) && id != 60,
        1 <= other_id <= 104,
{
    an_id_names_one_message(other);
    a_named_message_has_the_id(id as int);
    a_number_that_is_left_out_names_nothing(id as int);
    a_number_that_is_left_out_names_nothing(other.wire_id());
}

/// Whatever [`encode_protobuf_message`] returns is the request behind the id
/// plus two hundred.
pub proof fn encoding_puts_the_id_before_the_request(
    message_id: i32,
    request: &[u8],
    body: Vec<u8>,
)
    requires
        0 <= message_id <= i32::MAX - 200,
        call_ensures(encode_protobuf_message, (message_id, request), body),
    ensures
        body@.len() == 4 + request@.len(),
        body@.skip(4) == request@,
        ((body@[0] * 256 + body@[1]) * 256 + body@[2]) * 256 + body@[3] == message_id + 200,
{
    a_protobuf_body_is_its_request_behind_its_id(message_id as int, request@);
}

} // verus!
