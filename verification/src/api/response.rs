//! Responses of the exchange endpoint.
use vstd::prelude::*;
use crate::types::exchange::base::{CancelStatus, OrderStatus, TwapCancelStatus, TwapOrderStatus};

verus! {

/// General response of a request: a status and the inner response.
#[derive(Debug, Clone)]
pub struct Response<T> {
    pub status: String,
    pub response: ResponseInner<T>,
}

/// The inner response: the body of a successful request, or an error message.
#[derive(Debug, Clone)]
pub enum ResponseInner<T> {
    Error(String),
    Success(T),
}

/// The body of a successful response.
#[derive(Debug, Clone)]
pub struct ResponseBody<T> {
    pub type_: String,
    pub data: T,
}

/// Response data of placing orders.
#[derive(Debug, Clone)]
pub struct OrderResponseData {
    pub statuses: Vec<OrderStatus>,
}

/// Response data of cancelling orders.
#[derive(Debug, Clone)]
pub struct CancelResponseData {
    pub statuses: Vec<CancelStatus>,
}

/// Response data of placing a TWAP order.
#[derive(Debug, Clone)]
pub struct TwapOrderResponseData {
    pub status: TwapOrderStatus,
}

/// Response data of cancelling a TWAP order.
#[derive(Debug, Clone)]
pub struct TwapCancelResponseData {
    pub status: TwapCancelStatus,
}

/// The body of responses that carry no data: `{"type": "default"}`.
#[derive(Debug, Clone)]
pub struct DefaultResponseBody {
    pub type_: String,
}

pub type OrderResponse = Response<ResponseBody<OrderResponseData>>;

pub type CancelResponse = Response<ResponseBody<CancelResponseData>>;

pub type CancelByCloidResponse = CancelResponse;

pub type ModifyResponse = OrderResponse;

pub type BatchModifyResponse = OrderResponse;

pub type TwapOrderResponse = Response<ResponseBody<TwapOrderResponseData>>;

pub type TwapCancelResponse = Response<ResponseBody<TwapCancelResponseData>>;

pub type DefaultResponse = Response<DefaultResponseBody>;

pub type ScheduleCancelResponse = DefaultResponse;

pub type UpdateLeverageResponse = DefaultResponse;

pub type UpdateIsolatedMarginResponse = DefaultResponse;

pub type UsdSendResponse = DefaultResponse;

pub type SpotSendResponse = DefaultResponse;

pub type WithdrawResponse = DefaultResponse;

pub type UsdClassTransferResponse = DefaultResponse;

pub type SendAssetResponse = DefaultResponse;

pub type CDepositResponse = DefaultResponse;

pub type CWithdrawResponse = DefaultResponse;

pub type TokenDelegateResponse = DefaultResponse;

pub type VaultTransferResponse = DefaultResponse;

pub type ApproveAgentResponse = DefaultResponse;

pub type ApproveBuilderFeeResponse = DefaultResponse;

pub type ReserveRequestWeightResponse = DefaultResponse;

pub type NoopResponse = DefaultResponse;

pub type UserDexAbstractionResponse = DefaultResponse;

pub type AgentEnableDexAbstractionResponse = DefaultResponse;

pub type ValidatorL1StreamResponse = DefaultResponse;

} // verus!
