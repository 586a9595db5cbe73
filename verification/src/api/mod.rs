//! The endpoints of the API: info, exchange and websocket subscriptions.
pub mod request_util;

pub mod subscription;
pub mod info;
pub mod exchange;
pub mod response;
