//! Statuses returned by the exchange for placed and canceled orders.
use vstd::prelude::*;
use crate::utils::str_eq;

verus! {

#[derive(Debug, Clone, Copy, PartialEq, Eq, Structural)]
pub struct RestingOrder {
    pub oid: u64,
}

/// The status of a placed order: resting with an order id, or an error.
#[derive(Debug, Clone)]
pub enum OrderStatus {
    Resting { resting: RestingOrder },
    Error { error: String },
}

impl OrderStatus {
    pub fn is_resting(&self) -> (b: bool)
        ensures
            b == (self is Resting),
    {
        match self {
            OrderStatus::Resting { .. } => true,
            OrderStatus::Error { .. } => false,
        }
    }

    pub fn oid(&self) -> (o: Option<u64>)
        ensures
            match self {
                OrderStatus::Resting { resting } => o == Some(resting.oid),
                OrderStatus::Error { .. } => o is None,
            },
    {
        match self {
            OrderStatus::Resting { resting } => Some(resting.oid),
            OrderStatus::Error { .. } => None,
        }
    }

    pub fn error_message(&self) -> (m: Option<&str>)
        ensures
            match self {
                OrderStatus::Error { error } => m matches Some(s) && s@ == error@,
                OrderStatus::Resting { .. } => m is None,
            },
    {
        match self {
            OrderStatus::Error { error } => Some(error.as_str()),
            OrderStatus::Resting { .. } => None,
        }
    }
}

/// The status of a cancellation: a success string or an error.
#[derive(Debug, Clone)]
pub enum CancelStatus {
    Success(String),
    Error { error: String },
}

impl CancelStatus {
    /// Whether the cancellation reported exactly `"success"`.
    pub fn is_success(&self) -> (b: bool)
        ensures
            b == (self matches CancelStatus::Success(s) && s@ == "success"@),
    {
        match self {
            CancelStatus::Success(s) => str_eq(s.as_str(), "success"),
            CancelStatus::Error { .. } => false,
        }
    }

    pub fn error_message(&self) -> (m: Option<&str>)
        ensures
            match self {
                CancelStatus::Error { error } => m matches Some(s) && s@ == error@,
                CancelStatus::Success(_) => m is None,
            },
    {
        match self {
            CancelStatus::Error { error } => Some(error.as_str()),
            CancelStatus::Success(_) => None,
        }
    }
}

#[derive(Debug, Clone, Copy, PartialEq, Eq, Structural)]
pub struct RunningTwap {
    pub twap_id: u64,
}

/// The status of a placed TWAP order: running with a TWAP id, or an error.
#[derive(Debug, Clone)]
pub enum TwapOrderStatus {
    Running { running: RunningTwap },
    Error { error: String },
}

impl TwapOrderStatus {
    pub fn is_running(&self) -> (b: bool)
        ensures
            b == (self is Running),
    {
        match self {
            TwapOrderStatus::Running { .. } => true,
            TwapOrderStatus::Error { .. } => false,
        }
    }

    pub fn twap_id(&self) -> (id: Option<u64>)
        ensures
            match self {
                TwapOrderStatus::Running { running } => id == Some(running.twap_id),
                TwapOrderStatus::Error { .. } => id is None,
            },
    {
        match self {
            TwapOrderStatus::Running { running } => Some(running.twap_id),
            TwapOrderStatus::Error { .. } => None,
        }
    }

    pub fn error_message(&self) -> (m: Option<&str>)
        ensures
            match self {
                TwapOrderStatus::Error { error } => m matches Some(s) && s@ == error@,
                TwapOrderStatus::Running { .. } => m is None,
            },
    {
        match self {
            TwapOrderStatus::Error { error } => Some(error.as_str()),
            TwapOrderStatus::Running { .. } => None,
        }
    }
}

/// The status of a TWAP cancellation: a success string or an error.
#[derive(Debug, Clone)]
pub enum TwapCancelStatus {
    Success(String),
    Error { error: String },
}

impl TwapCancelStatus {
    /// Whether the cancellation reported exactly `"success"`.
    pub fn is_success(&self) -> (b: bool)
        ensures
            b == (self matches TwapCancelStatus::Success(s) && s@ == "success"@),
    {
        match self {
            TwapCancelStatus::Success(s) => str_eq(s.as_str(), "success"),
            TwapCancelStatus::Error { .. } => false,
        }
    }

    pub fn error_message(&self) -> (m: Option<&str>)
        ensures
            match self {
                TwapCancelStatus::Error { error } => m matches Some(s) && s@ == error@,
                TwapCancelStatus::Success(_) => m is None,
            },
    {
        match self {
            TwapCancelStatus::Error { error } => Some(error.as_str()),
            TwapCancelStatus::Success(_) => None,
        }
    }
}

} // verus!
