//! Paying for a reservation with a one-time code.

use vstd::prelude::*;

verus! {

/// A request to pay with a one-time code.
#[derive(Clone, Debug, PartialEq, Eq)]
pub struct BlikPaymentRequest {
    pub balance_usage_requested: bool,
    pub blik_code: String,
}

impl BlikPaymentRequest {
    pub fn new(blik_code: String, balance_usage_requested: bool) -> (request: Self)
        ensures
            request.blik_code == blik_code,
            request.balance_usage_requested == balance_usage_requested,
    {
        Self { blik_code, balance_usage_requested }
    }
}

/// What the service answers to a payment.
#[derive(Clone, Debug, PartialEq, Eq)]
pub struct BlikPaymentResponse {
    pub reservation_id: String,
    pub payment_id: String,
    pub bill_id: String,
    /// Known values: ACCEPTED
    pub payment_status: String,
    /// Value in grosz (0,01 PLN)
    pub paid_amount: i32,
}

} // verus!
