//! The state of one reservation.

use vstd::prelude::*;
use crate::types::license_category::LicenseCategory;
use crate::types::theory_or_practice_exam::TheoryOrPracticeExam;
use crate::types::unit_id::UnitId;

verus! {

#[derive(Clone, Debug, PartialEq, Eq)]
pub struct Status {
    pub status: PossibleStatuses,
    pub timestamp: String,
    pub message: Option<String>,
}

/// The states that a reservation goes through.
#[derive(Clone, Copy, Debug, PartialEq, Eq, Structural)]
pub enum PossibleStatuses {
    Created,
    Draft,
    PaymentRejected,
    PlaceReserved,
    SignupConfirmed,
    CancellationRequest,
    Cancelled,
    Unknown,
}

impl PossibleStatuses {
    /// The state in words.
    pub open spec fn label(self) -> Seq<char> {
        match self {
            PossibleStatuses::Created => "Created"@,
            PossibleStatuses::Draft => "Draft"@,
            PossibleStatuses::PaymentRejected => "Payment Rejected"@,
            PossibleStatuses::PlaceReserved => "Place Reserved"@,
            PossibleStatuses::SignupConfirmed => "Signup Confirmed"@,
            PossibleStatuses::CancellationRequest => "Cancellation Request"@,
            PossibleStatuses::Cancelled => "Cancelled"@,
            PossibleStatuses::Unknown => "Unknown"@,
        }
    }

    /// The state in words, as a static string.
    pub fn as_str(&self) -> (label: &'static str)
        ensures
            label@ == self.label(),
    {
        match self {
            PossibleStatuses::Created => "Created",
            PossibleStatuses::Draft => "Draft",
            PossibleStatuses::PaymentRejected => "Payment Rejected",
            PossibleStatuses::PlaceReserved => "Place Reserved",
            PossibleStatuses::SignupConfirmed => "Signup Confirmed",
            PossibleStatuses::CancellationRequest => "Cancellation Request",
            PossibleStatuses::Cancelled => "Cancelled",
            PossibleStatuses::Unknown => "Unknown",
        }
    }

    /// The state in words, as an owned string.
    pub fn to_string(&self) -> (label: String)
        ensures
            label@ == self.label(),
    {
        self.as_str().to_owned()
    }
}

#[derive(Clone, Debug, PartialEq, Eq)]
pub struct ReservationStatus {
    pub id: String,
    pub user_id: String,
    pub word_reservation_id: String,
    pub status: Status,
    pub updated_at: String,
    pub candidate: ReservationCandidate,
    pub exam: DetailedReservationExam,
    pub is_reminder_sent: Option<String>,
    pub is_first_reminder_sent: Option<String>,
    pub invoice: Option<ReservationInvoice>,
    pub cancellation_message: Option<String>,
    pub active_payment: Option<String>,
    pub awaiting_reschedule: bool,
}

#[derive(Clone, Debug, PartialEq, Eq)]
pub struct ReservationCandidate {
    pub firstname: String,
    pub lastname: String,
    pub email: String,
    pub phone_number: String,
    pub birth_date: Option<String>,
    pub pesel: String,
    pub language: String,
    pub pkk: String,
}

#[derive(Clone, Debug, PartialEq, Eq)]
pub struct DetailedReservationExam {
    pub organization_unit_id: UnitId,
    pub organization_unit_name: String,
    pub latitude: String,
    pub longitude: String,
    pub address: String,
    pub province: String,
    pub confirming_operator: Option<String>,
    pub confirmation_record_number: Option<String>,
    pub category: LicenseCategory,
    pub theory: Option<TheoryOrPracticeExam>,
    pub pracitce: Option<TheoryOrPracticeExam>,
    pub osk_vehicle_number: Option<String>,
    pub sign_language: String,
    pub exam_date: String,
    pub start_date: String,
}

#[derive(Clone, Debug, PartialEq, Eq)]
pub struct ReservationInvoice {
    pub account_balance: u32,
    pub exam_price: u32,
    pub surcharge: u32,
    pub provision: u32,
}

} // verus!
