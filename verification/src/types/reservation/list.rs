//! The reservations of an account.

use vstd::prelude::*;
use crate::types::license_category::LicenseCategory;
use crate::types::reservation::status::Status;
use crate::types::theory_or_practice_exam::TheoryOrPracticeExam;
use crate::types::unit_id::UnitId;

verus! {

#[derive(Clone, Debug, PartialEq, Eq)]
pub struct ReservationExam {
    pub organization_unit_id: UnitId,
    pub organization_unit_name: String,
    pub theory: Option<TheoryOrPracticeExam>,
    pub practice: Option<TheoryOrPracticeExam>,
    pub category: LicenseCategory,
    pub address: String,
}

#[derive(Clone, Debug, PartialEq, Eq)]
pub struct Candidate {
    pub firstname: String,
    pub lastname: String,
}

#[derive(Clone, Debug)]
pub struct ReservationListItem {
    pub awaiting_reschedule: bool,
    pub status: Status,
    pub exam: ReservationExam,
    pub candidate: Candidate,
    pub id: String,
}

#[derive(Clone, Debug)]
pub struct ReservationList {
    pub items: Vec<ReservationListItem>,
    pub count: i32,
    pub total_pages: i32,
    pub total_count: i32,
}

} // verus!
