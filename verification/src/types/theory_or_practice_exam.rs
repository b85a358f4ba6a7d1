//! The exam that a reservation is for.

use vstd::prelude::*;

verus! {

/// The theory or the practice part of a reserved exam.
#[derive(Clone, Debug, PartialEq, Eq)]
pub struct TheoryOrPracticeExam {
    pub exam_id: String,
    pub date: String,
    pub additional_info: Option<String>,
    pub room: Option<String>,
}

} // verus!
