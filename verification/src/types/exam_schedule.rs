//! The schedule of exams that a centre offers.

use vstd::prelude::*;
use vstd::std_specs::convert::FromSpecImpl;
use crate::types::license_category::LicenseCategory;
use crate::types::unit_id::UnitId;

verus! {

/// One exam slot. Its identity is its `id`.
#[derive(Debug, PartialEq, Eq)]
pub struct Exam {
    /// Exam id
    pub id: String,
    /// Number of free places for the exam
    pub places: i32,
    /// Date of the exam
    pub date: String,
    /// Exam price
    pub amount: i32,
    pub additional_info: String,
}

impl Clone for Exam {
    fn clone(&self) -> (copy: Self)
        ensures
            copy == *self,
    {
        Exam {
            id: self.id.clone(),
            places: self.places,
            date: self.date.clone(),
            amount: self.amount,
            additional_info: self.additional_info.clone(),
        }
    }
}

/// The exams that start at one time of a day.
#[derive(Clone, Debug, PartialEq, Eq)]
pub struct Hour {
    pub time: String,
    pub theory_exams: Vec<Exam>,
    pub practice_exams: Vec<Exam>,
    pub linked_exams_dto: Vec<Exam>,
}

/// The hours of one day on which exams are held.
#[derive(Clone, Debug, PartialEq, Eq)]
pub struct Day {
    pub day: String,
    pub scheduled_hours: Vec<Hour>,
}

/// The days on which exams are held, in calendar order.
#[derive(Clone, Debug, PartialEq, Eq)]
pub struct Schedule {
    pub scheduled_days: Vec<Day>,
}

/// What a centre answers when asked for its exams in a window of time.
#[derive(Clone, Debug, PartialEq, Eq)]
pub struct ExamSchedule {
    /// Exam centre id
    pub organization_id: UnitId,
    /// Can one reserve his own vehicle
    pub is_osk_vehicle_reservation_enabled: bool,
    /// Is it possible to reschedule
    pub is_reschedule_reservation: bool,
    /// Driving license category
    pub category: LicenseCategory,
    pub schedule: Schedule,
}

/// The practice exams of `hours`, hour after hour, each hour's in list order.
pub open spec fn hours_practice_exams(hours: Seq<Hour>) -> Seq<Exam>
    decreases hours.len(),
{
    if hours.len() == 0 {
        Seq::empty()
    } else {
        hours_practice_exams(hours.drop_last()) + hours.last().practice_exams@
    }
}

/// The practice exams of `days`, day after day, each day's in hour order.
pub open spec fn days_practice_exams(days: Seq<Day>) -> Seq<Exam>
    decreases days.len(),
{
    if days.len() == 0 {
        Seq::empty()
    } else {
        days_practice_exams(days.drop_last()) + hours_practice_exams(
            days.last().scheduled_hours@,
        )
    }
}

impl ExamSchedule {
    /// Every practice exam of the schedule in schedule order: by day, then
    /// by hour, then by place in the hour's list.
    pub open spec fn practice_exams(&self) -> Seq<Exam> {
        days_practice_exams(self.schedule.scheduled_days@)
    }
}

/// A list of exams that can be written out line by line.
#[derive(Debug)]
pub struct ExamList(pub Vec<Exam>);

impl FromSpecImpl<Vec<Exam>> for ExamList {
    open spec fn obeys_from_spec() -> bool {
        true
    }

    open spec fn from_spec(value: Vec<Exam>) -> Self {
        ExamList(value)
    }
}

impl From<Vec<Exam>> for ExamList {
    fn from(value: Vec<Exam>) -> (list: Self)
        ensures
            list.0 == value,
    {
        Self(value)
    }
}

/// The lines of `exams`: for each its identity in brackets and its date.
pub open spec fn exam_list_lines(exams: Seq<Exam>) -> Seq<char>
    decreases exams.len(),
{
    if exams.len() == 0 {
        Seq::empty()
    } else {
        exam_list_lines(exams.drop_last()) + "Exam ("@ + exams.last().id@ + "): "@
            + exams.last().date@ + "\n"@
    }
}

impl ExamList {
    /// The list written out, a line for each exam.
    pub fn to_string(&self) -> (text: String)
        ensures
            text@ == exam_list_lines(self.0@),
    {
        let mut text = String::new();
        let mut i: usize = 0;
        while i < self.0.len()
            invariant
                i <= self.0.len(),
                text@ == exam_list_lines(self.0@.take(i as int)),
            decreases self.0.len() - i,
        {
            let exam = &self.0[i];
            text.append("Exam (");
            text.append(exam.id.as_str());
            text.append("): ");
            text.append(exam.date.as_str());
            text.append("\n");
            proof {
                assert(self.0@.take(i + 1).drop_last() == self.0@.take(i as int));
                assert(self.0@.take(i + 1).last() == *exam);
            }
            i += 1;
        }
        assert(self.0@.take(i as int) == self.0@);
        text
    }
}

} // verus!
