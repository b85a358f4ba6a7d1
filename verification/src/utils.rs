//! Searches over an exam schedule.

use vstd::prelude::*;
use crate::types::exam_schedule::{days_practice_exams, hours_practice_exams, Exam, ExamSchedule};

verus! {

/// The exams that `refs` points at, in order.
pub open spec fn pointees(refs: Seq<&Exam>) -> Seq<Exam> {
    refs.map_values(|e: &Exam| *e)
}

/// Every practice exam of the schedule, in schedule order.
pub fn find_all_practice_exams(schedule: &ExamSchedule) -> (all: Vec<&Exam>)
    ensures
        pointees(all@) == schedule.practice_exams(),
{
    let mut all: Vec<&Exam> = Vec::new();
    let days = &schedule.schedule.scheduled_days;
    let mut d: usize = 0;
    while d < days.len()
        invariant
            d <= days.len(),
            pointees(all@) == days_practice_exams(days@.take(d as int)),
        decreases days.len() - d,
    {
        let hours = &days[d].scheduled_hours;
        let ghost before = pointees(all@);
        let mut h: usize = 0;
        while h < hours.len()
            invariant
                h <= hours.len(),
                pointees(all@) == before + hours_practice_exams(hours@.take(h as int)),
            decreases hours.len() - h,
        {
            let exams = &hours[h].practice_exams;
            let ghost start = pointees(all@);
            let mut e: usize = 0;
            while e < exams.len()
                invariant
                    e <= exams.len(),
                    pointees(all@) == start + exams@.take(e as int),
                decreases exams.len() - e,
            {
                let ghost seen = all@;
                all.push(&exams[e]);
                e += 1;
                assert(pointees(all@) =~= pointees(seen).push(exams@[e - 1]));
                assert(exams@.take(e as int) =~= exams@.take(e - 1).push(exams@[e - 1]));
                assert(pointees(all@) =~= start + exams@.take(e as int));
            }
            assert(exams@.take(e as int) == exams@);
            assert(hours@.take(h + 1).drop_last() == hours@.take(h as int));
            h += 1;
        }
        assert(hours@.take(h as int) == hours@);
        assert(days@.take(d + 1).drop_last() == days@.take(d as int));
        d += 1;
    }
    assert(days@.take(d as int) == days@);
    all
}

/// The first `number` practice exams of the schedule in schedule order, or
/// all of them where it holds fewer; `None` where that list is empty.
pub fn find_n_practice_exams(schedule: ExamSchedule, number: usize) -> (found: Option<Vec<Exam>>)
    ensures
        found is None <==> number == 0 || schedule.practice_exams().len() == 0,
        found matches Some(exams) ==> exams@ == schedule.practice_exams().take(
            if number <= schedule.practice_exams().len() {
                number as int
            } else {
                schedule.practice_exams().len() as int
            },
        ),
{
    let all = find_all_practice_exams(&schedule);
    let ghost flat = schedule.practice_exams();
    assert(all@.len() == flat.len());
    let mut exams: Vec<Exam> = Vec::new();
    let mut i: usize = 0;
    while i < all.len() && i < number
        invariant
            i <= all.len(),
            i <= number,
            pointees(all@) == flat,
            exams@ == flat.take(i as int),
        decreases all.len() - i,
    {
        let exam: &Exam = all[i];
        assert(*exam == pointees(all@)[i as int]);
        exams.push(exam.clone());
        i += 1;
        assert(exams@ == flat.take(i as int));
    }
    if exams.len() == 0 {
        None
    } else {
        Some(exams)
    }
}

} // verus!
