//! What the service says: the texts that answer a command, and the text
//! that tells of a new exam.

use vstd::prelude::*;
use crate::text::{i64_to_decimal, signed_decimal_text};
use crate::time::{
    days_until, div_to_zero, readable_date, readable_date_from_string, readable_time_delta,
    time_delta_text, warsaw_seconds, SECS_PER_DAY,
};
use crate::types::exam_schedule::Exam;
use crate::types::reservation::list::{ReservationList, ReservationListItem};
use crate::types::reservation::status::ReservationStatus;

verus! {

/// The lines of `lines` one after another; `None` where one is missing.
pub open spec fn all_lines(lines: Seq<Option<Seq<char>>>) -> Option<Seq<char>>
    decreases lines.len(),
{
    if lines.len() == 0 {
        Some(Seq::empty())
    } else {
        match (all_lines(lines.drop_last()), lines.last()) {
            (Some(before), Some(line)) => Some(before + line),
            _ => None,
        }
    }
}

proof fn lemma_missing_line(lines: Seq<Option<Seq<char>>>, i: int)
    requires
        0 <= i < lines.len(),
        lines[i] is None,
    ensures
        all_lines(lines) is None,
    decreases lines.len(),
{
    if i < lines.len() - 1 {
        lemma_missing_line(lines.drop_last(), i);
    }
}

/// A date of the schedule as it is shown: written for a reader where it is
/// a date, else as it stands.
pub open spec fn shown_date(date: Seq<char>) -> Seq<char> {
    match readable_date(date) {
        Some(written) => written,
        None => date,
    }
}

/// The whole days from `now` to the date `date`, where it names a point in time.
pub open spec fn days_to(date: Seq<char>, now: int) -> Option<int> {
    match warsaw_seconds(date) {
        Some(at) => Some(div_to_zero(at - now, SECS_PER_DAY as int)),
        None => None,
    }
}

/// The line that lists one exam: its identity, its date, and the days until
/// it; `None` where its date names no point in time.
pub open spec fn exam_line(exam: Exam, now: int) -> Option<Seq<char>> {
    match days_to(exam.date@, now) {
        Some(days) => Some(
            "Exam (<code>"@ + exam.id@ + "</code>): "@ + shown_date(exam.date@) + " (in <b>"@
                + signed_decimal_text(days) + "</b> days)\n"@,
        ),
        None => None,
    }
}

/// The answer that lists `exams`; `None` where the date of one names no
/// point in time.
pub open spec fn exams_text(exams: Seq<Exam>, now: int) -> Option<Seq<char>> {
    match all_lines(exams.map_values(|e: Exam| exam_line(e, now))) {
        Some(lines) => Some("The available exams are:\n"@ + lines),
        None => None,
    }
}

/// Writes the line that lists one exam.
pub fn exam_message_line(exam: &Exam, now: i64) -> (line: Option<String>)
    ensures
        match exam_line(*exam, now as int) {
            Some(text) => line matches Some(l) && l@ == text,
            None => line is None,
        },
{
    let days = match days_until(exam.date.as_str(), now) {
        Some(days) => days,
        None => {
            return None;
        },
    };
    let mut line = "Exam (<code>".to_owned();
    line.append(exam.id.as_str());
    line.append("</code>): ");
    line.append(readable_date_from_string(exam.date.clone()).as_str());
    line.append(" (in <b>");
    line.append(i64_to_decimal(days).as_str());
    line.append("</b> days)\n");
    Some(line)
}

/// Writes the answer that lists `exams`.
pub fn exams_message(exams: &Vec<Exam>, now: i64) -> (answer: Option<String>)
    ensures
        match exams_text(exams@, now as int) {
            Some(text) => answer matches Some(a) && a@ == text,
            None => answer is None,
        },
{
    let ghost lines = exams@.map_values(|e: Exam| exam_line(e, now as int));
    let mut answer = "The available exams are:\n".to_owned();
    let mut i: usize = 0;
    while i < exams.len()
        invariant
            i <= exams.len(),
            lines == exams@.map_values(|e: Exam| exam_line(e, now as int)),
            all_lines(lines.take(i as int)) matches Some(written) && answer@
                == "The available exams are:\n"@ + written,
        decreases exams.len() - i,
    {
        match exam_message_line(&exams[i], now) {
            Some(line) => {
                answer.append(line.as_str());
                proof {
                    assert(lines.take(i + 1).drop_last() == lines.take(i as int));
                    assert(lines.take(i + 1).last() == Some(line@));
                }
            },
            None => {
                proof {
                    assert(lines[i as int] == exam_line(exams@[i as int], now as int));
                    lemma_missing_line(lines, i as int);
                }
                return None;
            },
        }
        i += 1;
    }
    assert(lines.take(i as int) == lines);
    Some(answer)
}

/// The date of the exam that a reservation is for: that of the practice
/// part, or of the theory part where there is no practice part.
pub open spec fn reserved_date(item: ReservationListItem) -> Option<Seq<char>> {
    match (item.exam.practice, item.exam.theory) {
        (Some(practice), _) => Some(practice.date@),
        (None, Some(theory)) => Some(theory.date@),
        (None, None) => None,
    }
}

/// The lines that list one reservation: its date, its centre and its state;
/// `None` where it is for no exam.
pub open spec fn reservation_line(item: ReservationListItem) -> Option<Seq<char>> {
    match reserved_date(item) {
        Some(date) => Some(
            "\u{2022} At "@ + date + " in "@ + item.exam.organization_unit_name@ + " ("@
                + item.status.status.label() + ")\n\n"@,
        ),
        None => None,
    }
}

/// The answer that lists the reservations; `None` where one is for no exam.
pub open spec fn reservations_text(items: Seq<ReservationListItem>) -> Option<Seq<char>> {
    all_lines(items.map_values(|item: ReservationListItem| reservation_line(item)))
}

/// Writes the lines that list one reservation.
pub fn reservation_message_line(item: &ReservationListItem) -> (line: Option<String>)
    ensures
        match reservation_line(*item) {
            Some(text) => line matches Some(l) && l@ == text,
            None => line is None,
        },
{
    let date = match (&item.exam.practice, &item.exam.theory) {
        (Some(practice), _) => &practice.date,
        (None, Some(theory)) => &theory.date,
        (None, None) => {
            return None;
        },
    };
    let mut line = "\u{2022} At ".to_owned();
    line.append(date.as_str());
    line.append(" in ");
    line.append(item.exam.organization_unit_name.as_str());
    line.append(" (");
    line.append(item.status.status.as_str());
    line.append(")\n\n");
    Some(line)
}

/// Writes the answer that lists the reservations.
pub fn reservations_message(reservations: &ReservationList) -> (answer: Option<String>)
    ensures
        match reservations_text(reservations.items@) {
            Some(text) => answer matches Some(a) && a@ == text,
            None => answer is None,
        },
{
    let items = &reservations.items;
    let ghost lines = items@.map_values(|item: ReservationListItem| reservation_line(item));
    let mut answer = String::new();
    let mut i: usize = 0;
    while i < items.len()
        invariant
            i <= items.len(),
            *items == reservations.items,
            lines == items@.map_values(|item: ReservationListItem| reservation_line(item)),
            all_lines(lines.take(i as int)) == Some(answer@),
        decreases items.len() - i,
    {
        match reservation_message_line(&items[i]) {
            Some(line) => {
                answer.append(line.as_str());
                proof {
                    assert(lines.take(i + 1).drop_last() == lines.take(i as int));
                    assert(lines.take(i + 1).last() == Some(line@));
                }
            },
            None => {
                proof {
                    assert(lines[i as int] == reservation_line(items@[i as int]));
                    lemma_missing_line(lines, i as int);
                }
                return None;
            },
        }
        i += 1;
    }
    assert(lines.take(i as int) == lines);
    Some(answer)
}

/// The answer to an enrolment that the service took.
pub open spec fn enrolled_text(reservation_id: Seq<char>) -> Seq<char> {
    "Enrolled to the exam! The reservation id is <code>"@ + reservation_id
        + "</code>\nCheck the status using <code>/status "@ + reservation_id + "</code>"@
}

/// Writes the answer to an enrolment that the service took.
pub fn enrolled_message(reservation_id: &str) -> (answer: String)
    ensures
        answer@ == enrolled_text(reservation_id@),
{
    let mut answer = "Enrolled to the exam! The reservation id is <code>".to_owned();
    answer.append(reservation_id);
    answer.append("</code>\nCheck the status using <code>/status ");
    answer.append(reservation_id);
    answer.append("</code>");
    answer
}

/// The answer that tells the state of a reservation.
pub open spec fn status_text(status: ReservationStatus) -> Seq<char> {
    "ID: "@ + status.id@ + "\nStatus: "@ + status.status.status.label() + "\nReason: "@ + (
    match status.status.message {
        Some(reason) => reason@,
        None => "None"@,
    }) + "\nWord: "@ + status.exam.organization_unit_name@ + "\nAddress: "@
        + status.exam.address@ + "\nCategory: "@ + status.exam.category.name() + "\nDate: "@
        + status.exam.exam_date@
}

/// Writes the answer that tells the state of a reservation.
pub fn status_message(status: &ReservationStatus) -> (answer: String)
    ensures
        answer@ == status_text(*status),
{
    let mut answer = "ID: ".to_owned();
    answer.append(status.id.as_str());
    answer.append("\nStatus: ");
    answer.append(status.status.status.as_str());
    answer.append("\nReason: ");
    match &status.status.message {
        Some(reason) => answer.append(reason.as_str()),
        None => answer.append("None"),
    }
    answer.append("\nWord: ");
    answer.append(status.exam.organization_unit_name.as_str());
    answer.append("\nAddress: ");
    answer.append(status.exam.address.as_str());
    answer.append("\nCategory: ");
    answer.append(status.exam.category.as_str());
    answer.append("\nDate: ");
    answer.append(status.exam.exam_date.as_str());
    answer
}

/// Writes the answer to a cancellation that the service took.
pub fn cancelled_message(reservation_id: &str) -> (answer: String)
    ensures
        answer@ == "Successfully canceled reservation: "@ + reservation_id@,
{
    let mut answer = "Successfully canceled reservation: ".to_owned();
    answer.append(reservation_id);
    answer
}

/// Writes the answer that tells for how long the service has run, from the
/// time of its start to `now`.
pub fn uptime_message(started: i64, now: i64) -> (answer: Option<String>)
    ensures
        match answer {
            Some(a) => i64::MIN <= now - started <= i64::MAX && a@ == "The uptime is: "@
                + time_delta_text(now - started),
            None => !(i64::MIN <= now - started <= i64::MAX),
        },
{
    match now.checked_sub(started) {
        Some(span) => {
            let mut answer = "The uptime is: ".to_owned();
            answer.append(readable_time_delta(span).as_str());
            Some(answer)
        },
        None => None,
    }
}

/// The text that tells of a new exam: its date, the days until it, and its
/// identity; `None` where its date names no point in time.
pub open spec fn new_exam_text(exam: Exam, now: int) -> Option<Seq<char>> {
    match days_to(exam.date@, now) {
        Some(days) => Some(
            "New exam is available! The next exam date is "@ + shown_date(exam.date@)
                + " (in <b>"@ + signed_decimal_text(days) + "</b> days) (ID: <code>"@ + exam.id@
                + "</code>)"@,
        ),
        None => None,
    }
}

/// Writes the text that tells of a new exam.
pub fn new_exam_message(exam: &Exam, now: i64) -> (text: Option<String>)
    ensures
        match new_exam_text(*exam, now as int) {
            Some(written) => text matches Some(t) && t@ == written,
            None => text is None,
        },
{
    let days = match days_until(exam.date.as_str(), now) {
        Some(days) => days,
        None => {
            return None;
        },
    };
    let mut text = "New exam is available! The next exam date is ".to_owned();
    text.append(readable_date_from_string(exam.date.clone()).as_str());
    text.append(" (in <b>");
    text.append(i64_to_decimal(days).as_str());
    text.append("</b> days) (ID: <code>");
    text.append(exam.id.as_str());
    text.append("</code>)");
    Some(text)
}

} // verus!
