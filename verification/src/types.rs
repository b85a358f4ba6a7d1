//! The shapes of the data that the booking service exchanges.

pub mod endpoint;
pub mod exam_schedule;
pub mod license_category;
pub mod payment;
pub mod reservation;
pub mod theory_or_practice_exam;
pub mod unit_id;
pub mod user_info;
pub mod word_centers;

pub use endpoint::{EndpointResponse, GenericEndpointError, GenericError};
pub use exam_schedule::{Day, Exam, ExamList, ExamSchedule, Hour, Schedule};
pub use license_category::LicenseCategory;
pub use payment::{BlikPaymentRequest, BlikPaymentResponse};
pub use reservation::list::{Candidate, ReservationExam, ReservationList, ReservationListItem};
pub use reservation::new::{
    ExamId, NewReservation, NewReservationCandidate, NewReservationExam, NewReservationSuccess,
    ProfileIdType, ReservationLanguageAndOsk,
};
pub use reservation::status::{
    DetailedReservationExam, PossibleStatuses, ReservationCandidate, ReservationInvoice,
    ReservationStatus, Status,
};
pub use theory_or_practice_exam::TheoryOrPracticeExam;
pub use unit_id::UnitId;
pub use user_info::UserInfo;
pub use word_centers::{Language, Province, SignLanguage, Word, WordCenters, WordRescheduleEnabled};
