//! What is sent to reserve an exam.

use vstd::prelude::*;
use crate::types::license_category::LicenseCategory;
use crate::types::unit_id::UnitId;
use crate::types::user_info::UserInfo;

verus! {

/// The number of a driver's profile, by the kind of profile.
#[derive(Debug, PartialEq, Eq)]
pub enum ProfileIdType {
    /// Professional driver's profile
    PKZ(String),
    /// Driver candidate's profile
    PKK(String),
}

impl Clone for ProfileIdType {
    fn clone(&self) -> (copy: Self)
        ensures
            copy == *self,
    {
        match self {
            ProfileIdType::PKZ(number) => ProfileIdType::PKZ(number.clone()),
            ProfileIdType::PKK(number) => ProfileIdType::PKK(number.clone()),
        }
    }
}

impl Default for ProfileIdType {
    /// A candidate's profile with no number.
    fn default() -> (profile: Self)
        ensures
            profile matches ProfileIdType::PKK(number) && number@.len() == 0,
    {
        ProfileIdType::PKK(String::new())
    }
}

/// The person for whom an exam is reserved.
#[derive(Debug, PartialEq, Eq)]
pub struct NewReservationCandidate {
    pub firstname: String,
    pub lastname: String,
    pub email: String,
    pub phone_number: String,
    pub pesel: String,
    pub category: LicenseCategory,
    pub driver_profile: ProfileIdType,
}

impl Clone for NewReservationCandidate {
    fn clone(&self) -> (copy: Self)
        ensures
            copy == *self,
    {
        NewReservationCandidate {
            firstname: self.firstname.clone(),
            lastname: self.lastname.clone(),
            email: self.email.clone(),
            phone_number: self.phone_number.clone(),
            pesel: self.pesel.clone(),
            category: self.category,
            driver_profile: self.driver_profile.clone(),
        }
    }
}

impl NewReservationCandidate {
    /// The candidate that the account's owner is, for the default licence
    /// category: names and e-mail from the account, the rest as given.
    pub fn new_from_userinfo(
        userinfo: UserInfo,
        pesel: String,
        phone_number: String,
        driver_profile: ProfileIdType,
    ) -> (candidate: Self)
        ensures
            candidate == (NewReservationCandidate {
                firstname: userinfo.given_name,
                lastname: userinfo.family_name,
                email: userinfo.email,
                phone_number,
                pesel,
                category: LicenseCategory::B,
                driver_profile,
            }),
    {
        Self {
            category: LicenseCategory::default(),
            email: userinfo.email,
            firstname: userinfo.given_name,
            lastname: userinfo.family_name,
            pesel,
            phone_number,
            driver_profile,
        }
    }
}

/// The exam to reserve, by its part.
#[derive(Debug, PartialEq, Eq)]
pub enum ExamId {
    PracticeId(String),
    TheoryId(String),
}

/// The exam to reserve and the centre that holds it.
#[derive(Debug, PartialEq, Eq)]
pub struct NewReservationExam {
    pub organization_unit_id: UnitId,
    pub exam_id: ExamId,
}

impl NewReservationExam {
    pub fn new_theory_exam(organization_unit_id: UnitId, exam_id: String) -> (exam: Self)
        ensures
            exam == (NewReservationExam { organization_unit_id, exam_id: ExamId::TheoryId(exam_id) }),
    {
        NewReservationExam { organization_unit_id, exam_id: ExamId::TheoryId(exam_id) }
    }

    pub fn new_practice_exam(organization_unit_id: UnitId, exam_id: String) -> (exam: Self)
        ensures
            exam == (NewReservationExam { organization_unit_id, exam_id: ExamId::PracticeId(exam_id) }),
    {
        NewReservationExam { organization_unit_id, exam_id: ExamId::PracticeId(exam_id) }
    }
}

/// The language of the exam and whether a school's vehicle is used.
#[derive(Debug, PartialEq, Eq)]
pub struct ReservationLanguageAndOsk {
    pub language: String,
    pub osk_vehicle_reservation: Option<String>,
    pub sign_language: String,
}

impl Default for ReservationLanguageAndOsk {
    /// An exam in Polish, without sign language or a school's vehicle.
    fn default() -> (choice: Self)
        ensures
            choice.language@ == "POLISH"@,
            choice.osk_vehicle_reservation is None,
            choice.sign_language@ == "NONE"@,
    {
        Self {
            language: "POLISH".to_owned(),
            osk_vehicle_reservation: None,
            sign_language: "NONE".to_owned(),
        }
    }
}

/// A whole request to reserve an exam.
#[derive(Debug, PartialEq, Eq)]
pub struct NewReservation {
    pub candidate: NewReservationCandidate,
    pub exam: NewReservationExam,
    pub language_and_osk: ReservationLanguageAndOsk,
}

impl NewReservation {
    pub fn new(
        candidate: NewReservationCandidate,
        exam: NewReservationExam,
        language_and_osk: ReservationLanguageAndOsk,
    ) -> (reservation: Self)
        ensures
            reservation == (NewReservation { candidate, exam, language_and_osk }),
    {
        Self { candidate, exam, language_and_osk }
    }
}

/// What the service answers to a reservation that it took.
#[derive(Clone, Debug, PartialEq, Eq)]
pub struct NewReservationSuccess {
    pub id: String,
}

} // verus!
