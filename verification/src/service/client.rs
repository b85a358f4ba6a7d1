//! The client that acts for one account at one exam centre.

use vstd::prelude::*;
use crate::client::{
    authorize_query, authorize_request, exam_schedule_fields, grant, login_outcome, Awaited, Client,
    LoginReply, LoginStep, SessionView, AUTHORIZE_URL, EXAM_SCHEDULE_URL, RESERVATIONS_URL,
};
use crate::error::{EnrollError, GenericClientError, LoginError, NoBearerError};
use crate::request::{plain_call, Method, PayloadView, Request, RequestView};
use crate::text::{decimal_text, u64_to_decimal};
use crate::types::exam_schedule::{Exam, ExamSchedule};
use crate::types::license_category::LicenseCategory;
use crate::types::reservation::new::{
    ExamId, NewReservation, NewReservationCandidate, NewReservationExam, ProfileIdType,
    ReservationLanguageAndOsk,
};
use crate::types::unit_id::UnitId;
use crate::types::user_info::UserInfo;
use crate::utils::find_n_practice_exams;

verus! {

/// What the account's owner gave once: the credentials and the exam centre
/// that is preferred.
#[derive(Debug, PartialEq, Eq)]
pub struct UserData {
    pub username: String,
    pub password: String,
    pub preferred_osk: UnitId,
}

impl Clone for UserData {
    fn clone(&self) -> (copy: Self)
        ensures
            copy == *self,
    {
        UserData {
            username: self.username.clone(),
            password: self.password.clone(),
            preferred_osk: self.preferred_osk,
        }
    }
}

impl UserData {
    pub fn new(username: String, password: String, preferred_osk: UnitId) -> (data: Self)
        ensures
            data == (UserData { username, password, preferred_osk }),
    {
        UserData { username, password, preferred_osk }
    }
}

/// Why the nearest exams could not be told.
#[derive(Debug)]
pub enum GetExamsError {
    GenericClientError(EnrollError),
    /// The schedule holds no practice exam.
    NoExamsError,
}

/// Why the client could not be set up.
#[derive(Debug, PartialEq, Eq)]
pub enum NewClientError {
    GenericClientError(GenericClientError),
    LoginError(LoginError),
}

impl GetExamsError {
    /// The failure in words.
    pub open spec fn text(&self) -> Seq<char> {
        match self {
            GetExamsError::GenericClientError(e) => e.text(),
            GetExamsError::NoExamsError => "No exams found"@,
        }
    }

    pub fn message(&self) -> (text: String)
        ensures
            text@ == self.text(),
    {
        match self {
            GetExamsError::GenericClientError(e) => e.message(),
            GetExamsError::NoExamsError => "No exams found".to_owned(),
        }
    }
}

impl NewClientError {
    /// The failure in words.
    pub open spec fn text(&self) -> Seq<char> {
        match self {
            NewClientError::GenericClientError(e) => e.text(),
            NewClientError::LoginError(e) => e.text(),
        }
    }

    pub fn message(&self) -> (text: String)
        ensures
            text@ == self.text(),
    {
        match self {
            NewClientError::GenericClientError(e) => e.message(),
            NewClientError::LoginError(e) => e.message(),
        }
    }
}

/// The client of one account: its session, what its owner gave, and the
/// owner as a candidate for an exam.
pub struct InfoCarClient {
    client: Client,
    user_data: UserData,
    candidate_data: NewReservationCandidate,
}

/// How far a refresh has come.
#[derive(Clone, Copy, Debug, PartialEq, Eq, Structural)]
pub enum RefreshPhase {
    /// The silent refresh is under way.
    Refreshing,
    /// The silent refresh failed, and the one login that stands in for it
    /// is under way.
    LoggingIn,
}

/// The nearest exams of a schedule: its first `number` practice exams in
/// schedule order, or all of them where it holds fewer.
pub open spec fn nearest(schedule: ExamSchedule, number: usize) -> Seq<Exam> {
    schedule.practice_exams().take(
        if number <= schedule.practice_exams().len() {
            number as int
        } else {
            schedule.practice_exams().len() as int
        },
    )
}

/// The nearest exams of the schedule that the service answered with, or the
/// failure that no practice exam is to be had.
pub fn nearest_exams(schedule: ExamSchedule, number: usize) -> (found: Result<Vec<Exam>, GetExamsError>)
    ensures
        match found {
            Ok(exams) => exams@ == nearest(schedule, number) && exams@.len() > 0,
            Err(e) => e is NoExamsError && nearest(schedule, number).len() == 0,
        },
{
    match find_n_practice_exams(schedule, number) {
        Some(exams) => Ok(exams),
        None => Err(GetExamsError::NoExamsError),
    }
}

impl InfoCarClient {
    /// The session.
    pub closed spec fn session(&self) -> SessionView {
        self.client@
    }

    /// What the account's owner gave.
    pub closed spec fn user(&self) -> UserData {
        self.user_data
    }

    /// The owner as a candidate.
    pub closed spec fn candidate(&self) -> NewReservationCandidate {
        self.candidate_data
    }

    /// The client of the account whose session `client` is and whose details
    /// `user_info` are. The owner is the candidate of every reservation.
    pub fn new(
        client: Client,
        user_data: UserData,
        user_info: UserInfo,
        pesel: String,
        phone_number: String,
        driver_profile_id: ProfileIdType,
    ) -> (made: Self)
        ensures
            made.session() == client@,
            made.user() == user_data,
            made.candidate() == (NewReservationCandidate {
                firstname: user_info.given_name,
                lastname: user_info.family_name,
                email: user_info.email,
                phone_number,
                pesel,
                category: LicenseCategory::B,
                driver_profile: driver_profile_id,
            }),
    {
        Self {
            client,
            user_data,
            candidate_data: NewReservationCandidate::new_from_userinfo(
                user_info,
                pesel,
                phone_number,
                driver_profile_id,
            ),
        }
    }

    /// Takes a login with the owner's credentials one step further.
    pub fn login(&mut self, reply: Option<LoginReply>, now: i64) -> (step: LoginStep)
        ensures
            final(self).user() == old(self).user(),
            final(self).candidate() == old(self).candidate(),
            login_step(
                old(self).session(),
                final(self).session(),
                old(self).user(),
                reply,
                now,
                step,
            ),
    {
        self.client.login(self.user_data.username.as_str(), self.user_data.password.as_str(), reply, now)
    }

    /// Takes a refresh one step further. A refresh starts with no reply, by
    /// asking for a token silently. Where that call grants a token, the
    /// refresh is done. Where it grants none, for whatever reason, one
    /// login with the owner's credentials takes its place, and what the login
    /// comes to is what the refresh comes to.
    pub fn refresh_token(&mut self, phase: RefreshPhase, reply: Option<LoginReply>, now: i64) -> (next: (
        RefreshPhase,
        LoginStep,
    ))
        ensures
            final(self).user() == old(self).user(),
            final(self).candidate() == old(self).candidate(),
            refresh_step(
                old(self).session(),
                final(self).session(),
                old(self).user(),
                phase,
                reply,
                now,
                next,
            ),
    {
        match phase {
            RefreshPhase::LoggingIn => (RefreshPhase::LoggingIn, self.login(reply, now)),
            RefreshPhase::Refreshing => match reply {
                Some(LoginReply::Redirected(redirect)) => match self.client.refresh_token(
                    redirect,
                    now,
                ) {
                    Ok(expires_at) => (RefreshPhase::Refreshing, LoginStep::Done(expires_at)),
                    Err(_) => (RefreshPhase::LoggingIn, self.login(None, now)),
                },
                _ => (
                    RefreshPhase::Refreshing,
                    LoginStep::Send(authorize_request(), Awaited::Redirected),
                ),
            },
        }
    }

    /// The point in time at which the token expires, where one was granted.
    pub fn get_token_expire_date(&self) -> (expires_at: Option<i64>)
        ensures
            expires_at is Some <==> self.session().expires_at is Some,
            expires_at matches Some(e) ==> self.session().expires_at == Some(e as int),
    {
        self.client.token_expire_date()
    }

    /// The call that asks the preferred centre for its passenger-car exams
    /// between the two dates.
    pub fn get_nearest_exams(&self, start_date: String, end_date: String) -> (request: Result<
        Request,
        GetExamsError,
    >)
        ensures
            match self.session().token {
                Some(token) => request matches Ok(r) && r@ == (RequestView {
                    method: Method::Put,
                    url: EXAM_SCHEDULE_URL@,
                    query: Seq::empty(),
                    bearer: Some(token),
                    payload: PayloadView::Fields(
                        exam_schedule_fields(
                            decimal_text(self.user().preferred_osk.value() as nat),
                            start_date@,
                            end_date@,
                            LicenseCategory::B,
                        ),
                    ),
                }),
                None => request matches Err(
                    GetExamsError::GenericClientError(EnrollError::NoBearer(_)),
                ),
            },
    {
        let word_id = u64_to_decimal(self.user_data.preferred_osk.get() as u64);
        match self.client.exam_schedule(word_id, end_date, start_date, LicenseCategory::B) {
            Ok(request) => Ok(request),
            Err(e) => Err(GetExamsError::GenericClientError(EnrollError::from_generic(e))),
        }
    }

    /// The call that lists the account's reservations.
    pub fn get_reservations(&self) -> (request: Result<Request, GenericClientError>)
        ensures
            match self.session().token {
                Some(token) => request matches Ok(r) && r@ == plain_call(
                    Method::Get,
                    RESERVATIONS_URL@,
                    Some(token),
                ),
                None => request == Err::<Request, GenericClientError>(
                    GenericClientError::NoBearer(NoBearerError),
                ),
            },
    {
        self.client.my_reservations()
    }

    /// The reservation that enrols the owner for the practice exam
    /// `exam_id` at the preferred centre, in Polish.
    pub fn reservation_for(&self, exam_id: String) -> (reservation: NewReservation)
        ensures
            reservation.candidate == self.candidate(),
            reservation.exam == (NewReservationExam {
                organization_unit_id: self.user().preferred_osk,
                exam_id: ExamId::PracticeId(exam_id),
            }),
            reservation.language_and_osk.language@ == "POLISH"@,
            reservation.language_and_osk.osk_vehicle_reservation is None,
            reservation.language_and_osk.sign_language@ == "NONE"@,
    {
        NewReservation::new(
            self.candidate_data.clone(),
            NewReservationExam::new_practice_exam(self.user_data.preferred_osk, exam_id),
            ReservationLanguageAndOsk::default(),
        )
    }

    /// The call that enrols the owner for the practice exam `exam_id`.
    pub fn enroll(&self, exam_id: String) -> (request: Result<Request, EnrollError>)
        ensures
            match self.session().token {
                Some(token) => request matches Ok(r) && r@.method == Method::Post && r@.url
                    == RESERVATIONS_URL@ && r@.query == Seq::<(Seq<char>, Seq<char>)>::empty()
                    && r@.bearer == Some(token) && (r@.payload matches PayloadView::Reservation(
                    reservation,
                ) && reservation.candidate == self.candidate() && reservation.exam == (
                NewReservationExam {
                    organization_unit_id: self.user().preferred_osk,
                    exam_id: ExamId::PracticeId(exam_id),
                }) && reservation.language_and_osk.language@ == "POLISH"@
                    && reservation.language_and_osk.osk_vehicle_reservation is None
                    && reservation.language_and_osk.sign_language@ == "NONE"@),
                None => request matches Err(EnrollError::NoBearer(_)),
            },
    {
        let reservation = self.reservation_for(exam_id);
        self.client.new_reservation(reservation)
    }

    /// The call that reads the state of the reservation `reservation_id`.
    pub fn status(&self, reservation_id: &str) -> (request: Result<Request, EnrollError>)
        ensures
            match self.session().token {
                Some(token) => request matches Ok(r) && r@ == plain_call(
                    Method::Get,
                    RESERVATIONS_URL@ + "/"@ + reservation_id@,
                    Some(token),
                ),
                None => request matches Err(EnrollError::NoBearer(_)),
            },
    {
        self.client.reservation_status(reservation_id)
    }

    /// The call that cancels the reservation `reservation_id`.
    pub fn cancel(&self, reservation_id: &str) -> (request: Result<Request, EnrollError>)
        ensures
            match self.session().token {
                Some(token) => request matches Ok(r) && r@ == plain_call(
                    Method::Post,
                    RESERVATIONS_URL@ + "/"@ + reservation_id@ + "/cancel"@,
                    Some(token),
                ),
                None => request matches Err(EnrollError::NoBearer(_)),
            },
    {
        match self.client.cancel_reservation(reservation_id) {
            Ok(request) => Ok(request),
            Err(e) => Err(EnrollError::from_generic(e)),
        }
    }
}

/// What one step of a login with the credentials of `user` comes to.
pub open spec fn login_step(
    before: SessionView,
    after: SessionView,
    user: UserData,
    reply: Option<LoginReply>,
    now: i64,
    step: LoginStep,
) -> bool {
    login_outcome(before, after, user.username@, user.password@, reply, now, step)
}

/// What one step of a refresh comes to.
pub open spec fn refresh_step(
    before: SessionView,
    after: SessionView,
    user: UserData,
    phase: RefreshPhase,
    reply: Option<LoginReply>,
    now: i64,
    next: (RefreshPhase, LoginStep),
) -> bool {
    match (phase, reply) {
        (RefreshPhase::LoggingIn, _) => next.0 == RefreshPhase::LoggingIn && login_step(
            before,
            after,
            user,
            reply,
            now,
            next.1,
        ),
        (RefreshPhase::Refreshing, Some(LoginReply::Redirected(redirect))) => match grant(
            redirect,
            now,
        ) {
            Some((token, expires_at)) => {
                &&& next.0 == RefreshPhase::Refreshing
                &&& next.1 matches LoginStep::Done(given)
                &&& given == expires_at
                &&& after == (SessionView { token: Some(token), expires_at: Some(expires_at) })
            },
            None => next.0 == RefreshPhase::LoggingIn && login_step(
                before,
                after,
                user,
                None,
                now,
                next.1,
            ),
        },
        (RefreshPhase::Refreshing, _) => {
            &&& next.0 == RefreshPhase::Refreshing
            &&& next.1 matches LoginStep::Send(request, Awaited::Redirected)
            &&& request@ == (RequestView {
                method: Method::Get,
                url: AUTHORIZE_URL@,
                query: authorize_query(),
                bearer: None,
                payload: PayloadView::Empty,
            })
            &&& after == before
        },
    }
}

} // verus!
