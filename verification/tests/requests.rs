use easycar::client::{endpoint_result, Client};
use easycar::error::{
    AuthError, CsrfTokenError, EnrollError, GenericClientError, JWTError, JWTErrorMessage,
    LoginError, LogoutError, NoBearerError, RefreshTokenError, TransportError,
};
use easycar::request::{pair, Method, Payload, Request};
use easycar::service::client::{GetExamsError, InfoCarClient, NewClientError, UserData};
use easycar::types::{
    BlikPaymentRequest, EndpointResponse, ExamId, GenericEndpointError, GenericError,
    LicenseCategory, NewReservation, NewReservationCandidate, NewReservationExam,
    NewReservationSuccess, PossibleStatuses, ProfileIdType, ReservationLanguageAndOsk, UnitId,
    UserInfo,
};

fn logged_in() -> Client {
    let mut client = Client::new();
    client.set_token("TOKEN".to_string());
    client
}

fn user_info() -> UserInfo {
    UserInfo {
        sub: "1".to_string(),
        name: "Jan Kowalski".to_string(),
        preferred_username: "jan".to_string(),
        given_name: "Jan".to_string(),
        family_name: "Kowalski".to_string(),
        email: "jan@example.com".to_string(),
    }
}

fn account(client: Client) -> InfoCarClient {
    InfoCarClient::new(
        client,
        UserData::new("jan".to_string(), "secret".to_string(), UnitId::new(42).unwrap()),
        user_info(),
        "90010112345".to_string(),
        "500600700".to_string(),
        ProfileIdType::PKK("123".to_string()),
    )
}

fn plain(method: Method, url: &str) -> Request {
    Request {
        method,
        url: url.to_string(),
        query: vec![],
        bearer: Some("TOKEN".to_string()),
        payload: Payload::Empty,
    }
}

fn service_error(code: &str, message: &str) -> GenericError {
    GenericError {
        code: code.to_string(),
        path: None,
        user_message: message.to_string(),
        timestamp: "2024-07-01T10:00:00".to_string(),
    }
}

#[test]
fn calls_without_a_token_fail() {
    let client = Client::new();
    let no_bearer = GenericClientError::NoBearer(NoBearerError);
    assert_eq!(client.user_info(), Err(GenericClientError::NoBearer(NoBearerError)));
    assert_eq!(client.my_reservations(), Err(GenericClientError::NoBearer(NoBearerError)));
    assert_eq!(client.word_centers(), Err(GenericClientError::NoBearer(NoBearerError)));
    assert_eq!(client.is_word_reschedule_enabled(UnitId::new(1).unwrap()), Err(no_bearer));
    assert_eq!(
        client.cancel_reservation("r1"),
        Err(GenericClientError::NoBearer(NoBearerError))
    );
    assert!(matches!(client.reservation_status("r1"), Err(EnrollError::NoBearer(_))));
    assert!(matches!(
        account(Client::new()).get_nearest_exams("a".to_string(), "b".to_string()),
        Err(GetExamsError::GenericClientError(EnrollError::NoBearer(_)))
    ));
    assert!(matches!(account(Client::new()).enroll("e1".to_string()), Err(EnrollError::NoBearer(_))));
}

#[test]
fn reading_calls() {
    let client = logged_in();
    assert_eq!(client.user_info(), Ok(plain(Method::Get, "https://info-car.pl/oauth2/userinfo")));
    assert_eq!(
        client.my_reservations(),
        Ok(plain(Method::Get, "https://info-car.pl/api/word/reservations"))
    );
    assert_eq!(
        client.word_centers(),
        Ok(plain(Method::Get, "https://info-car.pl/api/word/word-centers"))
    );
    assert_eq!(
        client.is_word_reschedule_enabled(UnitId::new(107).unwrap()),
        Ok(plain(Method::Get, "https://info-car.pl/api/word/word-centers/reschedule-enabled/107"))
    );
    assert_eq!(
        client.reservation_status("abc").unwrap(),
        plain(Method::Get, "https://info-car.pl/api/word/reservations/abc")
    );
    assert_eq!(
        client.cancel_reservation("abc"),
        Ok(plain(Method::Post, "https://info-car.pl/api/word/reservations/abc/cancel"))
    );
}

#[test]
fn schedule_call_names_centre_window_and_category() {
    let request = account(logged_in())
        .get_nearest_exams("2024-06-01 12:00:00 UTC".to_string(), "2024-07-02 12:00:00 UTC".to_string())
        .unwrap();
    assert_eq!(request.method, Method::Put);
    assert_eq!(request.url, "https://info-car.pl/api/word/word-centers/exam-schedule");
    assert_eq!(request.bearer, Some("TOKEN".to_string()));
    assert_eq!(
        request.payload,
        Payload::Fields(vec![
            pair("category", "B"),
            pair("endDate", "2024-07-02 12:00:00 UTC"),
            pair("startDate", "2024-06-01 12:00:00 UTC"),
            pair("wordId", "42"),
        ])
    );
}

#[test]
fn enrolment_is_for_the_owner_at_the_preferred_centre() {
    let account = account(logged_in());
    let request = account.enroll("exam-7".to_string()).unwrap();
    assert_eq!(request.method, Method::Post);
    assert_eq!(request.url, "https://info-car.pl/api/word/reservations");
    assert_eq!(request.bearer, Some("TOKEN".to_string()));
    let expected = NewReservation::new(
        NewReservationCandidate {
            firstname: "Jan".to_string(),
            lastname: "Kowalski".to_string(),
            email: "jan@example.com".to_string(),
            phone_number: "500600700".to_string(),
            pesel: "90010112345".to_string(),
            category: LicenseCategory::B,
            driver_profile: ProfileIdType::PKK("123".to_string()),
        },
        NewReservationExam::new_practice_exam(UnitId::new(42).unwrap(), "exam-7".to_string()),
        ReservationLanguageAndOsk::default(),
    );
    assert_eq!(request.payload, Payload::Reservation(expected));
    assert_eq!(
        account.status("r1").unwrap().url,
        "https://info-car.pl/api/word/reservations/r1"
    );
    assert_eq!(
        account.cancel("r1").unwrap().url,
        "https://info-car.pl/api/word/reservations/r1/cancel"
    );
    assert_eq!(
        account.get_reservations().unwrap().url,
        "https://info-car.pl/api/word/reservations"
    );
}

#[test]
fn builders_keep_what_they_are_given() {
    let candidate = NewReservationCandidate::new_from_userinfo(
        user_info(),
        "p".to_string(),
        "n".to_string(),
        ProfileIdType::PKZ("z".to_string()),
    );
    assert_eq!(candidate.firstname, "Jan");
    assert_eq!(candidate.lastname, "Kowalski");
    assert_eq!(candidate.email, "jan@example.com");
    assert_eq!(candidate.pesel, "p");
    assert_eq!(candidate.phone_number, "n");
    assert_eq!(candidate.category, LicenseCategory::B);
    assert_eq!(candidate.driver_profile, ProfileIdType::PKZ("z".to_string()));
    let unit = UnitId::new(9).unwrap();
    assert_eq!(
        NewReservationExam::new_theory_exam(unit, "t".to_string()),
        NewReservationExam { organization_unit_id: unit, exam_id: ExamId::TheoryId("t".to_string()) }
    );
    assert_eq!(
        NewReservationExam::new_practice_exam(unit, "p".to_string()),
        NewReservationExam { organization_unit_id: unit, exam_id: ExamId::PracticeId("p".to_string()) }
    );
    let choice = ReservationLanguageAndOsk::default();
    assert_eq!(choice.language, "POLISH");
    assert_eq!(choice.osk_vehicle_reservation, None);
    assert_eq!(choice.sign_language, "NONE");
    assert_eq!(ProfileIdType::default(), ProfileIdType::PKK(String::new()));
    assert_eq!(LicenseCategory::default(), LicenseCategory::B);
    let payment = BlikPaymentRequest::new("123456".to_string(), true);
    assert_eq!(payment.blik_code, "123456");
    assert!(payment.balance_usage_requested);
}

#[test]
fn unit_ids_are_positive() {
    assert_eq!(UnitId::new(0), None);
    assert_eq!(UnitId::new(1).unwrap().get(), 1);
    assert_eq!(UnitId::new(u32::MAX).unwrap().get(), u32::MAX);
}

#[test]
fn names_of_categories_and_states() {
    let categories = [
        (LicenseCategory::A, "A"),
        (LicenseCategory::A1, "A1"),
        (LicenseCategory::A2, "A2"),
        (LicenseCategory::AM, "AM"),
        (LicenseCategory::B, "B"),
        (LicenseCategory::B1, "B1"),
        (LicenseCategory::BE, "BE"),
        (LicenseCategory::C, "C"),
        (LicenseCategory::C1, "C1"),
        (LicenseCategory::CE, "CE"),
        (LicenseCategory::C1E, "C1E"),
        (LicenseCategory::D, "D"),
        (LicenseCategory::D1, "D1"),
        (LicenseCategory::DE, "DE"),
        (LicenseCategory::D1E, "D1E"),
        (LicenseCategory::T, "T"),
        (LicenseCategory::PT, "PT"),
    ];
    for (category, name) in categories {
        assert_eq!(category.to_string(), name);
        assert_eq!(category.as_str(), name);
    }
    let states = [
        (PossibleStatuses::Created, "Created"),
        (PossibleStatuses::Draft, "Draft"),
        (PossibleStatuses::PaymentRejected, "Payment Rejected"),
        (PossibleStatuses::PlaceReserved, "Place Reserved"),
        (PossibleStatuses::SignupConfirmed, "Signup Confirmed"),
        (PossibleStatuses::CancellationRequest, "Cancellation Request"),
        (PossibleStatuses::Cancelled, "Cancelled"),
        (PossibleStatuses::Unknown, "Unknown"),
    ];
    for (state, label) in states {
        assert_eq!(state.to_string(), label);
    }
}

#[test]
fn endpoint_answers_unwrap_to_payload_or_errors() {
    let success: EndpointResponse<NewReservationSuccess> =
        EndpointResponse::Success(NewReservationSuccess { id: "r1".to_string() });
    assert_eq!(success.clone().ok().unwrap().id, "r1");
    assert_eq!(endpoint_result(success).unwrap().id, "r1");
    let errors: EndpointResponse<NewReservationSuccess> =
        EndpointResponse::Errors(vec![service_error("invalid_token", "Token is invalid")]);
    assert_eq!(errors.clone().ok().unwrap_err().0, vec![service_error("invalid_token", "Token is invalid")]);
    match endpoint_result(errors) {
        Err(EnrollError::GenericEndpointError(e)) => {
            assert_eq!(e.0, vec![service_error("invalid_token", "Token is invalid")])
        }
        other => panic!("unexpected outcome {other:?}"),
    }
}

#[test]
fn refusals_become_failures_of_the_call() {
    let refusal = || JWTError(JWTErrorMessage {
        error_type: "invalid_token".to_string(),
        description: "Token expired".to_string(),
        url: "https://x/y".to_string(),
    });
    assert_eq!(
        GenericClientError::from_auth(AuthError::Challenge(refusal())),
        GenericClientError::JWTError(refusal())
    );
    assert_eq!(
        GenericClientError::from_auth(AuthError::MalformedChallengeHeader(vec!["a".to_string()])),
        GenericClientError::MalformedChallengeHeader(vec!["a".to_string()])
    );
    assert!(matches!(
        EnrollError::from_auth(AuthError::Challenge(refusal())),
        EnrollError::JWTError(e) if e == refusal()
    ));
    assert!(matches!(
        EnrollError::from_auth(AuthError::MalformedChallengeHeader(vec![])),
        EnrollError::MalformedChallengeHeader(found) if found.is_empty()
    ));
    assert!(matches!(
        EnrollError::from_generic(GenericClientError::NoBearer(NoBearerError)),
        EnrollError::NoBearer(_)
    ));
    assert!(matches!(
        EnrollError::from_generic(GenericClientError::JWTError(refusal())),
        EnrollError::JWTError(e) if e == refusal()
    ));
}

#[test]
fn failures_in_words() {
    let transport = TransportError { message: "connection reset".to_string() };
    assert_eq!(transport.message(), "connection reset");
    assert_eq!(NoBearerError.message(), "Bearer token not found");
    assert_eq!(
        CsrfTokenError::TokenNotFound.message(),
        "The element containing the CSRF token could not be found"
    );
    assert_eq!(
        CsrfTokenError::TokenValueNotFound.message(),
        "The CSRF token value could not be found on the input element"
    );
    assert_eq!(CsrfTokenError::ReqwestError(transport.clone()).message(), "connection reset");
    assert_eq!(
        RefreshTokenError::NoFragmentProvided.message(),
        "No fragment was provided in the response URL"
    );
    assert_eq!(
        RefreshTokenError::ExpireTimeNotProvided.message(),
        "The expire time was not provided in the response"
    );
    assert_eq!(
        RefreshTokenError::ExpireTimeParseError.message(),
        "Could not parse the expire time as a number"
    );
    assert_eq!(RefreshTokenError::UrlFragmentParseError("bad".to_string()).message(), "bad");
    assert_eq!(
        RefreshTokenError::AccessTokenNotProvided(vec![pair("a", "1"), pair("b", "2")]).message(),
        "The access token was not provided in the response. Response: a=1, b=2"
    );
    assert_eq!(
        RefreshTokenError::AccessTokenNotProvided(vec![]).message(),
        "The access token was not provided in the response. Response: "
    );
    assert_eq!(
        LoginError::TokenGetError(RefreshTokenError::NoFragmentProvided).message(),
        "No fragment was provided in the response URL"
    );
    assert_eq!(
        LoginError::CsrfTokenError(CsrfTokenError::TokenNotFound).message(),
        "The element containing the CSRF token could not be found"
    );
    assert_eq!(LoginError::ReqwestError(transport.clone()).message(), "connection reset");
    assert_eq!(LogoutError::NoBearer(NoBearerError).message(), "Bearer token not found");
    assert_eq!(LogoutError::ReqwestError(transport.clone()).message(), "connection reset");
    assert_eq!(
        AuthError::MalformedChallengeHeader(vec!["a".to_string(), "b".to_string()]).message(),
        "Malformed challenge header: a, b"
    );
    assert_eq!(
        GenericClientError::MalformedChallengeHeader(vec![]).message(),
        "Malformed challenge header: "
    );
    assert_eq!(GenericClientError::NoBearer(NoBearerError).message(), "Bearer token not found");
    let listed = GenericEndpointError(vec![
        service_error("invalid_token", "Token is invalid"),
        service_error("limit", "Too many calls"),
    ]);
    assert_eq!(listed.message(), "Token is invalid (invalid_token). Too many calls (limit). ");
    assert_eq!(
        EnrollError::GenericEndpointError(listed).message(),
        "Token is invalid (invalid_token). Too many calls (limit). "
    );
    assert_eq!(GetExamsError::NoExamsError.message(), "No exams found");
    assert_eq!(
        GetExamsError::GenericClientError(EnrollError::NoBearer(NoBearerError)).message(),
        "Bearer token not found"
    );
    assert_eq!(
        NewClientError::LoginError(LoginError::ReqwestError(transport)).message(),
        "connection reset"
    );
}
