use easycar::client::{Client, LoginReply, LoginStep, AUTHORIZE_URL, LOGIN_URL};
use easycar::error::{
    EnrollError, JWTError, JWTErrorMessage, LoginError, NoBearerError, RefreshTokenError,
    TransportError,
};
use easycar::request::Method;
use easycar::service::client::{GetExamsError, InfoCarClient, RefreshPhase, UserData};
use easycar::service::workers::{
    is_token_rejected, session_worker, session_worker_start, PollAction, Poller, WorkerAction,
    WorkerEvent, WorkerState,
};
use easycar::types::{
    Exam, GenericEndpointError, GenericError, ProfileIdType, UnitId, UserInfo,
};

fn exam(id: &str, places: i32, amount: i32) -> Exam {
    Exam {
        id: id.to_string(),
        places,
        date: "2024-07-01T10:00:00".to_string(),
        amount,
        additional_info: String::new(),
    }
}

fn account() -> InfoCarClient {
    InfoCarClient::new(
        Client::new(),
        UserData::new("jan".to_string(), "secret".to_string(), UnitId::new(3).unwrap()),
        UserInfo {
            sub: "1".to_string(),
            name: "Jan Kowalski".to_string(),
            preferred_username: "jan".to_string(),
            given_name: "Jan".to_string(),
            family_name: "Kowalski".to_string(),
            email: "jan@example.com".to_string(),
        },
        "90010112345".to_string(),
        "500600700".to_string(),
        ProfileIdType::PKK("12345678901234567890".to_string()),
    )
}

fn endpoint_error(codes: &[&str]) -> GetExamsError {
    GetExamsError::GenericClientError(EnrollError::GenericEndpointError(GenericEndpointError(
        codes
            .iter()
            .map(|code| GenericError {
                code: code.to_string(),
                path: None,
                user_message: "Something went wrong".to_string(),
                timestamp: "2024-07-01T10:00:00".to_string(),
            })
            .collect(),
    )))
}

fn challenge(kind: &str) -> GetExamsError {
    GetExamsError::GenericClientError(EnrollError::JWTError(JWTError(JWTErrorMessage {
        error_type: kind.to_string(),
        description: "Token expired".to_string(),
        url: "https://x/y".to_string(),
    })))
}

#[test]
fn comparing_twice_notifies_once() {
    let mut poller = Poller::new();
    let exams = vec![exam("e1", 2, 180), exam("e2", 1, 180)];
    assert_eq!(poller.compare(&exams), Some(exam("e1", 2, 180)));
    assert_eq!(poller.compare(&exams), None);
    assert_eq!(poller.last_exam_id, "e1");
}

#[test]
fn only_the_identity_of_the_earliest_counts() {
    let mut poller = Poller::new();
    assert!(poller.compare(&vec![exam("e1", 2, 180)]).is_some());
    // other places, another price, other exams behind it: the same earliest exam
    assert_eq!(poller.compare(&vec![exam("e1", 1, 200), exam("e9", 5, 180)]), None);
    // an earlier exam appears
    assert_eq!(poller.compare(&vec![exam("e0", 1, 180), exam("e1", 1, 200)]), Some(exam("e0", 1, 180)));
    // and goes again
    assert_eq!(poller.compare(&vec![exam("e1", 1, 200)]), Some(exam("e1", 1, 200)));
}

#[test]
fn comparing_no_exams_changes_nothing() {
    let mut poller = Poller::new();
    assert_eq!(poller.compare(&vec![]), None);
    assert_eq!(poller.last_exam_id, "");
    poller.compare(&vec![exam("e1", 2, 180)]);
    assert_eq!(poller.compare(&vec![]), None);
    assert_eq!(poller.last_exam_id, "e1");
}

#[test]
fn poller_notifies_of_a_new_earliest_exam() {
    let mut poller = Poller::new();
    let first = poller.scheduler(Ok(vec![exam("e1", 2, 180)]));
    assert!(matches!(&first, PollAction::Notify(e) if e.id == "e1"));
    assert_eq!(first.pause(), 0);
    let second = poller.scheduler(Ok(vec![exam("e1", 2, 180)]));
    assert!(matches!(second, PollAction::NoChange));
    assert_eq!(second.pause(), 0);
}

#[test]
fn poller_refreshes_after_a_rejected_token() {
    let mut poller = Poller::new();
    poller.scheduler(Ok(vec![exam("e1", 2, 180)]));
    let action = poller.scheduler(Err(challenge("invalid_token")));
    assert!(matches!(action, PollAction::RefreshAndBackOff(_)));
    assert_eq!(action.pause(), 15);
    let action = poller.scheduler(Err(endpoint_error(&["invalid_token", "other"])));
    assert!(matches!(action, PollAction::RefreshAndBackOff(_)));
    assert_eq!(poller.last_exam_id, "e1");
    // the loop goes on after a failure
    assert!(matches!(poller.scheduler(Ok(vec![exam("e2", 2, 180)])), PollAction::Notify(_)));
}

#[test]
fn poller_backs_off_after_any_other_failure() {
    let mut poller = Poller::new();
    for error in [
        GetExamsError::NoExamsError,
        challenge("insufficient_scope"),
        endpoint_error(&["other", "invalid_token"]),
        endpoint_error(&[]),
        GetExamsError::GenericClientError(EnrollError::NoBearer(NoBearerError)),
        GetExamsError::GenericClientError(EnrollError::ReqwestError(TransportError {
            message: "invalid_token".to_string(),
        })),
        GetExamsError::GenericClientError(EnrollError::MalformedChallengeHeader(vec![
            "invalid_token".to_string(),
        ])),
    ] {
        assert!(!is_token_rejected(&error));
        let action = poller.scheduler(Err(error));
        assert!(matches!(action, PollAction::BackOff(_)));
        assert_eq!(action.pause(), 15);
    }
}

#[test]
fn worker_sleeps_until_the_margin() {
    assert_eq!(
        session_worker_start(10_000, 1_000),
        (WorkerState::WaitingForExpiry, WorkerAction::Sleep(8_700))
    );
}

#[test]
fn worker_refreshes_at_once_when_the_expiry_has_passed() {
    // thirty seconds short of the margin
    assert_eq!(
        session_worker_start(1_270, 1_000),
        (WorkerState::WaitingForExpiry, WorkerAction::Sleep(0))
    );
    assert_eq!(session_worker_start(0, 1_000), (WorkerState::WaitingForExpiry, WorkerAction::Sleep(0)));
}

fn sent(action: WorkerAction) -> easycar::request::Request {
    match action {
        WorkerAction::Send(request, _) => request,
        other => panic!("unexpected action {other:?}"),
    }
}

#[test]
fn worker_refreshes_and_sleeps_again() {
    let mut account = account();
    let (state, action) = session_worker(&mut account, WorkerState::WaitingForExpiry, WorkerEvent::Woke, 5_000);
    assert_eq!(state, WorkerState::Refreshing(RefreshPhase::Refreshing));
    let request = sent(action);
    assert_eq!(request.method, Method::Get);
    assert_eq!(request.url, AUTHORIZE_URL);
    let reply = LoginReply::Redirected(Ok(Some("access_token=T&expires_in=3600".to_string())));
    let (state, action) = session_worker(&mut account, state, WorkerEvent::Reply(reply), 5_002);
    assert_eq!(state, WorkerState::WaitingForExpiry);
    assert_eq!(action, WorkerAction::Sleep(3_300));
    assert_eq!(account.get_token_expire_date(), Some(8_602));
}

#[test]
fn worker_falls_back_to_one_login() {
    let mut account = account();
    let (state, _) = session_worker(&mut account, WorkerState::WaitingForExpiry, WorkerEvent::Woke, 0);
    // the silent refresh ends without a fragment
    let (state, action) =
        session_worker(&mut account, state, WorkerEvent::Reply(LoginReply::Redirected(Ok(None))), 1);
    assert_eq!(state, WorkerState::Refreshing(RefreshPhase::LoggingIn));
    let request = sent(action);
    assert_eq!((request.method, request.url.as_str()), (Method::Get, LOGIN_URL));
    let page = r#"<input type="hidden" name="_csrf" value="abc123">"#.to_string();
    let (state, action) = session_worker(&mut account, state, WorkerEvent::Reply(LoginReply::Page(Ok(page))), 2);
    assert_eq!(state, WorkerState::Refreshing(RefreshPhase::LoggingIn));
    let request = sent(action);
    assert_eq!(request.method, Method::Post);
    assert_eq!(
        request.form_body().unwrap(),
        "username=jan&_csrf=abc123&password=secret&_csrf=abc123"
    );
    let (state, action) =
        session_worker(&mut account, state, WorkerEvent::Reply(LoginReply::Submitted(Ok(()))), 3);
    assert_eq!(sent(action).url, AUTHORIZE_URL);
    let reply = LoginReply::Redirected(Ok(Some("access_token=N&expires_in=600".to_string())));
    let (state, action) = session_worker(&mut account, state, WorkerEvent::Reply(reply), 4);
    assert_eq!(state, WorkerState::WaitingForExpiry);
    assert_eq!(action, WorkerAction::Sleep(300));
    assert_eq!(account.get_token_expire_date(), Some(604));
}

#[test]
fn worker_backs_off_when_the_login_fails_too() {
    let mut account = account();
    let (state, _) = session_worker(&mut account, WorkerState::WaitingForExpiry, WorkerEvent::Woke, 0);
    let (state, _) =
        session_worker(&mut account, state, WorkerEvent::Reply(LoginReply::Redirected(Ok(None))), 1);
    let failure = TransportError { message: "down".to_string() };
    let (state, _) = session_worker(
        &mut account,
        state,
        WorkerEvent::Reply(LoginReply::Page(Ok(r#"<input type="hidden" name="_csrf" value="x">"#.to_string()))),
        2,
    );
    let (state, action) = session_worker(
        &mut account,
        state,
        WorkerEvent::Reply(LoginReply::Submitted(Err(failure.clone()))),
        3,
    );
    assert_eq!(state, WorkerState::WaitingForExpiry);
    assert_eq!(action, WorkerAction::ReportAndSleep(LoginError::ReqwestError(failure), 15));
    // and tries again once awake
    let (state, action) = session_worker(&mut account, state, WorkerEvent::Woke, 18);
    assert_eq!(state, WorkerState::Refreshing(RefreshPhase::Refreshing));
    assert_eq!(sent(action).url, AUTHORIZE_URL);
}

#[test]
fn worker_ignores_what_does_not_belong() {
    let mut account = account();
    let stale = WorkerEvent::Reply(LoginReply::Submitted(Ok(())));
    assert_eq!(
        session_worker(&mut account, WorkerState::WaitingForExpiry, stale, 0),
        (WorkerState::WaitingForExpiry, WorkerAction::Nothing)
    );
    let state = WorkerState::Refreshing(RefreshPhase::LoggingIn);
    assert_eq!(session_worker(&mut account, state, WorkerEvent::Woke, 0), (state, WorkerAction::Nothing));
}

#[test]
fn refresh_with_fallback_step_by_step() {
    let mut account = account();
    let (phase, step) = account.refresh_token(RefreshPhase::Refreshing, None, 0);
    assert_eq!(phase, RefreshPhase::Refreshing);
    assert!(matches!(step, LoginStep::Send(r, _) if r.url == AUTHORIZE_URL));
    let reply = LoginReply::Redirected(Ok(Some("access_token=T&expires_in=10".to_string())));
    assert_eq!(
        account.refresh_token(RefreshPhase::Refreshing, Some(reply), 100),
        (RefreshPhase::Refreshing, LoginStep::Done(110))
    );
    let reply = LoginReply::Redirected(Ok(Some("expires_in=10".to_string())));
    let (phase, step) = account.refresh_token(RefreshPhase::Refreshing, Some(reply), 200);
    assert_eq!(phase, RefreshPhase::LoggingIn);
    assert!(matches!(step, LoginStep::Send(r, _) if r.url == LOGIN_URL));
    // the failed refresh left the session alone
    assert_eq!(account.get_token_expire_date(), Some(110));
    let reply = LoginReply::Redirected(Ok(Some("token_type=bearer".to_string())));
    let (phase, step) = account.refresh_token(RefreshPhase::LoggingIn, Some(reply), 300);
    assert_eq!(phase, RefreshPhase::LoggingIn);
    assert_eq!(
        step,
        LoginStep::Failed(LoginError::TokenGetError(RefreshTokenError::AccessTokenNotProvided(vec![(
            "token_type".to_string(),
            "bearer".to_string()
        )])))
    );
}
