//! The decisions of the two background tasks: the one that keeps the token
//! fresh, and the one that watches the schedule. Each task is a loop that
//! lives outside this library; it does what these functions tell it and
//! comes back with what happened.

use vstd::prelude::*;
use crate::client::{Awaited, LoginReply, LoginStep, SessionView};
use crate::error::{EnrollError, LoginError};
use crate::request::Request;
use crate::service::client::{refresh_step, GetExamsError, InfoCarClient, RefreshPhase};
use crate::text::str_eq;
use crate::time::{sleep_secs, spec_sleep_secs, BACKOFF_SECS, REFRESH_MARGIN_SECS};
use crate::types::exam_schedule::Exam;

verus! {

/// Where the task that keeps the token fresh stands.
#[derive(Clone, Copy, Debug, PartialEq, Eq, Structural)]
pub enum WorkerState {
    /// Asleep until the token is about to expire, or until a failure is
    /// tried again.
    WaitingForExpiry,
    /// A refresh is under way.
    Refreshing(RefreshPhase),
}

/// What happened to the task that keeps the token fresh.
#[derive(Debug, PartialEq, Eq)]
pub enum WorkerEvent {
    /// The sleep is over.
    Woke,
    /// The call that was asked for came to this.
    Reply(LoginReply),
}

/// What the task that keeps the token fresh does next.
#[derive(Debug, PartialEq, Eq)]
pub enum WorkerAction {
    /// Sleep for so many seconds, then come back awake.
    Sleep(u64),
    /// Make this call and come back with what is awaited of it.
    Send(Request, Awaited),
    /// Report the failure, sleep for so many seconds, then come back awake.
    ReportAndSleep(LoginError, u64),
    /// Nothing: what happened does not belong to where the task stands.
    Nothing,
}

/// The first step of the task that keeps the token fresh: to sleep until
/// the margin before the expiry, not at all where that moment has passed.
pub fn session_worker_start(expires_at: i64, now: i64) -> (next: (WorkerState, WorkerAction))
    ensures
        next.0 == WorkerState::WaitingForExpiry,
        next.1 matches WorkerAction::Sleep(secs) && secs == spec_sleep_secs(
            expires_at as int,
            now as int,
            REFRESH_MARGIN_SECS as int,
        ),
{
    (
        WorkerState::WaitingForExpiry,
        WorkerAction::Sleep(sleep_secs(expires_at, now, REFRESH_MARGIN_SECS)),
    )
}

/// What a step of the task that keeps the token fresh comes to.
/// Awake, it starts a refresh. While the refresh goes on, it makes the
/// calls that the refresh asks for. Once the refresh has won a token, it
/// sleeps until the margin before the expiry that the refresh gave. Once
/// the refresh and the login that stands in for it have both failed, it
/// reports the failure and sleeps for the fixed backoff. It never ends.
pub open spec fn worker_step(
    before: SessionView,
    after: SessionView,
    user: crate::service::client::UserData,
    state: WorkerState,
    event: WorkerEvent,
    now: i64,
    next: (WorkerState, WorkerAction),
) -> bool {
    match (state, event) {
        (WorkerState::WaitingForExpiry, WorkerEvent::Woke) => {
            &&& next.0 matches WorkerState::Refreshing(phase)
            &&& next.1 matches WorkerAction::Send(request, awaited)
            &&& refresh_step(
                before,
                after,
                user,
                RefreshPhase::Refreshing,
                None,
                now,
                (phase, LoginStep::Send(request, awaited)),
            )
        },
        (WorkerState::Refreshing(phase), WorkerEvent::Reply(reply)) => {
            exists|step: (RefreshPhase, LoginStep)|
                {
                    &&& #[trigger] refresh_step(before, after, user, phase, Some(reply), now, step)
                    &&& match step.1 {
                        LoginStep::Send(request, awaited) => next == (
                            WorkerState::Refreshing(step.0),
                            WorkerAction::Send(request, awaited),
                        ),
                        LoginStep::Done(expires_at) => {
                            &&& next.0 == WorkerState::WaitingForExpiry
                            &&& next.1 matches WorkerAction::Sleep(secs)
                            &&& secs == spec_sleep_secs(
                                expires_at as int,
                                now as int,
                                REFRESH_MARGIN_SECS as int,
                            )
                        },
                        LoginStep::Failed(error) => next == (
                            WorkerState::WaitingForExpiry,
                            WorkerAction::ReportAndSleep(error, BACKOFF_SECS),
                        ),
                    }
                }
        },
        _ => next == (state, WorkerAction::Nothing) && after == before,
    }
}

/// Takes the task that keeps the token fresh one step further.
pub fn session_worker(
    client: &mut InfoCarClient,
    state: WorkerState,
    event: WorkerEvent,
    now: i64,
) -> (next: (WorkerState, WorkerAction))
    ensures
        final(client).user() == old(client).user(),
        final(client).candidate() == old(client).candidate(),
        worker_step(
            old(client).session(),
            final(client).session(),
            old(client).user(),
            state,
            event,
            now,
            next,
        ),
{
    match (state, event) {
        (WorkerState::WaitingForExpiry, WorkerEvent::Woke) => {
            let (phase, step) = client.refresh_token(RefreshPhase::Refreshing, None, now);
            match step {
                LoginStep::Send(request, awaited) => (
                    WorkerState::Refreshing(phase),
                    WorkerAction::Send(request, awaited),
                ),
                _ => {
                    assert(false);
                    (WorkerState::WaitingForExpiry, WorkerAction::Nothing)
                },
            }
        },
        (WorkerState::Refreshing(phase), WorkerEvent::Reply(reply)) => {
            let step = client.refresh_token(phase, Some(reply), now);
            assert(refresh_step(
                old(client).session(),
                client.session(),
                old(client).user(),
                phase,
                Some(reply),
                now,
                step,
            ));
            match step.1 {
                LoginStep::Send(request, awaited) => (
                    WorkerState::Refreshing(step.0),
                    WorkerAction::Send(request, awaited),
                ),
                LoginStep::Done(expires_at) => (
                    WorkerState::WaitingForExpiry,
                    WorkerAction::Sleep(sleep_secs(expires_at, now, REFRESH_MARGIN_SECS)),
                ),
                LoginStep::Failed(error) => (
                    WorkerState::WaitingForExpiry,
                    WorkerAction::ReportAndSleep(error, BACKOFF_SECS),
                ),
            }
        },
        (state, _) => (state, WorkerAction::Nothing),
    }
}

/// The task that keeps the token fresh goes round and never stops: awake,
/// it starts a refresh by making a call; while it refreshes, it stays with
/// the refresh as long as a call is to be made, and goes back to sleep once
/// the refresh is done or has failed; a failure costs the fixed backoff. A
/// failure of whatever kind ends no step without a next one.
pub proof fn lemma_worker_goes_round(
    before: SessionView,
    after: SessionView,
    user: crate::service::client::UserData,
    state: WorkerState,
    event: WorkerEvent,
    now: i64,
    next: (WorkerState, WorkerAction),
)
    requires
        worker_step(before, after, user, state, event, now, next),
    ensures
        state is WaitingForExpiry && event is Woke ==> next.0 is Refreshing && next.1 is Send,
        state is Refreshing && event is Reply ==> (next.0 is Refreshing && next.1 is Send) || (
        next.0 is WaitingForExpiry && (next.1 is Sleep || next.1 is ReportAndSleep)),
        next.1 matches WorkerAction::ReportAndSleep(_, secs) ==> secs == BACKOFF_SECS,
        next.1 is Nothing ==> next.0 == state && after == before,
{
}

/// A token whose expiry is within the margin, or past, is refreshed at
/// once: the sleep before the refresh is zero, and no sleep is negative.
pub proof fn lemma_expired_token_is_refreshed_at_once(expires_at: int, now: int, margin: int)
    ensures
        spec_sleep_secs(expires_at, now, margin) >= 0,
        expires_at - now - margin <= 0 ==> spec_sleep_secs(expires_at, now, margin) == 0,
        0 < expires_at - now - margin <= i64::MAX ==> spec_sleep_secs(expires_at, now, margin)
            == expires_at - now - margin,
{
}

/// What the task that watches the schedule remembers: the identity of the
/// exam that it told of last.
#[derive(Debug, PartialEq, Eq)]
pub struct Poller {
    pub last_exam_id: String,
}

/// What the task that watches the schedule does after a look at it.
#[derive(Debug)]
pub enum PollAction {
    /// Tell of this exam: the earliest one is another than before.
    Notify(Exam),
    /// Nothing: the earliest exam is the one told of last.
    NoChange,
    /// Report the failure, refresh the token at once, and back off.
    RefreshAndBackOff(GetExamsError),
    /// Report the failure and back off.
    BackOff(GetExamsError),
}

/// The code with which the service says that it refuses the token.
pub const INVALID_TOKEN: &'static str = "invalid_token";

/// Whether a failure says that the service refuses the token: a challenge
/// of that kind, or a list of the service's own errors whose first has that
/// code.
pub open spec fn token_rejected(error: GetExamsError) -> bool {
    match error {
        GetExamsError::GenericClientError(EnrollError::JWTError(e)) => e.0@.error_type
            == INVALID_TOKEN@,
        GetExamsError::GenericClientError(EnrollError::GenericEndpointError(errors)) =>
            errors.first_code() == Some(INVALID_TOKEN@),
        _ => false,
    }
}

/// Whether a failure says that the service refuses the token.
pub fn is_token_rejected(error: &GetExamsError) -> (rejected: bool)
    ensures
        rejected == token_rejected(*error),
{
    match error {
        GetExamsError::GenericClientError(EnrollError::JWTError(e)) => str_eq(
            e.0.error_type.as_str(),
            INVALID_TOKEN,
        ),
        GetExamsError::GenericClientError(EnrollError::GenericEndpointError(errors)) => {
            if errors.0.len() > 0 {
                str_eq(errors.0[0].code.as_str(), INVALID_TOKEN)
            } else {
                false
            }
        },
        _ => false,
    }
}

/// The comparison of the nearest exams with the identity told of last:
/// the identity to remember from now on, and the exam to tell of, if any.
/// Only the earliest exam counts, and of it only the identity.
pub open spec fn compared(last: Seq<char>, exams: Seq<Exam>) -> (Seq<char>, Option<Exam>) {
    if exams.len() > 0 && exams[0].id@ != last {
        (exams[0].id@, Some(exams[0]))
    } else {
        (last, None)
    }
}

impl Poller {
    /// A task that has told of no exam yet.
    pub fn new() -> (poller: Self)
        ensures
            poller.last_exam_id@ == Seq::<char>::empty(),
    {
        Poller { last_exam_id: String::new() }
    }

    /// Compares the nearest exams with what was told of last, and remembers
    /// the earliest where it is another.
    pub fn compare(&mut self, exams: &Vec<Exam>) -> (news: Option<Exam>)
        ensures
            (final(self).last_exam_id@, news) == compared(old(self).last_exam_id@, exams@),
    {
        if exams.len() == 0 {
            return None;
        }
        let earliest = &exams[0];
        if str_eq(earliest.id.as_str(), self.last_exam_id.as_str()) {
            return None;
        }
        self.last_exam_id = earliest.id.clone();
        Some(earliest.clone())
    }

    /// Decides what follows a look at the schedule: after a list of exams,
    /// whether to tell of the earliest; after a failure, whether to refresh
    /// the token before backing off.
    pub fn scheduler(&mut self, looked: Result<Vec<Exam>, GetExamsError>) -> (action: PollAction)
        ensures
            match looked {
                Ok(exams) => match compared(old(self).last_exam_id@, exams@) {
                    (last, Some(exam)) => action matches PollAction::Notify(told) && told == exam
                        && final(self).last_exam_id@ == last,
                    (last, None) => action is NoChange && final(self).last_exam_id@ == last,
                },
                Err(error) => final(self).last_exam_id == old(self).last_exam_id && (
                if token_rejected(error) {
                    action matches PollAction::RefreshAndBackOff(e) && e == error
                } else {
                    action matches PollAction::BackOff(e) && e == error
                }),
            },
    {
        match looked {
            Ok(exams) => match self.compare(&exams) {
                Some(exam) => PollAction::Notify(exam),
                None => PollAction::NoChange,
            },
            Err(error) => {
                if is_token_rejected(&error) {
                    PollAction::RefreshAndBackOff(error)
                } else {
                    PollAction::BackOff(error)
                }
            },
        }
    }
}

impl PollAction {
    /// How long the task pauses after the action before it looks again,
    /// beyond its usual interval: the backoff after a failure, else nothing.
    pub fn pause(&self) -> (secs: u64)
        ensures
            secs == (if self is RefreshAndBackOff || self is BackOff {
                BACKOFF_SECS
            } else {
                0
            }),
    {
        match self {
            PollAction::RefreshAndBackOff(_) => BACKOFF_SECS,
            PollAction::BackOff(_) => BACKOFF_SECS,
            _ => 0,
        }
    }
}

/// Comparing twice with the same exams tells of the earliest at most once:
/// the second comparison tells of nothing and remembers what the first
/// remembered. The first tells of the earliest exam exactly where there is
/// one and its identity is not the one remembered.
pub proof fn lemma_compare_is_idempotent(last: Seq<char>, exams: Seq<Exam>)
    ensures
        compared(compared(last, exams).0, exams) == (compared(last, exams).0, None::<Exam>),
        compared(last, exams).1 is Some <==> exams.len() > 0 && exams[0].id@ != last,
        compared(last, exams).1 matches Some(exam) ==> exam == exams[0],
{
}

/// A comparison looks at nothing but the identity of the earliest exam:
/// lists whose earliest exams share their identity remember the same.
pub proof fn lemma_compare_reads_identity_only(last: Seq<char>, a: Seq<Exam>, b: Seq<Exam>)
    requires
        a.len() > 0,
        b.len() > 0,
        a[0].id@ == b[0].id@,
    ensures
        compared(last, a).0 == compared(last, b).0,
        compared(last, a).1 is Some <==> compared(last, b).1 is Some,
{
}

} // verus!
