//! Login: a username and a password against a session.
use crate::clock::{clock_showed, in_calendar, read_clock};
use crate::database::{
    statement_of_one, text_of, Answer, AnswerView, Request, RequestView, StatementView,
};
use crate::flow::{ask_permit, Stage, StageView, Step, StepView};
use crate::password::{bcrypt_verdict, password_verdict};
use crate::reply::{
    error, error_response, success, success_response, Body, BodyView, Reply, ReplyView, Status,
};
use crate::session::{issue_token, issued_token, session_starts};
use vstd::prelude::*;

verus! {

/// What a login sends.
#[derive(Debug)]
pub struct LoginPayload {
    pub username: String,
    pub password: String,
}

/// Finds an admin by name.
pub const FIND_ADMIN: &'static str =
    "SELECT username, password_hash FROM super_admins WHERE username = ? LIMIT 1";

/// The reply to a name or a password that is wrong. It does not tell which.
pub open spec fn wrong_credentials() -> ReplyView {
    error(Status::Unauthorized, "Kredensial salah."@)
}

/// The step that follows the answer to the request for a permit.
pub open spec fn admin_step(
    username: Seq<char>,
    password: Seq<char>,
    secret: Seq<char>,
    answer: AnswerView,
) -> StepView {
    match answer {
        AnswerView::Permit => StepView::Ask {
            request: RequestView::FetchOptional(
                StatementView { sql: FIND_ADMIN@, params: seq![username] },
            ),
            stage: StageView::LoginAdmin { password, secret },
        },
        _ => StepView::Done(
            error(Status::ServiceUnavailable, "Server sedang menyeimbangkan beban."@),
        ),
    }
}

/// Who logs in by the verdict on the password, or the refusal.
pub open spec fn judged(username: Seq<char>, verdict: Option<bool>) -> Result<
    Seq<char>,
    ReplyView,
> {
    if verdict == Some(true) {
        Ok(username)
    } else {
        Err(wrong_credentials())
    }
}

/// Who logs in by the password and the row of the admin, or the refusal.
pub open spec fn checked(password: Seq<char>, answer: AnswerView) -> Result<
    Seq<char>,
    ReplyView,
> {
    match answer {
        AnswerView::Row(Some(row)) => judged(
            text_of(row, "username"@),
            bcrypt_verdict(password, text_of(row, "password_hash"@)),
        ),
        AnswerView::Row(None) => Err(wrong_credentials()),
        _ => Err(error(Status::InternalServerError, "Database sibuk."@)),
    }
}

/// The reply to a login that succeeded, by the token that was issued, if one was.
pub open spec fn session_reply(username: Seq<char>, token: Option<Seq<char>>) -> ReplyView {
    match token {
        Some(token) => success(BodyView::Session { message: "Sukses"@, token, username }),
        None => error(Status::InternalServerError, "Gagal memproses tiket sesi."@),
    }
}

/// The reply to a login that is decided at `now`.
pub open spec fn login_reply(
    password: Seq<char>,
    secret: Seq<char>,
    answer: AnswerView,
    now: int,
) -> ReplyView {
    match checked(password, answer) {
        Ok(username) => session_reply(username, issued_token(secret, now)),
        Err(refusal) => refusal,
    }
}

/// The login that `outcome` stands for.
pub open spec fn outcome_view(outcome: Result<String, Reply>) -> Result<Seq<char>, ReplyView> {
    match outcome {
        Ok(username) => Ok(username@),
        Err(refusal) => Err(refusal@),
    }
}

/// Starts a login.
pub fn login(payload: LoginPayload, secret: String) -> (step: Step)
    ensures
        step@ == ask_permit(
            StageView::LoginPermit {
                username: payload.username@,
                password: payload.password@,
                secret: secret@,
            },
        ),
{
    Step::Ask {
        request: Request::Permit,
        stage: Stage::LoginPermit {
            username: payload.username,
            password: payload.password,
            secret,
        },
    }
}

/// Goes on with a login by the answer to the request for a permit.
pub fn find_admin(username: String, password: String, secret: String, answer: Answer) -> (step:
    Step)
    ensures
        step@ == admin_step(username@, password@, secret@, answer@),
{
    match answer {
        Answer::Permit => Step::Ask {
            request: Request::FetchOptional(statement_of_one(FIND_ADMIN, &username)),
            stage: Stage::LoginAdmin { password, secret },
        },
        _ => Step::Done(
            error_response(
                Status::ServiceUnavailable,
                "Server sedang menyeimbangkan beban.",
            ),
        ),
    }
}

/// Decides a login by the verdict on the password. Without a verdict nobody is let in.
pub fn judge(username: String, verdict: Option<bool>) -> (outcome: Result<String, Reply>)
    ensures
        outcome_view(outcome) == judged(username@, verdict),
{
    match verdict {
        Some(true) => Ok(username),
        _ => Err(error_response(Status::Unauthorized, "Kredensial salah.")),
    }
}

/// Decides a login by the password and the row of the admin.
pub fn check_credentials(password: &str, answer: Answer) -> (outcome: Result<String, Reply>)
    ensures
        outcome_view(outcome) == checked(password@, answer@),
{
    match answer {
        Answer::Row(Some(row)) => {
            let username = row.text("username");
            let hash = row.text("password_hash");
            judge(username, password_verdict(password, hash.as_str()))
        },
        Answer::Row(None) => Err(error_response(Status::Unauthorized, "Kredensial salah.")),
        _ => Err(error_response(Status::InternalServerError, "Database sibuk.")),
    }
}

/// Replies to a login that succeeded, with the token that was issued, if one was.
pub fn session_response(username: String, token: Option<String>) -> (reply: Reply)
    ensures
        token matches Some(t) ==> reply@ == session_reply(username@, Some(t@)),
        token is None ==> reply@ == session_reply(username@, None),
{
    match token {
        Some(token) => success_response(
            Body::Session { message: "Sukses".to_string(), token, username },
        ),
        None => error_response(Status::InternalServerError, "Gagal memproses tiket sesi."),
    }
}

/// Replies to a login that succeeded at `now`, with the token of a session that starts then.
pub fn start_session(username: String, secret: &str, now: i64) -> (reply: Reply)
    requires
        in_calendar(now as int),
    ensures
        reply@ == session_reply(username@, issued_token(secret@, now as int)),
        reply@.body matches BodyView::Session { token, .. } ==> session_starts(
            token,
            secret@,
            now as int,
        ),
{
    session_response(username, issue_token(secret, now))
}

/// Replies to a login by the row of the admin. A session that is granted starts now.
pub fn finish_login(password: &str, secret: &str, answer: Answer) -> (reply: Reply)
    ensures
        exists|now: int|
            in_calendar(now) && reply@ == #[trigger] login_reply(password@, secret@, answer@, now)
                && (reply@.body matches BodyView::Session { token, .. } ==> session_starts(
                token,
                secret@,
                now,
            )) && (checked(password@, answer@) is Ok ==> clock_showed(now)),
        checked(password@, answer@) matches Err(refusal) ==> reply@ == refusal,
{
    let ghost given = answer@;
    match check_credentials(password, answer) {
        Ok(username) => {
            let now: i64 = read_clock();
            let reply = start_session(username, secret, now);
            assert(reply@ == login_reply(password@, secret@, given, now as int));
            reply
        },
        Err(refusal) => {
            assert(refusal@ == login_reply(password@, secret@, given, 0));
            refusal
        },
    }
}

} // verus!
