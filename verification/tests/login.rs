use bakoel_super_admin::database::{Answer, Cell, Request, Row};
use bakoel_super_admin::flow::{Stage, Step};
use bakoel_super_admin::login::{judge, login, session_response, start_session, LoginPayload};
use bakoel_super_admin::password::password_verdict;
use bakoel_super_admin::reply::{Body, Reply, Status};
use bakoel_super_admin::server::resume;
use bakoel_super_admin::session::accept_token;

const HASH: &str = "$2a$04$UuTkLRZZ6QofpDOlMz32MuuxEHA43WOemOYHPz6.SjsVsyO1tDU96";

fn start(username: &str, password: &str) -> (Request, Stage) {
    let payload =
        LoginPayload { username: username.to_string(), password: password.to_string() };
    match login(payload, "rahasia".to_string()) {
        Step::Ask { request, stage } => (request, stage),
        Step::Done(reply) => panic!("{:?}", reply),
    }
}

fn with_permit(password: &str) -> Stage {
    match resume(start("boss", password).1, Answer::Permit) {
        Step::Ask { stage, .. } => stage,
        Step::Done(reply) => panic!("{:?}", reply),
    }
}

fn admin(hash: Option<&str>) -> Answer {
    Answer::Row(Some(Row {
        cells: vec![
            Cell { column: "username".to_string(), text: Some("Boss".to_string()) },
            Cell { column: "password_hash".to_string(), text: hash.map(|h| h.to_string()) },
        ],
    }))
}

fn reply(step: Step) -> Reply {
    match step {
        Step::Done(reply) => reply,
        Step::Ask { request, .. } => panic!("{:?}", request),
    }
}

fn error(reply: Reply) -> (Status, String) {
    match reply.body {
        Body::Error { error } => (reply.status, error),
        other => panic!("{:?}", other),
    }
}

fn wrong() -> (Status, String) {
    (Status::Unauthorized, "Kredensial salah.".to_string())
}

#[test]
fn a_login_asks_for_a_permit_first() {
    assert!(matches!(start("boss", "password").0, Request::Permit));
}

#[test]
fn a_login_without_a_permit_is_turned_away() {
    for answer in [Answer::Failed, Answer::Row(None), Answer::Changed(1)] {
        assert_eq!(
            error(reply(resume(start("boss", "password").1, answer))),
            (
                Status::ServiceUnavailable,
                "Server sedang menyeimbangkan beban.".to_string()
            )
        );
    }
}

#[test]
fn a_login_looks_for_the_admin() {
    match resume(start("bo'ss", "password").1, Answer::Permit) {
        Step::Ask { request: Request::FetchOptional(statement), stage } => {
            assert_eq!(
                statement.sql,
                "SELECT username, password_hash FROM super_admins WHERE username = ? LIMIT 1"
            );
            assert_eq!(statement.params, vec!["bo'ss".to_string()]);
            assert!(matches!(stage, Stage::LoginAdmin { .. }));
        }
        other => panic!("{:?}", other),
    }
}

#[test]
fn the_right_password_gets_a_session() {
    let reply = reply(resume(with_permit("password"), admin(Some(HASH))));
    assert_eq!(reply.status, Status::Success);
    match reply.body {
        Body::Session { message, token, username } => {
            assert_eq!(message, "Sukses");
            assert_eq!(username, "Boss");
            let claims = accept_token(&token, "rahasia").unwrap();
            assert_eq!(claims.sub, "SUPER-BOSS");
            let left = claims.exp as i64 - chrono::Utc::now().timestamp();
            assert!(7195 <= left && left <= 7200);
        }
        other => panic!("{:?}", other),
    }
}

#[test]
fn the_wrong_password_and_an_unknown_name_are_refused_alike() {
    assert_eq!(error(reply(resume(with_permit("passwort"), admin(Some(HASH))))), wrong());
    assert_eq!(error(reply(resume(with_permit("password"), Answer::Row(None)))), wrong());
}

#[test]
fn a_malformed_hash_lets_nobody_in() {
    for hash in [None, Some(""), Some("password"), Some("$2a$04$kurz")] {
        assert_eq!(error(reply(resume(with_permit("password"), admin(hash)))), wrong());
    }
}

#[test]
fn a_login_reports_a_database_that_fails() {
    assert_eq!(
        error(reply(resume(with_permit("password"), Answer::Failed))),
        (Status::InternalServerError, "Database sibuk.".to_string())
    );
}

#[test]
fn passwords_are_held_against_hashes() {
    assert_eq!(password_verdict("password", HASH), Some(true));
    assert_eq!(password_verdict("passwore", HASH), Some(false));
    assert_eq!(password_verdict("password", "password"), None);
}

#[test]
fn logins_are_judged_by_the_verdict() {
    assert_eq!(judge("a".to_string(), Some(true)).unwrap(), "a");
    assert_eq!(error(judge("a".to_string(), Some(false)).unwrap_err()), wrong());
    assert_eq!(error(judge("a".to_string(), None).unwrap_err()), wrong());
}

#[test]
fn a_login_without_a_token_fails() {
    let failed = (Status::InternalServerError, "Gagal memproses tiket sesi.".to_string());
    assert_eq!(error(session_response("a".to_string(), None)), failed);
    assert_eq!(error(start_session("a".to_string(), "s", 8_210_266_876_799)), failed);
    let reply = session_response("a".to_string(), Some("t".to_string()));
    assert!(matches!(reply.body, Body::Session { token, username, .. }
        if token == "t" && username == "a"));
}
