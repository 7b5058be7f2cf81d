//! The server as a whole: its settings, and the way of a request from stage to stage.
use crate::clock::{clock_showed, in_calendar};
use crate::database::{Answer, AnswerView};
use crate::flow::{Stage, StageView, Step, StepView};
use crate::headers::{is_header_name, is_header_text};
use crate::login::{admin_step, checked, find_admin, finish_login, login_reply};
use crate::reply::BodyView;
use crate::session::session_starts;
use crate::tenants::{
    balances_reply, balances_step, fetch_balances, fetch_history, find_income, find_tenant,
    history_step, income_step, kyc_reply, kyc_step, list_balances, report_kyc, show_tenant,
    store_kyc, tenant_reply, tenant_step,
};
use crate::withdrawals::{
    approval_reply, approval_step, fetch_withdrawals, list_withdrawals, mark_withdrawal,
    report_approval, withdrawals_reply, withdrawals_step,
};
use vstd::prelude::*;
use vstd::string::*;

verus! {

/// How many requests may use the database at a time.
pub const PERMITS: usize = 5;

/// The step that follows the answer that a stage awaits, at the time `now`. Any answer but the
/// one awaited counts as a failure.
pub open spec fn next_step(stage: StageView, answer: AnswerView, now: int) -> StepView {
    match stage {
        StageView::LoginPermit { username, password, secret } => admin_step(
            username,
            password,
            secret,
            answer,
        ),
        StageView::LoginAdmin { password, secret } => StepView::Done(
            login_reply(password, secret, answer, now),
        ),
        StageView::BalancesPermit => balances_step(answer),
        StageView::BalancesRows => StepView::Done(balances_reply(answer)),
        StageView::WithdrawalsPermit => withdrawals_step(answer),
        StageView::WithdrawalsRows => StepView::Done(withdrawals_reply(answer)),
        StageView::ApprovalPermit { id } => approval_step(id, answer),
        StageView::ApprovalChange => StepView::Done(approval_reply(answer)),
        StageView::TenantPermit { id } => tenant_step(id, answer),
        StageView::TenantRow { id } => history_step(id, answer),
        StageView::TenantHistory { id, tenant } => income_step(id, tenant, answer),
        StageView::TenantIncome { tenant, history } => StepView::Done(
            tenant_reply(tenant, history, answer),
        ),
        StageView::KycPermit { id, no_ktp, no_npwp } => kyc_step(id, no_ktp, no_npwp, answer),
        StageView::KycChange => StepView::Done(kyc_reply(answer)),
    }
}

/// Whether a step that hands out a token does so at the end of a login, and the token is that of
/// a session that starts at `now`.
pub open spec fn grants_session_at(stage: StageView, step: StepView, now: int) -> bool {
    step matches StepView::Done(reply) ==> reply.body matches BodyView::Session { token, .. } ==> {
        &&& stage matches StageView::LoginAdmin { secret, .. }
        &&& session_starts(token, secret, now)
    }
}

/// Whether the clock showed `now` where the step from a stage depends on the time: where it grants
/// a session.
pub open spec fn is_timely(stage: StageView, answer: AnswerView, now: int) -> bool {
    stage matches StageView::LoginAdmin { password, .. } ==> checked(password, answer) is Ok
        ==> clock_showed(now)
}

/// Goes on from a stage by the answer that it awaits. Only the end of a login depends on the
/// time, and of a login only one that succeeds.
pub fn resume(stage: Stage, answer: Answer) -> (step: Step)
    ensures
        exists|now: int|
            in_calendar(now) && step@ == #[trigger] next_step(stage@, answer@, now)
                && grants_session_at(stage@, step@, now) && is_timely(stage@, answer@, now),
        (stage@ matches StageView::LoginAdmin { password, .. } ==> checked(
            password,
            answer@,
        ) is Err) ==> step@ == next_step(stage@, answer@, 0),
{
    let ghost from = stage@;
    let ghost given = answer@;
    let step = match stage {
        Stage::LoginPermit { username, password, secret } => find_admin(
            username,
            password,
            secret,
            answer,
        ),
        Stage::LoginAdmin { password, secret } => {
            let reply = finish_login(password.as_str(), secret.as_str(), answer);
            proof {
                let now = choose|now: int|
                    in_calendar(now) && reply@ == #[trigger] login_reply(
                        password@,
                        secret@,
                        given,
                        now,
                    ) && (reply@.body matches BodyView::Session { token, .. } ==> session_starts(
                        token,
                        secret@,
                        now,
                    )) && (checked(password@, given) is Ok ==> clock_showed(now));
                assert(StepView::Done(reply@) == next_step(from, given, now));
                assert(grants_session_at(from, StepView::Done(reply@), now));
                assert(is_timely(from, given, now));
            }
            Step::Done(reply)
        },
        Stage::BalancesPermit => fetch_balances(answer),
        Stage::BalancesRows => Step::Done(list_balances(answer)),
        Stage::WithdrawalsPermit => fetch_withdrawals(answer),
        Stage::WithdrawalsRows => Step::Done(list_withdrawals(answer)),
        Stage::ApprovalPermit { id } => mark_withdrawal(id, answer),
        Stage::ApprovalChange => Step::Done(report_approval(answer)),
        Stage::TenantPermit { id } => find_tenant(id, answer),
        Stage::TenantRow { id } => fetch_history(id, answer),
        Stage::TenantHistory { id, tenant } => find_income(id, tenant, answer),
        Stage::TenantIncome { tenant, history } => Step::Done(
            show_tenant(tenant, history, answer),
        ),
        Stage::KycPermit { id, no_ktp, no_npwp } => store_kyc(id, no_ktp, no_npwp, answer),
        Stage::KycChange => Step::Done(report_kyc(answer)),
    };
    proof {
        if !(from is LoginAdmin) {
            assert(step@ == next_step(from, given, 0));
        }
    }
    step
}

/// The address that the server listens on, by the port that the environment names.
pub open spec fn address_of(port: Option<Seq<char>>) -> Seq<char> {
    "0.0.0.0:"@ + match port {
        Some(port) => port,
        None => "8000"@,
    }
}

/// Picks the address that the server listens on.
pub fn bind_address(port: Option<String>) -> (address: String)
    ensures
        port matches Some(p) ==> address@ == address_of(Some(p@)),
        port is None ==> address@ == address_of(None),
{
    let mut address = "0.0.0.0:".to_string();
    match port {
        Some(port) => address.append(port.as_str()),
        None => address.append("8000"),
    }
    address
}

/// A header by its name and its text.
pub open spec fn header_pair(header: (&str, &str)) -> (Seq<char>, Seq<char>) {
    (header.0@, header.1@)
}

/// The headers that every response of the server carries, whatever it responds to.
pub open spec fn global_header_pairs() -> Seq<(Seq<char>, Seq<char>)> {
    seq![
        ("x-content-type-options"@, "nosniff"@),
        ("x-frame-options"@, "DENY"@),
        ("strict-transport-security"@, "max-age=31536000; includeSubDomains"@),
        ("x-xss-protection"@, "1; mode=block"@),
    ]
}

/// Lists the headers that every response of the server carries. All are well-formed.
pub fn global_headers() -> (list: Vec<(&'static str, &'static str)>)
    ensures
        list@.map_values(|h: (&'static str, &'static str)| header_pair(h))
            == global_header_pairs(),
        forall|i: int|
            0 <= i < list.len() ==> is_header_name((#[trigger] list@[i]).0@) && is_header_text(
                list@[i].1@,
            ),
{
    let mut list: Vec<(&'static str, &'static str)> = Vec::new();
    list.push(("x-content-type-options", "nosniff"));
    list.push(("x-frame-options", "DENY"));
    list.push(("strict-transport-security", "max-age=31536000; includeSubDomains"));
    list.push(("x-xss-protection", "1; mode=block"));
    proof {
        reveal_strlit("x-content-type-options");
        reveal_strlit("nosniff");
        reveal_strlit("x-frame-options");
        reveal_strlit("DENY");
        reveal_strlit("strict-transport-security");
        reveal_strlit("max-age=31536000; includeSubDomains");
        reveal_strlit("x-xss-protection");
        reveal_strlit("1; mode=block");
        assert(list@.map_values(|h: (&'static str, &'static str)| header_pair(h))
            =~= global_header_pairs());
    }
    list
}

} // verus!
