//! How the work on a request proceeds: the server asks for something, goes on by the answer,
//! and in the end replies.
use crate::database::{rows_view, Request, RequestView, Row, RowView};
use crate::headers::HeaderContents;
use crate::reply::{Reply, ReplyView};
use crate::session::{session_at, session_view, was_judged_at, SessionView};
use vstd::prelude::*;

verus! {

/// Where the work on a request stands while an answer is awaited, with what is still needed.
#[derive(Debug)]
pub enum Stage {
    LoginPermit { username: String, password: String, secret: String },
    LoginAdmin { password: String, secret: String },
    BalancesPermit,
    BalancesRows,
    WithdrawalsPermit,
    WithdrawalsRows,
    ApprovalPermit { id: String },
    ApprovalChange,
    TenantPermit { id: String },
    TenantRow { id: String },
    TenantHistory { id: String, tenant: Row },
    TenantIncome { tenant: Row, history: Vec<Row> },
    KycPermit { id: String, no_ktp: String, no_npwp: String },
    KycChange,
}

/// A stage, by its texts and rows.
#[verifier::ext_equal]
pub enum StageView {
    LoginPermit { username: Seq<char>, password: Seq<char>, secret: Seq<char> },
    LoginAdmin { password: Seq<char>, secret: Seq<char> },
    BalancesPermit,
    BalancesRows,
    WithdrawalsPermit,
    WithdrawalsRows,
    ApprovalPermit { id: Seq<char> },
    ApprovalChange,
    TenantPermit { id: Seq<char> },
    TenantRow { id: Seq<char> },
    TenantHistory { id: Seq<char>, tenant: RowView },
    TenantIncome { tenant: RowView, history: Seq<RowView> },
    KycPermit { id: Seq<char>, no_ktp: Seq<char>, no_npwp: Seq<char> },
    KycChange,
}

impl View for Stage {
    type V = StageView;

    open spec fn view(&self) -> StageView {
        match self {
            Stage::LoginPermit { username, password, secret } => StageView::LoginPermit {
                username: username@,
                password: password@,
                secret: secret@,
            },
            Stage::LoginAdmin { password, secret } => StageView::LoginAdmin {
                password: password@,
                secret: secret@,
            },
            Stage::BalancesPermit => StageView::BalancesPermit,
            Stage::BalancesRows => StageView::BalancesRows,
            Stage::WithdrawalsPermit => StageView::WithdrawalsPermit,
            Stage::WithdrawalsRows => StageView::WithdrawalsRows,
            Stage::ApprovalPermit { id } => StageView::ApprovalPermit { id: id@ },
            Stage::ApprovalChange => StageView::ApprovalChange,
            Stage::TenantPermit { id } => StageView::TenantPermit { id: id@ },
            Stage::TenantRow { id } => StageView::TenantRow { id: id@ },
            Stage::TenantHistory { id, tenant } => StageView::TenantHistory {
                id: id@,
                tenant: tenant@,
            },
            Stage::TenantIncome { tenant, history } => StageView::TenantIncome {
                tenant: tenant@,
                history: rows_view(history@),
            },
            Stage::KycPermit { id, no_ktp, no_npwp } => StageView::KycPermit {
                id: id@,
                no_ktp: no_ktp@,
                no_npwp: no_npwp@,
            },
            Stage::KycChange => StageView::KycChange,
        }
    }
}

/// What the server does next: ask for something, to go on from a stage by the answer, or reply.
#[derive(Debug)]
pub enum Step {
    Ask { request: Request, stage: Stage },
    Done(Reply),
}

/// A step, by what it asks for or replies.
#[verifier::ext_equal]
pub enum StepView {
    Ask { request: RequestView, stage: StageView },
    Done(ReplyView),
}

impl View for Step {
    type V = StepView;

    open spec fn view(&self) -> StepView {
        match self {
            Step::Ask { request, stage } => StepView::Ask { request: request@, stage: stage@ },
            Step::Done(reply) => StepView::Done(reply@),
        }
    }
}

/// The step that asks for a permit.
pub open spec fn ask_permit(stage: StageView) -> StepView {
    StepView::Ask { request: RequestView::Permit, stage }
}

/// The step of a request by the session that it was let in with: `granted`, or the refusal.
pub open spec fn by_session(session: SessionView, granted: StepView) -> StepView {
    match session {
        Ok(_) => granted,
        Err(refusal) => StepView::Done(refusal),
    }
}

/// The first step, at the time `now`, of a request that only the super admin may make.
pub open spec fn guarded_step(
    headers: HeaderContents,
    secret: Seq<char>,
    now: nat,
    granted: StepView,
) -> StepView {
    by_session(session_at(headers, secret, now), granted)
}

/// A step by the session that a request was let in with is its first step at some time, and at the
/// time at which it was judged where the session is of that time.
pub proof fn lemma_guarded_step(
    session: SessionView,
    headers: HeaderContents,
    secret: Seq<char>,
    granted: StepView,
)
    requires
        exists|now: nat| session == #[trigger] session_at(headers, secret, now),
    ensures
        exists|now: nat|
            by_session(session, granted) == #[trigger] guarded_step(headers, secret, now, granted),
        (exists|now: nat|
            session == #[trigger] session_at(headers, secret, now) && was_judged_at(
                headers,
                secret,
                now,
            )) ==> exists|now: nat|
            by_session(session, granted) == #[trigger] guarded_step(headers, secret, now, granted)
                && was_judged_at(headers, secret, now),
{
    let now = choose|now: nat| session == #[trigger] session_at(headers, secret, now);
    assert(by_session(session, granted) == guarded_step(headers, secret, now, granted));
    if exists|now: nat|
        session == #[trigger] session_at(headers, secret, now) && was_judged_at(
            headers,
            secret,
            now,
        ) {
        let judged = choose|now: nat|
            session == #[trigger] session_at(headers, secret, now) && was_judged_at(
                headers,
                secret,
                now,
            );
        assert(by_session(session, granted) == guarded_step(headers, secret, judged, granted));
    }
}

/// Goes on to `granted` where the session was let in, and refuses the request otherwise.
pub fn after_session(session: Result<String, Reply>, granted: Step) -> (step: Step)
    ensures
        step@ == by_session(session_view(session), granted@),
{
    match session {
        Ok(_) => granted,
        Err(refusal) => Step::Done(refusal),
    }
}

} // verus!
