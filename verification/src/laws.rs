//! What holds of the server as a whole.
use crate::clock::{expiry, in_calendar, SESSION_HOURS};
use crate::database::{text_of, AnswerView, RequestView, RowView, StatementView};
use crate::flow::{guarded_step, StageView, StepView};
use crate::headers::{
    all_visible, ascii_bytes, ascii_text, first_value, is_header_text, visible, with_header,
    HeaderContents,
};
use crate::login::{checked, wrong_credentials, FIND_ADMIN};
use crate::password::bcrypt_verdict;
use crate::reply::{error, error_headers, message, success_headers, ReplyView, Status};
use crate::server::next_step;
use crate::session::{
    accepted_session, access_denied, admission, bearer_token, invalid_token, is_token_text, lasts,
    no_session, session_at, session_starts, ClaimsView, SessionView, LEEWAY, SUPER_ADMIN,
};
use crate::tenants::{
    balance_of, kyc_start, FIND_INCOME, FIND_TENANT, LIST_BALANCES, LIST_HISTORY, MAX_NUMBER_LEN,
    UPDATE_KYC,
};
use crate::text::{
    ascii_alphanumeric, byte_len, id_char, sanitized, trimmed, trimmed_end, trimmed_start,
    white_space,
};
use crate::withdrawals::{approval_reply, APPROVE_WITHDRAWAL, LIST_WITHDRAWALS};
use vstd::prelude::*;

pub mod replies;
pub mod requests;
pub mod rows;
pub mod sessions;
pub mod text;

verus! {

// Text.

/// An identifier that was cleaned holds letters, digits and hyphens alone.
pub proof fn sanitized_holds_id_chars(s: Seq<char>)
    ensures
        forall|i: int| 0 <= i < sanitized(s).len() ==> id_char(#[trigger] sanitized(s)[i]),
    decreases s.len(),
{
    reveal(Seq::filter);
    if s.len() > 0 {
        sanitized_holds_id_chars(s.drop_last());
    }
}

/// No ASCII sign but the hyphen survives cleaning: no slash, dot, quote, percent or space.
pub proof fn sanitized_drops_ascii_signs(s: Seq<char>, c: char)
    requires
        c <= '\u{7f}',
        !ascii_alphanumeric(c),
        c != '-',
    ensures
        !sanitized(s).contains(c),
{
    sanitized_holds_id_chars(s);
}

/// An identifier that is clean stays as it is.
pub proof fn clean_id_is_kept(s: Seq<char>)
    requires
        forall|i: int| 0 <= i < s.len() ==> id_char(#[trigger] s[i]),
    ensures
        sanitized(s) == s,
    decreases s.len(),
{
    reveal(Seq::filter);
    if s.len() > 0 {
        clean_id_is_kept(s.drop_last());
        assert(s.drop_last().push(s.last()) =~= s);
    }
}

/// Cleaning twice is cleaning once.
pub proof fn sanitized_twice(s: Seq<char>)
    ensures
        sanitized(sanitized(s)) == sanitized(s),
{
    sanitized_holds_id_chars(s);
    clean_id_is_kept(sanitized(s));
}

/// Trimming the start leaves a rest of the text that does not start with white space.
proof fn lemma_trimmed_start(s: Seq<char>)
    ensures
        trimmed_start(s).len() <= s.len(),
        trimmed_start(s).len() > 0 ==> !white_space(trimmed_start(s).first()),
    decreases s.len(),
{
    if s.len() > 0 && white_space(s.first()) {
        lemma_trimmed_start(s.drop_first());
    }
}

/// Trimming the end leaves a beginning of the text that does not end with white space.
proof fn lemma_trimmed_end(s: Seq<char>)
    ensures
        trimmed_end(s).len() <= s.len(),
        trimmed_end(s) == s.take(trimmed_end(s).len() as int),
        trimmed_end(s).len() > 0 ==> !white_space(trimmed_end(s).last()),
    decreases s.len(),
{
    if s.len() > 0 && white_space(s.last()) {
        lemma_trimmed_end(s.drop_last());
        let n = trimmed_end(s).len() as int;
        assert(s.drop_last().take(n) =~= s.take(n));
    } else {
        assert(s.take(s.len() as int) =~= s);
    }
}

/// Trimmed text neither starts nor ends with white space.
pub proof fn trimmed_has_no_outer_space(s: Seq<char>)
    ensures
        trimmed(s).len() > 0 ==> !white_space(trimmed(s).first()),
        trimmed(s).len() > 0 ==> !white_space(trimmed(s).last()),
{
    lemma_trimmed_start(s);
    lemma_trimmed_end(trimmed_start(s));
}

/// Trimming twice is trimming once.
pub proof fn trimmed_twice(s: Seq<char>)
    ensures
        trimmed(trimmed(s)) == trimmed(s),
{
    trimmed_has_no_outer_space(s);
}

// Replies.

/// The first value of a header is the given text.
pub open spec fn header_is(headers: HeaderContents, name: Seq<char>, text: Seq<char>) -> bool {
    first_value(headers, name) == Some(ascii_bytes(text))
}

/// A reply that may be neither sniffed, framed nor cached, that says whether it is an error by
/// its status and its body alike, and that, where it is none, keeps the client on HTTPS.
pub open spec fn is_guarded(reply: ReplyView) -> bool {
    &&& header_is(reply.headers, "x-content-type-options"@, "nosniff"@)
    &&& header_is(reply.headers, "x-frame-options"@, "DENY"@)
    &&& reply.status == Status::Success <==> !(reply.body is Error)
    &&& if reply.status == Status::Success {
        &&& header_is(
            reply.headers,
            "cache-control"@,
            "no-store, no-cache, must-revalidate, max-age=0"@,
        )
        &&& header_is(reply.headers, "pragma"@, "no-cache"@)
        &&& header_is(
            reply.headers,
            "strict-transport-security"@,
            "max-age=31536000; includeSubDomains"@,
        )
    } else {
        header_is(reply.headers, "cache-control"@, "no-store, no-cache, must-revalidate"@)
    }
}

/// The header names that replies use differ.
proof fn lemma_header_names_differ()
    ensures
        "cache-control"@.len() == 13,
        "pragma"@.len() == 6,
        "x-content-type-options"@.len() == 22,
        "x-frame-options"@.len() == 15,
        "strict-transport-security"@.len() == 25,
{
    reveal_strlit("cache-control");
    reveal_strlit("pragma");
    reveal_strlit("x-content-type-options");
    reveal_strlit("x-frame-options");
    reveal_strlit("strict-transport-security");
}

/// A reply with the headers of its status is guarded.
proof fn lemma_guarded(reply: ReplyView)
    requires
        reply.status == Status::Success <==> !(reply.body is Error),
        reply.headers == (if reply.status == Status::Success {
            success_headers()
        } else {
            error_headers()
        }),
    ensures
        is_guarded(reply),
{
    lemma_header_names_differ();
}

/// Every reply that ends the work on a request is guarded.
pub proof fn replies_are_guarded(stage: StageView, answer: AnswerView, now: int)
    ensures
        next_step(stage, answer, now) matches StepView::Done(reply) ==> is_guarded(reply),
{
    if let StepView::Done(reply) = next_step(stage, answer, now) {
        lemma_guarded(reply);
    }
}

/// Every refusal of a session is guarded.
pub proof fn refusals_are_guarded(headers: HeaderContents, secret: Seq<char>, now: nat)
    ensures
        session_at(headers, secret, now) matches Err(refusal) ==> is_guarded(refusal) && (
        refusal.status == Status::Unauthorized || refusal.status == Status::Forbidden),
{
    if let SessionView::Err(refusal) = session_at(headers, secret, now) {
        lemma_guarded(refusal);
    }
}

// Sessions.

/// Whether a request bears, at the time `now`, a token that is taken for the super admin's.
pub open spec fn bears_admin_token(headers: HeaderContents, secret: Seq<char>, now: nat) -> bool {
    &&& bearer_token(headers) matches Some(token)
    &&& accepted_session(token, secret, now) matches Some(claims)
    &&& claims.sub == SUPER_ADMIN@
}

/// Only the super admin gets anything but a refusal, and the super admin gets none. A refused
/// request asks for nothing: no permit, and nothing of the database.
pub proof fn only_the_super_admin_gets_on(
    headers: HeaderContents,
    secret: Seq<char>,
    now: nat,
    granted: StepView,
)
    ensures
        bears_admin_token(headers, secret, now) ==> guarded_step(headers, secret, now, granted)
            == granted,
        !bears_admin_token(headers, secret, now) ==> {
            let step = guarded_step(headers, secret, now, granted);
            ||| step == StepView::Done(no_session())
            ||| step == StepView::Done(invalid_token())
            ||| step == StepView::Done(access_denied())
        },
{
}

/// A token behind `Bearer ` in the header `Authorization` is read as it stands.
pub proof fn bearer_token_is_read(headers: HeaderContents, token: Seq<char>)
    requires
        is_token_text(token),
    ensures
        bearer_token(with_header(headers, "authorization"@, "Bearer "@ + token)) == Some(token),
{
    reveal_strlit("Bearer ");
    let text = "Bearer "@ + token;
    let bytes = ascii_bytes(text);
    assert(is_header_text(text)) by {
        assert forall|i: int| 0 <= i < text.len() implies (' ' <= #[trigger] text[i] <= '~') by {
            if i >= 7 {
                assert(text[i] == token[i - 7]);
            }
        }
    }
    assert(all_visible(bytes)) by {
        assert forall|i: int| 0 <= i < bytes.len() implies visible(
            #[trigger] bytes[i],
        ) by {
            assert(' ' <= text[i] <= '~' || text[i] == '\t');
        }
    }
    assert(ascii_text(bytes) =~= text) by {
        assert forall|i: int| 0 <= i < text.len() implies ascii_text(bytes)[i]
            == text[i] by {
            assert(' ' <= text[i] <= '~' || text[i] == '\t');
        }
    }
    assert("Bearer "@.is_prefix_of(text)) by {
        assert(text.subrange(0, 7) =~= "Bearer "@);
    }
    assert(text.skip(7) =~= token);
    assert(trimmed(token) == token);
}

/// The token that a login hands out, borne by a request, lets the super admin in for the two
/// hours of the session and the leeway beyond them, and is refused as expired from then on.
pub proof fn session_lasts_two_hours(
    headers: HeaderContents,
    token: Seq<char>,
    secret: Seq<char>,
    start: int,
    now: nat,
)
    requires
        session_starts(token, secret, start),
        start + 3600 * SESSION_HOURS <= usize::MAX,
        in_calendar(start),
        LEEWAY <= now,
    ensures
        session_at(with_header(headers, "authorization"@, "Bearer "@ + token), secret, now) == (
        if now <= start + 7200 + 60 {
            SessionView::Ok(SUPER_ADMIN@)
        } else {
            SessionView::Err(invalid_token())
        }),
{
    bearer_token_is_read(headers, token);
    assert(expiry(start) == Some((start + 7200) as usize));
}

/// A request that bears the token of a session gets what that session is due until the leeway
/// beyond its expiry is over, and is refused as expired from then on.
pub proof fn sessions_end_with_their_expiry(
    headers: HeaderContents,
    token: Seq<char>,
    secret: Seq<char>,
    session: ClaimsView,
    now: nat,
)
    requires
        bearer_token(headers) == Some(token),
        lasts(token, secret, session),
        LEEWAY <= now,
    ensures
        session_at(headers, secret, now) == (if now <= session.exp + LEEWAY {
            admission(Some(session))
        } else {
            SessionView::Err(invalid_token())
        }),
{
}

/// A token of a session that is not the super admin's is refused, whatever else it carries.
pub proof fn other_sessions_are_denied(
    headers: HeaderContents,
    token: Seq<char>,
    secret: Seq<char>,
    now: nat,
)
    requires
        bearer_token(headers) == Some(token),
        accepted_session(token, secret, now) matches Some(claims) && claims.sub != SUPER_ADMIN@,
    ensures
        session_at(headers, secret, now) == SessionView::Err(access_denied()),
{
}

// Login.

/// A name that is unknown and a password that is wrong are refused alike.
pub proof fn refused_logins_look_alike(password: Seq<char>, row: RowView)
    requires
        bcrypt_verdict(password, text_of(row, "password_hash"@)) != Some(true),
    ensures
        checked(password, AnswerView::Row(Some(row))) == checked(password, AnswerView::Row(None)),
        checked(password, AnswerView::Row(None)) == Result::<Seq<char>, ReplyView>::Err(
            wrong_credentials(),
        ),
{
}

/// A token is handed out at the end of a login alone, to a password that belongs to the hash of
/// the admin who was found.
pub proof fn sessions_need_the_password(stage: StageView, answer: AnswerView, now: int)
    requires
        next_step(stage, answer, now) matches StepView::Done(reply) && reply.body is Session,
    ensures
        stage matches StageView::LoginAdmin { password, .. } && answer matches AnswerView::Row(
            Some(row),
        ) && bcrypt_verdict(password, text_of(row, "password_hash"@)) == Some(true),
{
}

// The way of a request.

/// How many answers the work at a stage can still take.
pub open spec fn answers_left(stage: StageView) -> nat {
    match stage {
        StageView::TenantPermit { .. } => 4,
        StageView::TenantRow { .. } => 3,
        StageView::TenantHistory { .. } => 2,
        StageView::LoginPermit { .. } => 2,
        StageView::BalancesPermit => 2,
        StageView::WithdrawalsPermit => 2,
        StageView::ApprovalPermit { .. } => 2,
        StageView::KycPermit { .. } => 2,
        _ => 1,
    }
}

/// How many answers the work from a step on can still take.
pub open spec fn steps_left(step: StepView) -> nat {
    match step {
        StepView::Ask { stage, .. } => answers_left(stage),
        StepView::Done(_) => 0,
    }
}

/// Every answer brings the work on a request closer to its end.
pub proof fn answers_bring_the_end_closer(stage: StageView, answer: AnswerView, now: int)
    ensures
        steps_left(next_step(stage, answer, now)) < answers_left(stage),
{
}

/// Where the work on a request stands after the given answers.
pub open spec fn after_answers(step: StepView, answers: Seq<AnswerView>, now: int) -> StepView
    decreases answers.len(),
{
    if answers.len() == 0 {
        step
    } else {
        match step {
            StepView::Ask { stage, .. } => after_answers(
                next_step(stage, answers.first(), now),
                answers.drop_first(),
                now,
            ),
            StepView::Done(_) => step,
        }
    }
}

/// Every request is replied to, after four answers at the latest, whatever they are.
pub proof fn every_request_is_replied_to(step: StepView, answers: Seq<AnswerView>, now: int)
    requires
        answers.len() >= 4,
    ensures
        after_answers(step, answers, now) is Done,
{
    lemma_done_after(step, answers, now);
}

/// The work is done after as many answers as it can take.
proof fn lemma_done_after(step: StepView, answers: Seq<AnswerView>, now: int)
    requires
        answers.len() >= steps_left(step),
    ensures
        after_answers(step, answers, now) is Done,
    decreases answers.len(),
{
    if let StepView::Ask { stage, .. } = step {
        answers_bring_the_end_closer(stage, answers.first(), now);
        lemma_done_after(next_step(stage, answers.first(), now), answers.drop_first(), now);
    }
}

/// Whether a stage awaits the answer to the request for a permit.
pub open spec fn awaits_permit(stage: StageView) -> bool {
    match stage {
        StageView::LoginPermit { .. } => true,
        StageView::BalancesPermit => true,
        StageView::WithdrawalsPermit => true,
        StageView::ApprovalPermit { .. } => true,
        StageView::TenantPermit { .. } => true,
        StageView::KycPermit { .. } => true,
        _ => false,
    }
}

/// The statement that a request hands to the database, if it does.
pub open spec fn statement_in(request: RequestView) -> Option<StatementView> {
    match request {
        RequestView::Permit => None,
        RequestView::FetchOptional(s) => Some(s),
        RequestView::FetchAll(s) => Some(s),
        RequestView::Execute(s) => Some(s),
    }
}

/// Without a permit the database is not used: the request is turned away as the server is busy.
/// With one, a permit is not asked for again.
pub proof fn the_database_needs_a_permit(stage: StageView, answer: AnswerView, now: int)
    ensures
        awaits_permit(stage) && answer != AnswerView::Permit ==> {
            &&& next_step(stage, answer, now) matches StepView::Done(reply)
            &&& reply.status == Status::ServiceUnavailable
        },
        next_step(stage, answer, now) matches StepView::Ask { request, stage: next } ==> {
            &&& statement_in(request) is Some
            &&& !awaits_permit(next)
        },
{
}

/// The texts of all statements that the server knows.
pub open spec fn known_statements() -> Set<Seq<char>> {
    set![
        FIND_ADMIN@,
        LIST_BALANCES@,
        LIST_WITHDRAWALS@,
        APPROVE_WITHDRAWAL@,
        FIND_TENANT@,
        LIST_HISTORY@,
        FIND_INCOME@,
        UPDATE_KYC@,
    ]
}

/// What a client sends never becomes part of the text of a statement.
pub proof fn statements_are_fixed(stage: StageView, answer: AnswerView, now: int)
    ensures
        next_step(stage, answer, now) matches StepView::Ask { request, .. } ==> (statement_in(
            request,
        ) matches Some(s) ==> known_statements().contains(s.sql)),
{
}

// Tenants and withdrawals.

/// The balance that is shown as available is the difference of the two totals beside it.
pub proof fn balances_add_up(row: RowView)
    ensures
        balance_of(row).saldo_tersedia.minuend == balance_of(row).total_masuk,
        balance_of(row).saldo_tersedia.subtrahend == balance_of(row).total_ditarik,
{
}

/// An approval succeeds if and only if it changed a withdrawal.
pub proof fn approvals_change_something(answer: AnswerView)
    ensures
        approval_reply(answer).status == Status::Success <==> (answer matches AnswerView::Changed(
            n,
        ) && n > 0),
{
}

/// A withdrawal as the ledger keeps it.
#[verifier::ext_equal]
pub struct LedgerEntry {
    pub id: Seq<char>,
    pub status: Seq<char>,
    pub waktu_selesai: Option<Seq<char>>,
}

/// Whether an entry is one that an approval of `id` changes, where `same` is how the database
/// compares texts.
pub open spec fn is_pending(
    same: spec_fn(Seq<char>, Seq<char>) -> bool,
    id: Seq<char>,
    entry: LedgerEntry,
) -> bool {
    same(entry.id, id) && same(entry.status, "Pending"@)
}

/// The ledger after an approval of `id` at the time `time`: the pending entries of that id are
/// done, and all others are as before.
pub open spec fn with_approval(
    same: spec_fn(Seq<char>, Seq<char>) -> bool,
    id: Seq<char>,
    time: Seq<char>,
    ledger: Seq<LedgerEntry>,
) -> Seq<LedgerEntry> {
    ledger.map_values(
        |entry: LedgerEntry|
            if is_pending(same, id, entry) {
                LedgerEntry { status: "Selesai"@, waktu_selesai: Some(time), ..entry }
            } else {
                entry
            },
    )
}

/// Whether the database carries out what is asked of it as the text of the approval says: it
/// takes the ledger from `before` to `after`, and answers with the number of entries changed.
pub open spec fn carries_out(
    same: spec_fn(Seq<char>, Seq<char>) -> bool,
    request: RequestView,
    time: Seq<char>,
    before: Seq<LedgerEntry>,
    answer: AnswerView,
    after: Seq<LedgerEntry>,
) -> bool {
    &&& request matches RequestView::Execute(s)
    &&& s.sql == APPROVE_WITHDRAWAL@
    &&& s.params.len() == 1
    &&& answer matches AnswerView::Changed(n)
    &&& n == before.filter(|entry: LedgerEntry| is_pending(same, s.params[0], entry)).len()
    &&& after == with_approval(same, s.params[0], time, before)
}

/// Nothing is left of a sequence by a filter that nothing in it passes, and something is left
/// otherwise.
proof fn lemma_filter_is_empty<A>(s: Seq<A>, keep: spec_fn(A) -> bool)
    ensures
        s.filter(keep).len() == 0 <==> forall|i: int| 0 <= i < s.len() ==> !keep(#[trigger] s[i]),
    decreases s.len(),
{
    reveal(Seq::filter);
    if s.len() > 0 {
        let init = s.drop_last();
        lemma_filter_is_empty(init, keep);
        assert(forall|i: int| 0 <= i < init.len() ==> #[trigger] s[i] == init[i]);
        assert(s.last() == s[s.len() - 1]);
    }
}

/// A withdrawal is approved once. The first approval is replied to with success if and only if
/// an entry of its id was pending. Where none has been set back to pending since, a second one is
/// refused as a conflict and changes nothing, the time of the first included. The database is
/// taken to carry out both statements as they are written, and to tell done from pending.
pub proof fn withdrawals_are_approved_once(
    same: spec_fn(Seq<char>, Seq<char>) -> bool,
    raw: Seq<char>,
    now: int,
    before: Seq<LedgerEntry>,
    first_time: Seq<char>,
    first_answer: AnswerView,
    after: Seq<LedgerEntry>,
    later: Seq<LedgerEntry>,
    second_time: Seq<char>,
    second_answer: AnswerView,
    end: Seq<LedgerEntry>,
)
    requires
        !same("Selesai"@, "Pending"@),
        ({
            let asked = next_step(
                StageView::ApprovalPermit { id: sanitized(raw) },
                AnswerView::Permit,
                now,
            );
            &&& carries_out(same, asked->request, first_time, before, first_answer, after)
            &&& carries_out(same, asked->request, second_time, later, second_answer, end)
        }),
        forall|i: int|
            0 <= i < later.len() && is_pending(same, sanitized(raw), #[trigger] later[i])
                ==> after.contains(later[i]),
    ensures
        ({
            let asked = next_step(
                StageView::ApprovalPermit { id: sanitized(raw) },
                AnswerView::Permit,
                now,
            );
            &&& next_step(asked->stage, first_answer, now) == (if exists|i: int|
                0 <= i < before.len() && is_pending(same, sanitized(raw), #[trigger] before[i]) {
                StepView::Done(message("Transfer Sukses!"@))
            } else {
                StepView::Done(
                    error(Status::Conflict, "Pengajuan tidak ditemukan atau sudah diproses."@),
                )
            })
            &&& next_step(asked->stage, second_answer, now) == StepView::Done(
                error(Status::Conflict, "Pengajuan tidak ditemukan atau sudah diproses."@),
            )
            &&& end == later
        }),
{
    let id = sanitized(raw);
    let pending = |entry: LedgerEntry| is_pending(same, id, entry);
    lemma_filter_is_empty(before, pending);
    lemma_filter_is_empty(later, pending);
    assert(forall|i: int| 0 <= i < after.len() ==> !is_pending(same, id, #[trigger] after[i]));
    assert(end =~= later);
}

/// A tenant that was found is shown, whatever becomes of the search for its money.
pub proof fn a_found_tenant_is_shown(
    id: Seq<char>,
    tenant: RowView,
    history: AnswerView,
    income: AnswerView,
    now: int,
)
    ensures
        next_step(StageView::TenantHistory { id, tenant }, history, now) matches StepView::Ask {
            stage,
            ..
        } && next_step(stage, income, now) matches StepView::Done(reply) && reply.status
            == Status::Success && reply.body is Tenant,
{
}

/// Whether a step hands the database a statement with `id` as its one parameter.
pub open spec fn asks_for_id(step: StepView, id: Seq<char>) -> bool {
    &&& step matches StepView::Ask { request, .. }
    &&& statement_in(request) matches Some(s)
    &&& s.params == seq![id]
}

/// The identifier of a withdrawal reaches the database as it was cleaned.
pub proof fn approvals_ask_for_the_clean_id(raw: Seq<char>, now: int)
    ensures
        asks_for_id(
            next_step(
                StageView::ApprovalPermit { id: sanitized(raw) },
                AnswerView::Permit,
                now,
            ),
            sanitized(raw),
        ),
        sanitized(sanitized(raw)) == sanitized(raw),
{
    sanitized_twice(raw);
}

/// The identifier of a tenant reaches the database as it was cleaned, in each of the three
/// statements that show the tenant.
pub proof fn tenants_are_asked_for_by_the_clean_id(
    raw: Seq<char>,
    tenant: RowView,
    history: AnswerView,
    now: int,
)
    ensures
        ({
            let id = sanitized(raw);
            let first = next_step(StageView::TenantPermit { id }, AnswerView::Permit, now);
            let second = next_step(first->stage, AnswerView::Row(Some(tenant)), now);
            let third = next_step(second->stage, history, now);
            &&& asks_for_id(first, id)
            &&& asks_for_id(second, id)
            &&& asks_for_id(third, id)
            &&& sanitized(id) == id
        }),
{
    sanitized_twice(raw);
}

/// The numbers that an update stores are trimmed and not too long, and the tenant's identifier
/// is clean. An update with a number that is too long is refused before anything is asked for.
pub proof fn papers_are_stored_trimmed_and_short(
    id: Seq<char>,
    no_ktp: Seq<char>,
    no_npwp: Seq<char>,
    now: int,
)
    ensures
        byte_len(trimmed(no_ktp)) > MAX_NUMBER_LEN || byte_len(trimmed(no_npwp)) > MAX_NUMBER_LEN
            ==> {
            &&& kyc_start(id, no_ktp, no_npwp) matches StepView::Done(reply)
            &&& reply.status == Status::BadRequest
        },
        kyc_start(id, no_ktp, no_npwp) matches StepView::Ask { stage, .. } ==> {
            &&& next_step(stage, AnswerView::Permit, now) matches StepView::Ask { request, .. }
            &&& request matches RequestView::Execute(s)
            &&& s.sql == UPDATE_KYC@
            &&& s.params == seq![trimmed(no_ktp), trimmed(no_npwp), sanitized(id)]
            &&& byte_len(s.params[0]) <= MAX_NUMBER_LEN
            &&& byte_len(s.params[1]) <= MAX_NUMBER_LEN
            &&& trimmed(s.params[0]) == s.params[0]
            &&& trimmed(s.params[1]) == s.params[1]
            &&& sanitized(s.params[2]) == s.params[2]
        },
{
    trimmed_twice(no_ktp);
    trimmed_twice(no_npwp);
    sanitized_twice(id);
}

} // verus!
