//! Withdrawals: the queue of what tenants asked for, and its approval.
use crate::database::{
    rows_view, statement, statement_of_one, text_of, text_or, Answer, AnswerView, Request,
    RequestView, Row, RowView, StatementView,
};
use crate::flow::{
    after_session, ask_permit, by_session, guarded_step, lemma_guarded_step, Stage, StageView, Step,
    StepView,
};
use crate::headers::header_contents;
use crate::reply::{
    error, error_response, message, message_response, success, success_response, Amount, Body,
    BodyView, Reply, ReplyView, Status, Withdrawal, WithdrawalView,
};
use crate::session::{session_view, verify_super_admin, was_judged_at};
use crate::text::{safe_id, sanitized};
use axum::http::HeaderMap;
use vstd::prelude::*;

verus! {

/// Lists the latest withdrawals, with the tenants that asked for them.
pub const LIST_WITHDRAWALS: &'static str = "
        SELECT l.id, l.tenant_id, CAST(l.nominal AS CHAR) as nominal, l.nama_bank, 
        l.nomor_rekening, l.atas_nama, l.status, l.waktu_pengajuan, t.nama_toko, t.nama_pemilik 
        FROM ledger_out l LEFT JOIN tenants t ON l.tenant_id = t.id
        ORDER BY l.waktu_pengajuan DESC LIMIT 500
    ";

/// Marks a withdrawal as done, where it is still pending.
pub const APPROVE_WITHDRAWAL: &'static str =
    "UPDATE ledger_out SET status = 'Selesai', waktu_selesai = CURRENT_TIMESTAMP WHERE id = ? AND status = 'Pending'";

/// The reply to a request that gets no permit.
pub open spec fn server_busy() -> ReplyView {
    error(Status::ServiceUnavailable, "Server sedang sibuk."@)
}

/// The step that follows the answer to the request for a permit to list withdrawals.
pub open spec fn withdrawals_step(answer: AnswerView) -> StepView {
    match answer {
        AnswerView::Permit => StepView::Ask {
            request: RequestView::FetchAll(
                StatementView { sql: LIST_WITHDRAWALS@, params: Seq::empty() },
            ),
            stage: StageView::WithdrawalsRows,
        },
        _ => StepView::Done(server_busy()),
    }
}

/// The withdrawal in a row. A withdrawal of a tenant that is gone shows as anonymous.
pub open spec fn withdrawal_of(row: RowView) -> WithdrawalView {
    WithdrawalView {
        id: text_of(row, "id"@),
        nama_toko: text_or(row, "nama_toko"@, "Anonim"@),
        nama_pemilik: text_or(row, "nama_pemilik"@, "-"@),
        nominal: text_of(row, "nominal"@),
        status: text_of(row, "status"@),
        bank: text_of(row, "nama_bank"@),
        rekening: text_of(row, "nomor_rekening"@),
        atas_nama: text_of(row, "atas_nama"@),
        tanggal: text_of(row, "waktu_pengajuan"@),
    }
}

/// The reply to a request for the withdrawals.
pub open spec fn withdrawals_reply(answer: AnswerView) -> ReplyView {
    match answer {
        AnswerView::Rows(rows) => success(
            BodyView::Withdrawals(rows.map_values(|r: RowView| withdrawal_of(r))),
        ),
        _ => error(Status::InternalServerError, "Gagal memuat antrean."@),
    }
}

/// The step that follows the answer to the request for a permit to approve a withdrawal.
pub open spec fn approval_step(id: Seq<char>, answer: AnswerView) -> StepView {
    match answer {
        AnswerView::Permit => StepView::Ask {
            request: RequestView::Execute(
                StatementView { sql: APPROVE_WITHDRAWAL@, params: seq![id] },
            ),
            stage: StageView::ApprovalChange,
        },
        _ => StepView::Done(server_busy()),
    }
}

/// The reply to an approval: it succeeds where it changed a withdrawal.
pub open spec fn approval_reply(answer: AnswerView) -> ReplyView {
    match answer {
        AnswerView::Changed(n) => if n > 0 {
            message("Transfer Sukses!"@)
        } else {
            error(Status::Conflict, "Pengajuan tidak ditemukan atau sudah diproses."@)
        },
        _ => error(Status::InternalServerError, "Gagal memproses ke database."@),
    }
}

/// Starts to list the withdrawals where the session was let in.
pub fn start_withdrawals(session: Result<String, Reply>) -> (step: Step)
    ensures
        step@ == by_session(session_view(session), ask_permit(StageView::WithdrawalsPermit)),
{
    after_session(
        session,
        Step::Ask { request: Request::Permit, stage: Stage::WithdrawalsPermit },
    )
}

/// Starts to list the withdrawals, for the super admin.
pub fn get_all_withdrawals(headers: &HeaderMap, secret: &str) -> (step: Step)
    ensures
        exists|now: nat|
            step@ == #[trigger] guarded_step(
                header_contents(*headers),
                secret@,
                now,
                ask_permit(StageView::WithdrawalsPermit),
            ) && was_judged_at(header_contents(*headers), secret@, now),
{
    let session = verify_super_admin(headers, secret);
    proof {
        lemma_guarded_step(
            session_view(session),
            header_contents(*headers),
            secret@,
            ask_permit(StageView::WithdrawalsPermit),
        );
    }
    start_withdrawals(session)
}

/// Goes on to list the withdrawals by the answer to the request for a permit.
pub fn fetch_withdrawals(answer: Answer) -> (step: Step)
    ensures
        step@ == withdrawals_step(answer@),
{
    match answer {
        Answer::Permit => Step::Ask {
            request: Request::FetchAll(statement(LIST_WITHDRAWALS)),
            stage: Stage::WithdrawalsRows,
        },
        _ => Step::Done(error_response(Status::ServiceUnavailable, "Server sedang sibuk.")),
    }
}

/// Reads the withdrawal in a row.
pub fn read_withdrawal(row: &Row) -> (withdrawal: Withdrawal)
    ensures
        withdrawal@ == withdrawal_of(row@),
{
    Withdrawal {
        id: row.text("id"),
        nama_toko: row.text_or("nama_toko", "Anonim"),
        nama_pemilik: row.text_or("nama_pemilik", "-"),
        nominal: Amount { text: row.text("nominal") },
        status: row.text("status"),
        bank: row.text("nama_bank"),
        rekening: row.text("nomor_rekening"),
        atas_nama: row.text("atas_nama"),
        tanggal: row.text("waktu_pengajuan"),
    }
}

/// Replies with the withdrawals in the rows.
pub fn list_withdrawals(answer: Answer) -> (reply: Reply)
    ensures
        reply@ == withdrawals_reply(answer@),
{
    match answer {
        Answer::Rows(rows) => {
            let mut list: Vec<Withdrawal> = Vec::new();
            for i in 0..rows.len()
                invariant
                    list.len() == i,
                    forall|j: int| 0 <= j < i ==> #[trigger] list@[j]@ == withdrawal_of(rows@[j]@),
            {
                list.push(read_withdrawal(&rows[i]));
            }
            assert(list@.map_values(|w: Withdrawal| w@) =~= rows_view(rows@).map_values(
                |r: RowView| withdrawal_of(r),
            ));
            success_response(Body::Withdrawals(list))
        },
        _ => error_response(Status::InternalServerError, "Gagal memuat antrean."),
    }
}

/// Starts to approve a withdrawal where the session was let in.
pub fn start_approval(session: Result<String, Reply>, withdrawal_id: &str) -> (step: Step)
    ensures
        step@ == by_session(
            session_view(session),
            ask_permit(StageView::ApprovalPermit { id: sanitized(withdrawal_id@) }),
        ),
{
    let id = safe_id(withdrawal_id);
    after_session(
        session,
        Step::Ask { request: Request::Permit, stage: Stage::ApprovalPermit { id } },
    )
}

/// Starts to approve a withdrawal, for the super admin.
pub fn approve_withdrawal(headers: &HeaderMap, secret: &str, withdrawal_id: &str) -> (step: Step)
    ensures
        exists|now: nat|
            step@ == #[trigger] guarded_step(
                header_contents(*headers),
                secret@,
                now,
                ask_permit(StageView::ApprovalPermit { id: sanitized(withdrawal_id@) }),
            ) && was_judged_at(header_contents(*headers), secret@, now),
{
    let session = verify_super_admin(headers, secret);
    proof {
        lemma_guarded_step(
            session_view(session),
            header_contents(*headers),
            secret@,
            ask_permit(StageView::ApprovalPermit { id: sanitized(withdrawal_id@) }),
        );
    }
    start_approval(session, withdrawal_id)
}

/// Goes on to approve a withdrawal by the answer to the request for a permit.
pub fn mark_withdrawal(id: String, answer: Answer) -> (step: Step)
    ensures
        step@ == approval_step(id@, answer@),
{
    match answer {
        Answer::Permit => Step::Ask {
            request: Request::Execute(statement_of_one(APPROVE_WITHDRAWAL, &id)),
            stage: Stage::ApprovalChange,
        },
        _ => Step::Done(error_response(Status::ServiceUnavailable, "Server sedang sibuk.")),
    }
}

/// Replies to an approval by the number of withdrawals that it changed.
pub fn report_approval(answer: Answer) -> (reply: Reply)
    ensures
        reply@ == approval_reply(answer@),
{
    match answer {
        Answer::Changed(n) => if n > 0 {
            message_response("Transfer Sukses!")
        } else {
            error_response(
                Status::Conflict,
                "Pengajuan tidak ditemukan atau sudah diproses.",
            )
        },
        _ => error_response(Status::InternalServerError, "Gagal memproses ke database."),
    }
}

} // verus!
