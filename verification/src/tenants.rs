//! Tenants: their balances, their profiles and the numbers of their papers.
use crate::database::{
    rows_view, statement, statement_of_one, statement_of_three, text_of, Answer, AnswerView,
    Request, RequestView, Row, RowView, StatementView,
};
use crate::flow::{
    after_session, ask_permit, by_session, guarded_step, lemma_guarded_step, Stage, StageView, Step,
    StepView,
};
use crate::headers::header_contents;
use crate::reply::{
    error, error_response, message, message_response, success, success_response, Amount, Balance,
    BalanceView, Body, BodyView, Difference, DifferenceView, Finances, FinancesView, HistoryEntry,
    HistoryEntryView, Profile, ProfileView, Reply, ReplyView, Status,
};
use crate::session::{session_view, verify_super_admin, was_judged_at};
use crate::text::{byte_len, safe_id, sanitized, trimmed};
use crate::withdrawals::server_busy;
use axum::http::HeaderMap;
use vstd::prelude::*;

verus! {

/// What an update of a tenant's papers sends.
#[derive(Debug)]
pub struct UpdateKycPayload {
    pub no_ktp: String,
    pub no_npwp: String,
}

/// Lists the latest tenants with what came in and what went out.
pub const LIST_BALANCES: &'static str = "
        SELECT 
            t.id AS tenant_id, t.nama_toko, t.nama_pemilik, t.nomor_wa,
            CAST(COALESCE(i.total_pemasukan, 0) AS CHAR) AS total_masuk,
            CAST((SELECT COALESCE(SUM(nominal), 0) FROM ledger_out WHERE tenant_id = t.id AND status IN ('Pending', 'Selesai')) AS CHAR) AS total_keluar
        FROM tenants t
        LEFT JOIN tenant_incomes i ON t.id = i.tenant_id
        ORDER BY t.created_at DESC LIMIT 1000
    ";

/// Finds a tenant.
pub const FIND_TENANT: &'static str = "SELECT * FROM tenants WHERE id = ?";

/// Lists the latest withdrawals of a tenant.
pub const LIST_HISTORY: &'static str =
    "SELECT id, CAST(nominal AS CHAR) as nominal, status, waktu_pengajuan FROM ledger_out WHERE tenant_id = ? ORDER BY waktu_pengajuan DESC LIMIT 50";

/// Finds what came in for a tenant.
pub const FIND_INCOME: &'static str =
    "SELECT CAST(total_pemasukan AS CHAR) as total, terakhir_sinkron FROM tenant_incomes WHERE tenant_id = ?";

/// Stores the numbers of a tenant's papers.
pub const UPDATE_KYC: &'static str = "UPDATE tenants SET no_ktp = ?, no_npwp = ? WHERE id = ?";

/// How many bytes the number of a paper may have.
pub const MAX_NUMBER_LEN: usize = 30;

/// The step that follows the answer to the request for a permit to list balances.
pub open spec fn balances_step(answer: AnswerView) -> StepView {
    match answer {
        AnswerView::Permit => StepView::Ask {
            request: RequestView::FetchAll(
                StatementView { sql: LIST_BALANCES@, params: Seq::empty() },
            ),
            stage: StageView::BalancesRows,
        },
        _ => StepView::Done(server_busy()),
    }
}

/// The balance in a row: available is what came in less what went out.
pub open spec fn balance_of(row: RowView) -> BalanceView {
    let masuk = text_of(row, "total_masuk"@);
    let keluar = text_of(row, "total_keluar"@);
    BalanceView {
        tenant_id: text_of(row, "tenant_id"@),
        nama_toko: text_of(row, "nama_toko"@),
        nama_pemilik: text_of(row, "nama_pemilik"@),
        no_wa: text_of(row, "nomor_wa"@),
        saldo_tersedia: DifferenceView { minuend: masuk, subtrahend: keluar },
        total_masuk: masuk,
        total_ditarik: keluar,
    }
}

/// The reply to a request for the balances.
pub open spec fn balances_reply(answer: AnswerView) -> ReplyView {
    match answer {
        AnswerView::Rows(rows) => success(
            BodyView::Balances(rows.map_values(|r: RowView| balance_of(r))),
        ),
        _ => error(Status::InternalServerError, "Gagal memuat saldo."@),
    }
}

/// The step that follows the answer to the request for a permit to show a tenant.
pub open spec fn tenant_step(id: Seq<char>, answer: AnswerView) -> StepView {
    match answer {
        AnswerView::Permit => StepView::Ask {
            request: RequestView::FetchOptional(
                StatementView { sql: FIND_TENANT@, params: seq![id] },
            ),
            stage: StageView::TenantRow { id },
        },
        _ => StepView::Done(server_busy()),
    }
}

/// The step that follows the search for a tenant.
pub open spec fn history_step(id: Seq<char>, answer: AnswerView) -> StepView {
    match answer {
        AnswerView::Row(Some(tenant)) => StepView::Ask {
            request: RequestView::FetchAll(
                StatementView { sql: LIST_HISTORY@, params: seq![id] },
            ),
            stage: StageView::TenantHistory { id, tenant },
        },
        _ => StepView::Done(error(Status::NotFound, "Tenant tidak ditemukan."@)),
    }
}

/// The step that follows the search for a tenant's withdrawals. Without an answer there are
/// none.
pub open spec fn income_step(id: Seq<char>, tenant: RowView, answer: AnswerView) -> StepView {
    StepView::Ask {
        request: RequestView::FetchOptional(StatementView { sql: FIND_INCOME@, params: seq![id] }),
        stage: StageView::TenantIncome {
            tenant,
            history: match answer {
                AnswerView::Rows(rows) => rows,
                _ => Seq::empty(),
            },
        },
    }
}

/// The profile in the row of a tenant.
pub open spec fn profile_of(row: RowView) -> ProfileView {
    ProfileView {
        id: text_of(row, "id"@),
        nama_toko: text_of(row, "nama_toko"@),
        nama_pemilik: text_of(row, "nama_pemilik"@),
        nomor_wa: text_of(row, "nomor_wa"@),
        email: text_of(row, "email"@),
        alamat: text_of(row, "alamat_penjemputan"@),
        no_ktp: text_of(row, "no_ktp"@),
        no_npwp: text_of(row, "no_npwp"@),
        bank_nama: text_of(row, "bank_nama"@),
        bank_rekening: text_of(row, "bank_rekening"@),
        bank_atas_nama: text_of(row, "bank_atas_nama"@),
    }
}

/// The withdrawal in a row of a tenant's history.
pub open spec fn history_entry_of(row: RowView) -> HistoryEntryView {
    HistoryEntryView {
        id: text_of(row, "id"@),
        nominal: text_of(row, "nominal"@),
        status: text_of(row, "status"@),
        waktu: text_of(row, "waktu_pengajuan"@),
    }
}

/// The money of a tenant. Where nothing is known to have come in, that is zero.
pub open spec fn finances_of(history: Seq<RowView>, income: AnswerView) -> FinancesView {
    FinancesView {
        total_masuk: match income {
            AnswerView::Row(Some(row)) => text_of(row, "total"@),
            _ => "0"@,
        },
        terakhir_sinkron_masuk: match income {
            AnswerView::Row(Some(row)) => text_of(row, "terakhir_sinkron"@),
            _ => "Belum ada data"@,
        },
        riwayat_penarikan: history.map_values(|r: RowView| history_entry_of(r)),
    }
}

/// The reply that shows a tenant.
pub open spec fn tenant_reply(
    tenant: RowView,
    history: Seq<RowView>,
    income: AnswerView,
) -> ReplyView {
    success(
        BodyView::Tenant { profil: profile_of(tenant), keuangan: finances_of(history, income) },
    )
}

/// The first step of an update of a tenant's papers, once it is granted. Numbers are stored
/// without surrounding white space, and are refused where they are too long.
pub open spec fn kyc_start(id: Seq<char>, no_ktp: Seq<char>, no_npwp: Seq<char>) -> StepView {
    if byte_len(trimmed(no_ktp)) > MAX_NUMBER_LEN || byte_len(trimmed(no_npwp)) > MAX_NUMBER_LEN {
        StepView::Done(
            error(Status::BadRequest, "Format ID terlalu panjang (Maks. 30 Karakter)."@),
        )
    } else {
        ask_permit(
            StageView::KycPermit {
                id: sanitized(id),
                no_ktp: trimmed(no_ktp),
                no_npwp: trimmed(no_npwp),
            },
        )
    }
}

/// The step that follows the answer to the request for a permit to update papers.
pub open spec fn kyc_step(
    id: Seq<char>,
    no_ktp: Seq<char>,
    no_npwp: Seq<char>,
    answer: AnswerView,
) -> StepView {
    match answer {
        AnswerView::Permit => StepView::Ask {
            request: RequestView::Execute(
                StatementView { sql: UPDATE_KYC@, params: seq![no_ktp, no_npwp, id] },
            ),
            stage: StageView::KycChange,
        },
        _ => StepView::Done(server_busy()),
    }
}

/// The reply to an update of a tenant's papers.
pub open spec fn kyc_reply(answer: AnswerView) -> ReplyView {
    match answer {
        AnswerView::Changed(_) => message("Data KYC berhasil disimpan!"@),
        _ => error(Status::InternalServerError, "Gagal menyimpan data KYC."@),
    }
}

/// Starts to list the balances of all tenants where the session was let in.
pub fn start_balances(session: Result<String, Reply>) -> (step: Step)
    ensures
        step@ == by_session(session_view(session), ask_permit(StageView::BalancesPermit)),
{
    after_session(session, Step::Ask { request: Request::Permit, stage: Stage::BalancesPermit })
}

/// Starts to list the balances of all tenants, for the super admin.
pub fn get_all_tenant_balances(headers: &HeaderMap, secret: &str) -> (step: Step)
    ensures
        exists|now: nat|
            step@ == #[trigger] guarded_step(
                header_contents(*headers),
                secret@,
                now,
                ask_permit(StageView::BalancesPermit),
            ) && was_judged_at(header_contents(*headers), secret@, now),
{
    let session = verify_super_admin(headers, secret);
    proof {
        lemma_guarded_step(
            session_view(session),
            header_contents(*headers),
            secret@,
            ask_permit(StageView::BalancesPermit),
        );
    }
    start_balances(session)
}

/// Goes on to list the balances by the answer to the request for a permit.
pub fn fetch_balances(answer: Answer) -> (step: Step)
    ensures
        step@ == balances_step(answer@),
{
    match answer {
        Answer::Permit => Step::Ask {
            request: Request::FetchAll(statement(LIST_BALANCES)),
            stage: Stage::BalancesRows,
        },
        _ => Step::Done(error_response(Status::ServiceUnavailable, "Server sedang sibuk.")),
    }
}

/// Reads the balance in a row.
pub fn read_balance(row: &Row) -> (balance: Balance)
    ensures
        balance@ == balance_of(row@),
{
    let masuk = row.text("total_masuk");
    let keluar = row.text("total_keluar");
    Balance {
        tenant_id: row.text("tenant_id"),
        nama_toko: row.text("nama_toko"),
        nama_pemilik: row.text("nama_pemilik"),
        no_wa: row.text("nomor_wa"),
        saldo_tersedia: Difference {
            minuend: Amount { text: masuk.clone() },
            subtrahend: Amount { text: keluar.clone() },
        },
        total_masuk: Amount { text: masuk },
        total_ditarik: Amount { text: keluar },
    }
}

/// Replies with the balances in the rows.
pub fn list_balances(answer: Answer) -> (reply: Reply)
    ensures
        reply@ == balances_reply(answer@),
{
    match answer {
        Answer::Rows(rows) => {
            let mut list: Vec<Balance> = Vec::new();
            for i in 0..rows.len()
                invariant
                    list.len() == i,
                    forall|j: int| 0 <= j < i ==> #[trigger] list@[j]@ == balance_of(rows@[j]@),
            {
                list.push(read_balance(&rows[i]));
            }
            assert(list@.map_values(|b: Balance| b@) =~= rows_view(rows@).map_values(
                |r: RowView| balance_of(r),
            ));
            success_response(Body::Balances(list))
        },
        _ => error_response(Status::InternalServerError, "Gagal memuat saldo."),
    }
}

/// Starts to show a tenant where the session was let in.
pub fn start_tenant(session: Result<String, Reply>, tenant_id: &str) -> (step: Step)
    ensures
        step@ == by_session(
            session_view(session),
            ask_permit(StageView::TenantPermit { id: sanitized(tenant_id@) }),
        ),
{
    let id = safe_id(tenant_id);
    after_session(
        session,
        Step::Ask { request: Request::Permit, stage: Stage::TenantPermit { id } },
    )
}

/// Starts to show a tenant, for the super admin.
pub fn get_tenant_detail(headers: &HeaderMap, secret: &str, tenant_id: &str) -> (step: Step)
    ensures
        exists|now: nat|
            step@ == #[trigger] guarded_step(
                header_contents(*headers),
                secret@,
                now,
                ask_permit(StageView::TenantPermit { id: sanitized(tenant_id@) }),
            ) && was_judged_at(header_contents(*headers), secret@, now),
{
    let session = verify_super_admin(headers, secret);
    proof {
        lemma_guarded_step(
            session_view(session),
            header_contents(*headers),
            secret@,
            ask_permit(StageView::TenantPermit { id: sanitized(tenant_id@) }),
        );
    }
    start_tenant(session, tenant_id)
}

/// Goes on to show a tenant by the answer to the request for a permit.
pub fn find_tenant(id: String, answer: Answer) -> (step: Step)
    ensures
        step@ == tenant_step(id@, answer@),
{
    match answer {
        Answer::Permit => Step::Ask {
            request: Request::FetchOptional(statement_of_one(FIND_TENANT, &id)),
            stage: Stage::TenantRow { id },
        },
        _ => Step::Done(error_response(Status::ServiceUnavailable, "Server sedang sibuk.")),
    }
}

/// Goes on to show a tenant by the row that was found.
pub fn fetch_history(id: String, answer: Answer) -> (step: Step)
    ensures
        step@ == history_step(id@, answer@),
{
    match answer {
        Answer::Row(Some(tenant)) => Step::Ask {
            request: Request::FetchAll(statement_of_one(LIST_HISTORY, &id)),
            stage: Stage::TenantHistory { id, tenant },
        },
        _ => Step::Done(error_response(Status::NotFound, "Tenant tidak ditemukan.")),
    }
}

/// Goes on to show a tenant by the withdrawals that were found.
pub fn find_income(id: String, tenant: Row, answer: Answer) -> (step: Step)
    ensures
        step@ == income_step(id@, tenant@, answer@),
{
    let request = Request::FetchOptional(statement_of_one(FIND_INCOME, &id));
    let history: Vec<Row> = match answer {
        Answer::Rows(rows) => rows,
        _ => {
            let none: Vec<Row> = Vec::new();
            assert(rows_view(none@) =~= Seq::empty());
            none
        },
    };
    Step::Ask { request, stage: Stage::TenantIncome { tenant, history } }
}

/// Reads the profile in the row of a tenant.
pub fn read_profile(row: &Row) -> (profile: Profile)
    ensures
        profile@ == profile_of(row@),
{
    Profile {
        id: row.text("id"),
        nama_toko: row.text("nama_toko"),
        nama_pemilik: row.text("nama_pemilik"),
        nomor_wa: row.text("nomor_wa"),
        email: row.text("email"),
        alamat: row.text("alamat_penjemputan"),
        no_ktp: row.text("no_ktp"),
        no_npwp: row.text("no_npwp"),
        bank_nama: row.text("bank_nama"),
        bank_rekening: row.text("bank_rekening"),
        bank_atas_nama: row.text("bank_atas_nama"),
    }
}

/// Reads the withdrawal in a row of a tenant's history.
pub fn read_history_entry(row: &Row) -> (entry: HistoryEntry)
    ensures
        entry@ == history_entry_of(row@),
{
    HistoryEntry {
        id: row.text("id"),
        nominal: Amount { text: row.text("nominal") },
        status: row.text("status"),
        waktu: row.text("waktu_pengajuan"),
    }
}

/// Reads the money of a tenant.
pub fn read_finances(history: &Vec<Row>, income: Answer) -> (finances: Finances)
    ensures
        finances@ == finances_of(rows_view(history@), income@),
{
    let mut list: Vec<HistoryEntry> = Vec::new();
    for i in 0..history.len()
        invariant
            list.len() == i,
            forall|j: int| 0 <= j < i ==> #[trigger] list@[j]@ == history_entry_of(history@[j]@),
    {
        list.push(read_history_entry(&history[i]));
    }
    assert(list@.map_values(|e: HistoryEntry| e@) =~= rows_view(history@).map_values(
        |r: RowView| history_entry_of(r),
    ));
    match income {
        Answer::Row(Some(row)) => Finances {
            total_masuk: Amount { text: row.text("total") },
            terakhir_sinkron_masuk: row.text("terakhir_sinkron"),
            riwayat_penarikan: list,
        },
        _ => Finances {
            total_masuk: Amount { text: "0".to_string() },
            terakhir_sinkron_masuk: "Belum ada data".to_string(),
            riwayat_penarikan: list,
        },
    }
}

/// Replies with a tenant.
pub fn show_tenant(tenant: Row, history: Vec<Row>, income: Answer) -> (reply: Reply)
    ensures
        reply@ == tenant_reply(tenant@, rows_view(history@), income@),
{
    success_response(
        Body::Tenant {
            profil: read_profile(&tenant),
            keuangan: read_finances(&history, income),
        },
    )
}

/// Starts to update a tenant's papers where the session was let in.
pub fn start_kyc(
    session: Result<String, Reply>,
    tenant_id: &str,
    payload: &UpdateKycPayload,
) -> (step: Step)
    ensures
        step@ == by_session(
            session_view(session),
            kyc_start(tenant_id@, payload.no_ktp@, payload.no_npwp@),
        ),
{
    let id = safe_id(tenant_id);
    let no_ktp = payload.no_ktp.as_str().trim();
    let no_npwp = payload.no_npwp.as_str().trim();
    let granted = if no_ktp.as_bytes().len() > MAX_NUMBER_LEN || no_npwp.as_bytes().len()
        > MAX_NUMBER_LEN {
        Step::Done(
            error_response(
                Status::BadRequest,
                "Format ID terlalu panjang (Maks. 30 Karakter).",
            ),
        )
    } else {
        Step::Ask {
            request: Request::Permit,
            stage: Stage::KycPermit {
                id,
                no_ktp: no_ktp.to_string(),
                no_npwp: no_npwp.to_string(),
            },
        }
    };
    after_session(session, granted)
}

/// Starts to update a tenant's papers, for the super admin.
pub fn update_tenant_kyc(
    headers: &HeaderMap,
    secret: &str,
    tenant_id: &str,
    payload: &UpdateKycPayload,
) -> (step: Step)
    ensures
        exists|now: nat|
            step@ == #[trigger] guarded_step(
                header_contents(*headers),
                secret@,
                now,
                kyc_start(tenant_id@, payload.no_ktp@, payload.no_npwp@),
            ) && was_judged_at(header_contents(*headers), secret@, now),
{
    let session = verify_super_admin(headers, secret);
    proof {
        lemma_guarded_step(
            session_view(session),
            header_contents(*headers),
            secret@,
            kyc_start(tenant_id@, payload.no_ktp@, payload.no_npwp@),
        );
    }
    start_kyc(session, tenant_id, payload)
}

/// Goes on to update a tenant's papers by the answer to the request for a permit.
pub fn store_kyc(id: String, no_ktp: String, no_npwp: String, answer: Answer) -> (step: Step)
    ensures
        step@ == kyc_step(id@, no_ktp@, no_npwp@, answer@),
{
    match answer {
        Answer::Permit => Step::Ask {
            request: Request::Execute(statement_of_three(UPDATE_KYC, &no_ktp, &no_npwp, &id)),
            stage: Stage::KycChange,
        },
        _ => Step::Done(error_response(Status::ServiceUnavailable, "Server sedang sibuk.")),
    }
}

/// Replies to an update of a tenant's papers.
pub fn report_kyc(answer: Answer) -> (reply: Reply)
    ensures
        reply@ == kyc_reply(answer@),
{
    match answer {
        Answer::Changed(_) => message_response("Data KYC berhasil disimpan!"),
        _ => error_response(Status::InternalServerError, "Gagal menyimpan data KYC."),
    }
}

} // verus!
