//! What becomes of each kind of request: what it asks for, in which order, and what is replied.
use super::replies::{fails_with, lemma_reply_headers, succeeds_with};
use super::rows::{columns_show_their_first_cell, shows};
use super::text::{cleaning_keeps_plain_ids, is_plain_id};
use crate::clock::{clock_showed, in_calendar, readings_give_what_the_clock_showed, utc_now};
use crate::database::{text_of, Answer, AnswerView, RequestView, RowView};
use crate::flow::{ask_permit, guarded_step, Stage, StageView, Step, StepView};
use crate::headers::header_contents;
use crate::login::{login, LoginPayload};
use crate::password::{bcrypt_verdict, password_verdict};
use crate::reply::{
    BalanceView, BodyView, FinancesView, HistoryEntryView, ProfileView, Status, WithdrawalView,
};
use crate::server::{grants_session_at, is_timely, next_step, resume};
use crate::session::{jwt_encoding, session_at, was_judged_at};
use crate::tenants::{
    balance_of, get_all_tenant_balances, get_tenant_detail, history_entry_of, kyc_start,
    profile_of, update_tenant_kyc, UpdateKycPayload,
};
use crate::text::{sanitized, trimmed};
use crate::withdrawals::{approve_withdrawal, get_all_withdrawals, withdrawal_of};
use axum::http::HeaderMap;
use vstd::prelude::*;
use vstd::utf8::encode_utf8;

verus! {

/// The step that follows a step by an answer. A reply is final.
pub open spec fn then_step(step: StepView, answer: AnswerView, now: int) -> StepView {
    match step {
        StepView::Ask { stage, .. } => next_step(stage, answer, now),
        StepView::Done(_) => step,
    }
}

/// Whether an answer is a row.
pub open spec fn has_row(answer: AnswerView) -> bool {
    answer matches AnswerView::Row(row) && row is Some
}

/// Whether a step asks for a permit.
pub open spec fn asks_permit(step: StepView) -> bool {
    step matches StepView::Ask { request, .. } && request is Permit
}

/// Whether a step asks for the first row of a query.
pub open spec fn asks_one(step: StepView, sql: Seq<char>, params: Seq<Seq<char>>) -> bool {
    &&& step matches StepView::Ask { request, .. }
    &&& request matches RequestView::FetchOptional(s)
    &&& s.sql == sql
    &&& s.params == params
}

/// Whether a step asks for all rows of a query.
pub open spec fn asks_all(step: StepView, sql: Seq<char>, params: Seq<Seq<char>>) -> bool {
    &&& step matches StepView::Ask { request, .. }
    &&& request matches RequestView::FetchAll(s)
    &&& s.sql == sql
    &&& s.params == params
}

/// Whether a step asks for rows to be changed.
pub open spec fn asks_change(step: StepView, sql: Seq<char>, params: Seq<Seq<char>>) -> bool {
    &&& step matches StepView::Ask { request, .. }
    &&& request matches RequestView::Execute(s)
    &&& s.sql == sql
    &&& s.params == params
}

/// Whether a step replies with an error.
pub open spec fn ends_in_error(step: StepView, status: Status, text: Seq<char>) -> bool {
    step matches StepView::Done(reply) && fails_with(reply, status, text)
}

/// Whether a step replies with success.
pub open spec fn ends_in_success(step: StepView, body: BodyView) -> bool {
    step matches StepView::Done(reply) && succeeds_with(reply, body)
}

/// What `resume` does is to take the next step. Only a session that is granted depends on the
/// time, and that is the one that the clock showed.
pub proof fn resuming_takes_the_next_step(stage: Stage, answer: Answer, step: Step)
    requires
        call_ensures(resume, (stage, answer), step),
    ensures
        exists|now: int|
            0 <= now <= 8_210_266_876_799 && step@ == #[trigger] next_step(
                stage@,
                answer@,
                now,
            ) && (stage matches Stage::LoginAdmin { password, .. } ==> forall|
                row: RowView,
                hash: Seq<char>,
            |
                answer@ == AnswerView::Row(Some(row)) && #[trigger] shows(
                    row,
                    "password_hash"@,
                    Seq::empty(),
                    hash,
                ) && bcrypt_verdict(password@, hash) == Some(true) ==> clock_showed(now)),
        !(stage is LoginAdmin) ==> step@ == next_step(stage@, answer@, 0),
{
    assert forall|row: RowView, hash: Seq<char>| #[trigger]
        shows(row, "password_hash"@, Seq::empty(), hash) implies hash == text_of(
        row,
        "password_hash"@,
    ) by {
        columns_show_their_first_cell(row, "password_hash"@, Seq::empty(), hash);
    }
}

// Login.

/// A login asks for a permit, then for the admin of the given name. The password is held against
/// the hash in the row that was found. Where they belong together the reply is a session of the
/// admin in the row, wherever a token can be made, and where they do not it is a refusal.
pub proof fn logins_succeed_with_the_password_alone(
    payload: LoginPayload,
    secret: String,
    first: Step,
    other: AnswerView,
    found: AnswerView,
    row: RowView,
    name: Seq<char>,
    hash: Seq<char>,
    now: int,
)
    requires
        call_ensures(login, (payload, secret), first),
        shows(row, "username"@, Seq::empty(), name),
        shows(row, "password_hash"@, Seq::empty(), hash),
        now + 7200 <= 8_210_266_876_799,
    ensures
        asks_permit(first@),
        other != AnswerView::Permit ==> ends_in_error(
            then_step(first@, other, now),
            Status::ServiceUnavailable,
            "Server sedang menyeimbangkan beban."@,
        ),
        ({
            let second = then_step(first@, AnswerView::Permit, now);
            let last = then_step(second, found, now);
            let token = jwt_encoding("SUPER-BOSS"@, (now + 7200) as usize, secret@);
            let right = bcrypt_verdict(payload.password@, hash) == Some(true);
            &&& asks_one(
                second,
                "SELECT username, password_hash FROM super_admins WHERE username = ? LIMIT 1"@,
                seq![payload.username@],
            )
            &&& found == AnswerView::Row(Some(row)) && right && token is Some ==> ends_in_success(
                last,
                BodyView::Session { message: "Sukses"@, token: token.unwrap(), username: name },
            )
            &&& found == AnswerView::Row(Some(row)) && right && token is None ==> ends_in_error(
                last,
                Status::InternalServerError,
                "Gagal memproses tiket sesi."@,
            )
            &&& found == AnswerView::Row(Some(row)) && !right ==> ends_in_error(
                last,
                Status::Unauthorized,
                "Kredensial salah."@,
            )
            &&& found == AnswerView::Row(None) ==> ends_in_error(
                last,
                Status::Unauthorized,
                "Kredensial salah."@,
            )
            &&& !(found is Row) ==> ends_in_error(
                last,
                Status::InternalServerError,
                "Database sibuk."@,
            )
        }),
{
    lemma_reply_headers();
    columns_show_their_first_cell(row, "username"@, Seq::empty(), name);
    columns_show_their_first_cell(row, "password_hash"@, Seq::empty(), hash);
}

/// A session that is granted starts at a time that was read from the clock: its token encodes the
/// super admin's name and the time two hours on, under the secret of the login.
pub(crate) proof fn sessions_start_when_the_clock_is_read(
    stage: Stage,
    answer: Answer,
    step: Step,
    granted: Seq<char>,
)
    requires
        call_ensures(resume, (stage, answer), step),
        step@ matches StepView::Done(reply) && reply.body matches BodyView::Session { token, .. }
            && token == granted,
    ensures
        stage matches Stage::LoginAdmin { secret, .. } && exists|seconds: i64|
            (#[trigger] call_ensures(utc_now, (), seconds)) && jwt_encoding(
                "SUPER-BOSS"@,
                (seconds + 7200) as usize,
                secret@,
            ) == Some(granted),
{
    let now = choose|now: int|
        in_calendar(now) && step@ == #[trigger] next_step(stage@, answer@, now)
            && grants_session_at(stage@, step@, now) && is_timely(stage@, answer@, now);
    readings_give_what_the_clock_showed(now);
}

/// A password is held against a hash whole, and what `bcrypt` finds is what counts.
pub proof fn passwords_are_held_against_the_hash(
    password: &str,
    hash: &str,
    verdict: Option<bool>,
)
    requires
        call_ensures(password_verdict, (password, hash), verdict),
    ensures
        verdict == bcrypt_verdict(password@, hash@),
{
}

// Requests of the super admin.

/// Whether the first step of a request goes by the session that it was let in with when it was
/// judged: a refusal is replied as it stands, and a request that is let in goes on as `goes_on`
/// says.
pub open spec fn goes_by_session(
    headers: HeaderMap,
    secret: Seq<char>,
    first: StepView,
    goes_on: bool,
) -> bool {
    exists|now: nat|
        was_judged_at(header_contents(headers), secret, now) && match #[trigger] session_at(
            header_contents(headers),
            secret,
            now,
        ) {
            Ok(_) => goes_on,
            Err(refusal) => first == StepView::Done(refusal),
        }
}

/// Whether a request that is let in waits for a permit, and is turned away without one.
pub open spec fn waits_for_a_permit(first: StepView, other: AnswerView, now: int) -> bool {
    &&& asks_permit(first)
    &&& other != AnswerView::Permit ==> ends_in_error(
        then_step(first, other, now),
        Status::ServiceUnavailable,
        "Server sedang sibuk."@,
    )
}

/// The session that a step was chosen by.
proof fn lemma_session_of_step(
    headers: HeaderMap,
    secret: Seq<char>,
    first: StepView,
    granted: StepView,
    goes_on: bool,
)
    requires
        exists|now: nat|
            first == #[trigger] guarded_step(header_contents(headers), secret, now, granted)
                && was_judged_at(header_contents(headers), secret, now),
        first == granted ==> goes_on,
    ensures
        goes_by_session(headers, secret, first, goes_on),
{
    let now = choose|now: nat|
        first == #[trigger] guarded_step(header_contents(headers), secret, now, granted)
            && was_judged_at(header_contents(headers), secret, now);
    assert(match session_at(header_contents(headers), secret, now) {
        Ok(_) => goes_on,
        Err(refusal) => first == StepView::Done(refusal),
    });
}

// Balances.

/// Whether a balance shows the row of a tenant: each field the column that it stands for, and as
/// available what came in less what went out.
pub open spec fn balance_shows(balance: BalanceView, row: RowView) -> bool {
    &&& shows(row, "tenant_id"@, Seq::empty(), balance.tenant_id)
    &&& shows(row, "nama_toko"@, Seq::empty(), balance.nama_toko)
    &&& shows(row, "nama_pemilik"@, Seq::empty(), balance.nama_pemilik)
    &&& shows(row, "nomor_wa"@, Seq::empty(), balance.no_wa)
    &&& shows(row, "total_masuk"@, Seq::empty(), balance.total_masuk)
    &&& shows(row, "total_keluar"@, Seq::empty(), balance.total_ditarik)
    &&& shows(row, "total_masuk"@, Seq::empty(), balance.saldo_tersedia.minuend)
    &&& shows(row, "total_keluar"@, Seq::empty(), balance.saldo_tersedia.subtrahend)
}

/// A balance shows the row that it is read from.
proof fn lemma_balance_shows(row: RowView)
    ensures
        balance_shows(balance_of(row), row),
{
    let b = balance_of(row);
    columns_show_their_first_cell(row, "tenant_id"@, Seq::empty(), b.tenant_id);
    columns_show_their_first_cell(row, "nama_toko"@, Seq::empty(), b.nama_toko);
    columns_show_their_first_cell(row, "nama_pemilik"@, Seq::empty(), b.nama_pemilik);
    columns_show_their_first_cell(row, "nomor_wa"@, Seq::empty(), b.no_wa);
    columns_show_their_first_cell(row, "total_masuk"@, Seq::empty(), b.total_masuk);
    columns_show_their_first_cell(row, "total_keluar"@, Seq::empty(), b.total_ditarik);
}

/// Whether a reply lists the balances of all rows, in their order.
pub open spec fn lists_balances(step: StepView, rows: Seq<RowView>) -> bool {
    &&& step matches StepView::Done(reply)
    &&& reply.body matches BodyView::Balances(list)
    &&& succeeds_with(reply, BodyView::Balances(list))
    &&& list.len() == rows.len()
    &&& forall|i: int| 0 <= i < rows.len() ==> balance_shows(#[trigger] list[i], rows[i])
}

/// Whether a request for the balances that was let in asks for all tenants, and is replied to
/// with the balance of each.
pub open spec fn shows_balances(
    first: StepView,
    other: AnswerView,
    rows: Seq<RowView>,
    now: int,
) -> bool {
    let second = then_step(first, AnswerView::Permit, now);
    &&& waits_for_a_permit(first, other, now)
    &&& asks_all(
        second,
        "
        SELECT 
            t.id AS tenant_id, t.nama_toko, t.nama_pemilik, t.nomor_wa,
            CAST(COALESCE(i.total_pemasukan, 0) AS CHAR) AS total_masuk,
            CAST((SELECT COALESCE(SUM(nominal), 0) FROM ledger_out WHERE tenant_id = t.id AND status IN ('Pending', 'Selesai')) AS CHAR) AS total_keluar
        FROM tenants t
        LEFT JOIN tenant_incomes i ON t.id = i.tenant_id
        ORDER BY t.created_at DESC LIMIT 1000
    "@,
        Seq::empty(),
    )
    &&& lists_balances(then_step(second, AnswerView::Rows(rows), now), rows)
    &&& !(other is Rows) ==> ends_in_error(
        then_step(second, other, now),
        Status::InternalServerError,
        "Gagal memuat saldo."@,
    )
}

/// The super admin is shown the balances of all tenants, each as its row has it.
pub proof fn balances_show_every_row(
    headers: &HeaderMap,
    secret: &str,
    first: Step,
    other: AnswerView,
    rows: Seq<RowView>,
    now: int,
)
    requires
        call_ensures(get_all_tenant_balances, (headers, secret), first),
    ensures
        goes_by_session(*headers, secret@, first@, shows_balances(first@, other, rows, now)),
{
    lemma_reply_headers();
    assert forall|i: int| 0 <= i < rows.len() implies balance_shows(
        balance_of(#[trigger] rows[i]),
        rows[i],
    ) by {
        lemma_balance_shows(rows[i]);
    }
    lemma_session_of_step(
        *headers,
        secret@,
        first@,
        ask_permit(StageView::BalancesPermit),
        shows_balances(first@, other, rows, now),
    );
}

// Withdrawals.

/// Whether a withdrawal shows its row: each field the column that it stands for. Where the tenant
/// has no name it is anonymous, and where its owner has none that is a hyphen.
pub open spec fn withdrawal_shows(withdrawal: WithdrawalView, row: RowView) -> bool {
    &&& shows(row, "id"@, Seq::empty(), withdrawal.id)
    &&& shows(row, "nama_toko"@, "Anonim"@, withdrawal.nama_toko)
    &&& shows(row, "nama_pemilik"@, "-"@, withdrawal.nama_pemilik)
    &&& shows(row, "nominal"@, Seq::empty(), withdrawal.nominal)
    &&& shows(row, "status"@, Seq::empty(), withdrawal.status)
    &&& shows(row, "nama_bank"@, Seq::empty(), withdrawal.bank)
    &&& shows(row, "nomor_rekening"@, Seq::empty(), withdrawal.rekening)
    &&& shows(row, "atas_nama"@, Seq::empty(), withdrawal.atas_nama)
    &&& shows(row, "waktu_pengajuan"@, Seq::empty(), withdrawal.tanggal)
}

/// A withdrawal shows the row that it is read from.
proof fn lemma_withdrawal_shows(row: RowView)
    ensures
        withdrawal_shows(withdrawal_of(row), row),
{
    let w = withdrawal_of(row);
    columns_show_their_first_cell(row, "id"@, Seq::empty(), w.id);
    columns_show_their_first_cell(row, "nama_toko"@, "Anonim"@, w.nama_toko);
    columns_show_their_first_cell(row, "nama_pemilik"@, "-"@, w.nama_pemilik);
    columns_show_their_first_cell(row, "nominal"@, Seq::empty(), w.nominal);
    columns_show_their_first_cell(row, "status"@, Seq::empty(), w.status);
    columns_show_their_first_cell(row, "nama_bank"@, Seq::empty(), w.bank);
    columns_show_their_first_cell(row, "nomor_rekening"@, Seq::empty(), w.rekening);
    columns_show_their_first_cell(row, "atas_nama"@, Seq::empty(), w.atas_nama);
    columns_show_their_first_cell(row, "waktu_pengajuan"@, Seq::empty(), w.tanggal);
}

/// Whether a reply lists the withdrawals of all rows, in their order.
pub open spec fn lists_withdrawals(step: StepView, rows: Seq<RowView>) -> bool {
    &&& step matches StepView::Done(reply)
    &&& reply.body matches BodyView::Withdrawals(list)
    &&& succeeds_with(reply, BodyView::Withdrawals(list))
    &&& list.len() == rows.len()
    &&& forall|i: int| 0 <= i < rows.len() ==> withdrawal_shows(#[trigger] list[i], rows[i])
}

/// Whether a request for the withdrawals that was let in asks for the latest of them, and is
/// replied to with each.
pub open spec fn shows_withdrawals(
    first: StepView,
    other: AnswerView,
    rows: Seq<RowView>,
    now: int,
) -> bool {
    let second = then_step(first, AnswerView::Permit, now);
    &&& waits_for_a_permit(first, other, now)
    &&& asks_all(
        second,
        "
        SELECT l.id, l.tenant_id, CAST(l.nominal AS CHAR) as nominal, l.nama_bank, 
        l.nomor_rekening, l.atas_nama, l.status, l.waktu_pengajuan, t.nama_toko, t.nama_pemilik 
        FROM ledger_out l LEFT JOIN tenants t ON l.tenant_id = t.id
        ORDER BY l.waktu_pengajuan DESC LIMIT 500
    "@,
        Seq::empty(),
    )
    &&& lists_withdrawals(then_step(second, AnswerView::Rows(rows), now), rows)
    &&& !(other is Rows) ==> ends_in_error(
        then_step(second, other, now),
        Status::InternalServerError,
        "Gagal memuat antrean."@,
    )
}

/// The super admin is shown the withdrawals, each as its row has it.
pub proof fn withdrawals_show_every_row(
    headers: &HeaderMap,
    secret: &str,
    first: Step,
    other: AnswerView,
    rows: Seq<RowView>,
    now: int,
)
    requires
        call_ensures(get_all_withdrawals, (headers, secret), first),
    ensures
        goes_by_session(*headers, secret@, first@, shows_withdrawals(first@, other, rows, now)),
{
    lemma_reply_headers();
    assert forall|i: int| 0 <= i < rows.len() implies withdrawal_shows(
        withdrawal_of(#[trigger] rows[i]),
        rows[i],
    ) by {
        lemma_withdrawal_shows(rows[i]);
    }
    lemma_session_of_step(
        *headers,
        secret@,
        first@,
        ask_permit(StageView::WithdrawalsPermit),
        shows_withdrawals(first@, other, rows, now),
    );
}

/// Whether an approval that was let in has the withdrawal of the cleaned identifier marked as
/// done where it is pending, and tells whether one was.
pub open spec fn approves(
    first: StepView,
    id: Seq<char>,
    other: AnswerView,
    changed: u64,
    now: int,
) -> bool {
    let second = then_step(first, AnswerView::Permit, now);
    let last = then_step(second, AnswerView::Changed(changed), now);
    &&& waits_for_a_permit(first, other, now)
    &&& asks_change(
        second,
        "UPDATE ledger_out SET status = 'Selesai', waktu_selesai = CURRENT_TIMESTAMP WHERE id = ? AND status = 'Pending'"@,
        seq![id],
    )
    &&& changed > 0 ==> ends_in_success(
        last,
        BodyView::Message { message: "Transfer Sukses!"@ },
    )
    &&& changed == 0 ==> ends_in_error(
        last,
        Status::Conflict,
        "Pengajuan tidak ditemukan atau sudah diproses."@,
    )
    &&& !(other is Changed) ==> ends_in_error(
        then_step(second, other, now),
        Status::InternalServerError,
        "Gagal memproses ke database."@,
    )
}

/// The super admin approves the withdrawal of the identifier that was sent, once that is cleaned.
/// A plain identifier reaches the database unchanged.
pub proof fn approvals_mark_the_withdrawal_that_was_sent(
    headers: &HeaderMap,
    secret: &str,
    withdrawal_id: &str,
    first: Step,
    other: AnswerView,
    changed: u64,
    now: int,
)
    requires
        call_ensures(approve_withdrawal, (headers, secret, withdrawal_id), first),
    ensures
        goes_by_session(
            *headers,
            secret@,
            first@,
            approves(first@, sanitized(withdrawal_id@), other, changed, now),
        ),
        is_plain_id(withdrawal_id@) ==> goes_by_session(
            *headers,
            secret@,
            first@,
            approves(first@, withdrawal_id@, other, changed, now),
        ),
{
    lemma_reply_headers();
    if is_plain_id(withdrawal_id@) {
        cleaning_keeps_plain_ids(withdrawal_id@);
    }
    let id = sanitized(withdrawal_id@);
    lemma_session_of_step(
        *headers,
        secret@,
        first@,
        ask_permit(StageView::ApprovalPermit { id }),
        approves(first@, id, other, changed, now),
    );
}

// Tenants.

/// Whether a profile shows the row of a tenant: each field the column that it stands for.
pub open spec fn profile_shows(profile: ProfileView, row: RowView) -> bool {
    &&& shows(row, "id"@, Seq::empty(), profile.id)
    &&& shows(row, "nama_toko"@, Seq::empty(), profile.nama_toko)
    &&& shows(row, "nama_pemilik"@, Seq::empty(), profile.nama_pemilik)
    &&& shows(row, "nomor_wa"@, Seq::empty(), profile.nomor_wa)
    &&& shows(row, "email"@, Seq::empty(), profile.email)
    &&& shows(row, "alamat_penjemputan"@, Seq::empty(), profile.alamat)
    &&& shows(row, "no_ktp"@, Seq::empty(), profile.no_ktp)
    &&& shows(row, "no_npwp"@, Seq::empty(), profile.no_npwp)
    &&& shows(row, "bank_nama"@, Seq::empty(), profile.bank_nama)
    &&& shows(row, "bank_rekening"@, Seq::empty(), profile.bank_rekening)
    &&& shows(row, "bank_atas_nama"@, Seq::empty(), profile.bank_atas_nama)
}

/// A profile shows the row that it is read from.
proof fn lemma_profile_shows(row: RowView)
    ensures
        profile_shows(profile_of(row), row),
{
    let p = profile_of(row);
    columns_show_their_first_cell(row, "id"@, Seq::empty(), p.id);
    columns_show_their_first_cell(row, "nama_toko"@, Seq::empty(), p.nama_toko);
    columns_show_their_first_cell(row, "nama_pemilik"@, Seq::empty(), p.nama_pemilik);
    columns_show_their_first_cell(row, "nomor_wa"@, Seq::empty(), p.nomor_wa);
    columns_show_their_first_cell(row, "email"@, Seq::empty(), p.email);
    columns_show_their_first_cell(row, "alamat_penjemputan"@, Seq::empty(), p.alamat);
    columns_show_their_first_cell(row, "no_ktp"@, Seq::empty(), p.no_ktp);
    columns_show_their_first_cell(row, "no_npwp"@, Seq::empty(), p.no_npwp);
    columns_show_their_first_cell(row, "bank_nama"@, Seq::empty(), p.bank_nama);
    columns_show_their_first_cell(row, "bank_rekening"@, Seq::empty(), p.bank_rekening);
    columns_show_their_first_cell(row, "bank_atas_nama"@, Seq::empty(), p.bank_atas_nama);
}

/// Whether an entry of a history shows its row: each field the column that it stands for.
pub open spec fn history_entry_shows(entry: HistoryEntryView, row: RowView) -> bool {
    &&& shows(row, "id"@, Seq::empty(), entry.id)
    &&& shows(row, "nominal"@, Seq::empty(), entry.nominal)
    &&& shows(row, "status"@, Seq::empty(), entry.status)
    &&& shows(row, "waktu_pengajuan"@, Seq::empty(), entry.waktu)
}

/// An entry of a history shows the row that it is read from.
proof fn lemma_history_entry_shows(row: RowView)
    ensures
        history_entry_shows(history_entry_of(row), row),
{
    let e = history_entry_of(row);
    columns_show_their_first_cell(row, "id"@, Seq::empty(), e.id);
    columns_show_their_first_cell(row, "nominal"@, Seq::empty(), e.nominal);
    columns_show_their_first_cell(row, "status"@, Seq::empty(), e.status);
    columns_show_their_first_cell(row, "waktu_pengajuan"@, Seq::empty(), e.waktu);
}

/// Whether the money of a tenant is what the two searches for it found: the withdrawals of all
/// rows in their order, none where there was no answer, and the income of the row, or zero and a
/// note where there is none.
pub open spec fn finances_show(
    finances: FinancesView,
    history: AnswerView,
    income: AnswerView,
) -> bool {
    &&& history matches AnswerView::Rows(rows) ==> finances.riwayat_penarikan.len() == rows.len()
    &&& history matches AnswerView::Rows(rows) ==> forall|i: int|
        0 <= i < rows.len() ==> history_entry_shows(
            #[trigger] finances.riwayat_penarikan[i],
            rows[i],
        )
    &&& !(history is Rows) ==> finances.riwayat_penarikan.len() == 0
    &&& income matches AnswerView::Row(Some(row)) ==> shows(
        row,
        "total"@,
        Seq::empty(),
        finances.total_masuk,
    )
    &&& income matches AnswerView::Row(Some(row)) ==> shows(
        row,
        "terakhir_sinkron"@,
        Seq::empty(),
        finances.terakhir_sinkron_masuk,
    )
    &&& !has_row(income)
        ==> finances.total_masuk == "0"@ && finances.terakhir_sinkron_masuk == "Belum ada data"@
}

/// Whether a reply shows a tenant with its money.
pub open spec fn shows_tenant(
    step: StepView,
    tenant: RowView,
    history: AnswerView,
    income: AnswerView,
) -> bool {
    &&& step matches StepView::Done(reply)
    &&& reply.body matches BodyView::Tenant { profil, keuangan }
    &&& succeeds_with(reply, reply.body)
    &&& profile_shows(profil, tenant)
    &&& finances_show(keuangan, history, income)
}

/// Whether a request for a tenant that was let in asks for the tenant of the cleaned identifier,
/// then for its withdrawals, then for its income, and is replied to with all of them. Where the
/// tenant is not found that is the reply.
pub open spec fn details(
    first: StepView,
    id: Seq<char>,
    other: AnswerView,
    tenant: RowView,
    history: AnswerView,
    income: AnswerView,
    now: int,
) -> bool {
    let second = then_step(first, AnswerView::Permit, now);
    let third = then_step(second, AnswerView::Row(Some(tenant)), now);
    let fourth = then_step(third, history, now);
    &&& waits_for_a_permit(first, other, now)
    &&& asks_one(second, "SELECT * FROM tenants WHERE id = ?"@, seq![id])
    &&& !has_row(other) ==> ends_in_error(
        then_step(second, other, now),
        Status::NotFound,
        "Tenant tidak ditemukan."@,
    )
    &&& asks_all(
        third,
        "SELECT id, CAST(nominal AS CHAR) as nominal, status, waktu_pengajuan FROM ledger_out WHERE tenant_id = ? ORDER BY waktu_pengajuan DESC LIMIT 50"@,
        seq![id],
    )
    &&& asks_one(
        fourth,
        "SELECT CAST(total_pemasukan AS CHAR) as total, terakhir_sinkron FROM tenant_incomes WHERE tenant_id = ?"@,
        seq![id],
    )
    &&& shows_tenant(then_step(fourth, income, now), tenant, history, income)
}

/// The super admin is shown the tenant of the identifier that was sent, once that is cleaned, as
/// the rows that were found have it. A plain identifier reaches the database unchanged.
pub proof fn tenants_are_shown_as_their_rows_have_them(
    headers: &HeaderMap,
    secret: &str,
    tenant_id: &str,
    first: Step,
    other: AnswerView,
    tenant: RowView,
    history: AnswerView,
    income: AnswerView,
    now: int,
)
    requires
        call_ensures(get_tenant_detail, (headers, secret, tenant_id), first),
    ensures
        goes_by_session(
            *headers,
            secret@,
            first@,
            details(first@, sanitized(tenant_id@), other, tenant, history, income, now),
        ),
        is_plain_id(tenant_id@) ==> goes_by_session(
            *headers,
            secret@,
            first@,
            details(first@, tenant_id@, other, tenant, history, income, now),
        ),
{
    lemma_reply_headers();
    lemma_profile_shows(tenant);
    if let AnswerView::Rows(rows) = history {
        assert forall|i: int| 0 <= i < rows.len() implies history_entry_shows(
            history_entry_of(#[trigger] rows[i]),
            rows[i],
        ) by {
            lemma_history_entry_shows(rows[i]);
        }
    }
    if let AnswerView::Row(Some(row)) = income {
        columns_show_their_first_cell(row, "total"@, Seq::empty(), text_of(row, "total"@));
        columns_show_their_first_cell(
            row,
            "terakhir_sinkron"@,
            Seq::empty(),
            text_of(row, "terakhir_sinkron"@),
        );
    }
    if is_plain_id(tenant_id@) {
        cleaning_keeps_plain_ids(tenant_id@);
    }
    let id = sanitized(tenant_id@);
    lemma_session_of_step(
        *headers,
        secret@,
        first@,
        ask_permit(StageView::TenantPermit { id }),
        details(first@, id, other, tenant, history, income, now),
    );
}

/// Whether an update of papers that was let in is refused where a number is longer than thirty
/// bytes, and otherwise, with a permit, has both numbers stored with the tenant.
pub open spec fn stores_papers(
    first: StepView,
    id: Seq<char>,
    no_ktp: Seq<char>,
    no_npwp: Seq<char>,
    other: AnswerView,
    changed: u64,
    now: int,
) -> bool {
    let second = then_step(first, AnswerView::Permit, now);
    if encode_utf8(no_ktp).len() <= 30 && encode_utf8(no_npwp).len() <= 30 {
        &&& waits_for_a_permit(first, other, now)
        &&& asks_change(
            second,
            "UPDATE tenants SET no_ktp = ?, no_npwp = ? WHERE id = ?"@,
            seq![no_ktp, no_npwp, id],
        )
        &&& ends_in_success(
            then_step(second, AnswerView::Changed(changed), now),
            BodyView::Message { message: "Data KYC berhasil disimpan!"@ },
        )
        &&& !(other is Changed) ==> ends_in_error(
            then_step(second, other, now),
            Status::InternalServerError,
            "Gagal menyimpan data KYC."@,
        )
    } else {
        ends_in_error(
            first,
            Status::BadRequest,
            "Format ID terlalu panjang (Maks. 30 Karakter)."@,
        )
    }
}

/// The super admin updates the papers of the tenant of the identifier that was sent, once that
/// is cleaned, with the numbers that were sent, once they are trimmed. A plain identifier reaches
/// the database unchanged.
pub proof fn short_papers_are_stored_and_long_ones_refused(
    headers: &HeaderMap,
    secret: &str,
    tenant_id: &str,
    payload: &UpdateKycPayload,
    first: Step,
    other: AnswerView,
    changed: u64,
    now: int,
)
    requires
        call_ensures(update_tenant_kyc, (headers, secret, tenant_id, payload), first),
    ensures
        goes_by_session(
            *headers,
            secret@,
            first@,
            stores_papers(
                first@,
                sanitized(tenant_id@),
                trimmed(payload.no_ktp@),
                trimmed(payload.no_npwp@),
                other,
                changed,
                now,
            ),
        ),
        is_plain_id(tenant_id@) ==> goes_by_session(
            *headers,
            secret@,
            first@,
            stores_papers(
                first@,
                tenant_id@,
                trimmed(payload.no_ktp@),
                trimmed(payload.no_npwp@),
                other,
                changed,
                now,
            ),
        ),
{
    lemma_reply_headers();
    if is_plain_id(tenant_id@) {
        cleaning_keeps_plain_ids(tenant_id@);
    }
    lemma_session_of_step(
        *headers,
        secret@,
        first@,
        kyc_start(tenant_id@, payload.no_ktp@, payload.no_npwp@),
        stores_papers(
            first@,
            sanitized(tenant_id@),
            trimmed(payload.no_ktp@),
            trimmed(payload.no_npwp@),
            other,
            changed,
            now,
        ),
    );
}

} // verus!
