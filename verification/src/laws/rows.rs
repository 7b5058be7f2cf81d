//! What a row shows in a column, and how values stand to their views.
use crate::database::{
    text_or, Answer, AnswerView, Cell, Request, RequestView, Row, RowView, Statement,
};
use crate::flow::{Stage, StageView, Step, StepView};
use crate::headers::header_contents;
use crate::reply::{Balance, Body, BodyView, Finances, HistoryEntry, Profile, Reply, Withdrawal};
use vstd::prelude::*;

verus! {

/// Whether the cell at `i` is the first of its column.
pub open spec fn is_first_cell(row: RowView, column: Seq<char>, i: int) -> bool {
    &&& 0 <= i < row.len()
    &&& row[i].0 == column
    &&& forall|j: int| 0 <= j < i ==> (#[trigger] row[j]).0 != column
}

/// Whether `text` is what a row shows in a column: the text of the first cell of the column, or
/// `default` where that cell has no text or the row has no such cell.
pub open spec fn shows(
    row: RowView,
    column: Seq<char>,
    default: Seq<char>,
    text: Seq<char>,
) -> bool {
    &&& forall|i: int| #[trigger]
        is_first_cell(row, column, i) ==> text == (match row[i].1 {
            Some(x) => x,
            None => default,
        })
    &&& (forall|i: int| 0 <= i < row.len() ==> (#[trigger] row[i]).0 != column) ==> text == default
}

/// Where a row has the first cell of a column, and what is read from it.
proof fn lemma_first_cell(row: RowView, column: Seq<char>, default: Seq<char>) -> (at: Option<int>)
    ensures
        at matches Some(i) ==> is_first_cell(row, column, i) && text_or(row, column, default) == (
        match row[i].1 {
            Some(x) => x,
            None => default,
        }),
        at is None ==> text_or(row, column, default) == default && forall|i: int|
            0 <= i < row.len() ==> (#[trigger] row[i]).0 != column,
    decreases row.len(),
{
    if row.len() == 0 {
        None
    } else if row.first().0 == column {
        Some(0)
    } else {
        let rest = row.drop_first();
        let at = lemma_first_cell(rest, column, default);
        assert(forall|i: int| 0 < i < row.len() ==> #[trigger] row[i] == rest[i - 1]);
        match at {
            Some(i) => {
                assert(row[i + 1] == rest[i]);
                Some(i + 1)
            },
            None => None,
        }
    }
}

/// What is read from a column is what the row shows in it, and nothing else is.
pub proof fn columns_show_their_first_cell(
    row: RowView,
    column: Seq<char>,
    default: Seq<char>,
    text: Seq<char>,
)
    ensures
        shows(row, column, default, text) <==> text == text_or(row, column, default),
{
    let at = lemma_first_cell(row, column, default);
    if let Some(i) = at {
        assert(is_first_cell(row, column, i));
        assert forall|k: int| #[trigger] is_first_cell(row, column, k) implies k == i by {
            if k < i {
                assert(row[k].0 != column);
            } else if i < k {
                assert(row[i].0 != column);
            }
        }
        assert(row[i].0 == column);
    }
}

/// What `Row::text_or` and `Row::text` read is what the row shows in the column. Without text,
/// the one gives the default and the other nothing.
pub proof fn rows_are_read_by_column(
    row: &Row,
    column: &str,
    default: &str,
    either: String,
    text: String,
)
    requires
        call_ensures(Row::text_or, (row, column, default), either),
        call_ensures(Row::text, (row, column), text),
    ensures
        shows(row@, column@, default@, either@),
        shows(row@, column@, Seq::empty(), text@),
{
    columns_show_their_first_cell(row@, column@, default@, either@);
    columns_show_their_first_cell(row@, column@, Seq::empty(), text@);
}

/// A cell, a row and a statement show in their views as they are.
pub proof fn views_of_the_database(cell: Cell, row: Row, statement: Statement)
    ensures
        cell@.0 == cell.column@,
        cell.text matches Some(text) ==> cell@.1 == Some(text@),
        cell.text is None ==> cell@.1 is None,
        row@.len() == row.cells.len(),
        forall|i: int| 0 <= i < row.cells.len() ==> #[trigger] row@[i] == row.cells@[i]@,
        statement@.sql == statement.sql@,
        statement@.params.len() == statement.params.len(),
        forall|i: int|
            0 <= i < statement.params.len() ==> #[trigger] statement@.params[i]
                == statement.params@[i]@,
{
}

/// Requests and answers show in their views as they are.
pub proof fn views_of_requests_and_answers(request: Request, answer: Answer)
    ensures
        request is Permit <==> request@ is Permit,
        request matches Request::FetchOptional(s) ==> request@ == RequestView::FetchOptional(s@),
        request matches Request::FetchAll(s) ==> request@ == RequestView::FetchAll(s@),
        request matches Request::Execute(s) ==> request@ == RequestView::Execute(s@),
        answer is Permit <==> answer@ is Permit,
        answer is Failed <==> answer@ is Failed,
        answer matches Answer::Changed(n) ==> answer@ == AnswerView::Changed(n),
        answer matches Answer::Row(Some(row)) ==> answer@ == AnswerView::Row(Some(row@)),
        answer matches Answer::Row(None) ==> answer@ == AnswerView::Row(None),
        answer matches Answer::Rows(rows) ==> (answer@ matches AnswerView::Rows(list)
            && list.len() == rows.len() && forall|i: int|
            0 <= i < rows.len() ==> #[trigger] list[i] == rows@[i]@),
{
}

/// Steps and replies show in their views as they are.
pub proof fn views_of_steps_and_replies(step: Step, reply: Reply)
    ensures
        step matches Step::Done(r) ==> step@ == StepView::Done(r@),
        step matches Step::Ask { request, stage } ==> (step@ matches StepView::Ask {
            request: r,
            stage: s,
        } && r == request@ && s == stage@),
        reply@.status == reply.status,
        reply@.headers == header_contents(reply.headers),
        reply@.body == reply.body@,
{
}

/// Bodies show in their views as they are.
pub proof fn views_of_bodies(body: Body)
    ensures
        body matches Body::Error { error: e } ==> (body@ matches BodyView::Error { error: v } && v
            == e@),
        body matches Body::Message { message: m } ==> (body@ matches BodyView::Message {
            message: v,
        } && v == m@),
        body matches Body::Session { message: m, token: t, username: u } ==> (
        body@ matches BodyView::Session { message: vm, token: vt, username: vu } && vm == m@ && vt
            == t@ && vu == u@),
        body matches Body::Balances(list) ==> (body@ matches BodyView::Balances(shown)
            && shown.len() == list.len() && forall|i: int|
            0 <= i < list.len() ==> #[trigger] shown[i] == list@[i]@),
        body matches Body::Withdrawals(list) ==> (body@ matches BodyView::Withdrawals(shown)
            && shown.len() == list.len() && forall|i: int|
            0 <= i < list.len() ==> #[trigger] shown[i] == list@[i]@),
        body matches Body::Tenant { profil: p, keuangan: k } ==> (body@ matches BodyView::Tenant {
            profil: vp,
            keuangan: vk,
        } && vp == p@ && vk == k@),
{
}

/// Balances and withdrawals show in their views field by field.
pub proof fn views_of_balances_and_withdrawals(b: Balance, w: Withdrawal)
    ensures
        b@.tenant_id == b.tenant_id@,
        b@.nama_toko == b.nama_toko@,
        b@.nama_pemilik == b.nama_pemilik@,
        b@.no_wa == b.no_wa@,
        b@.saldo_tersedia.minuend == b.saldo_tersedia.minuend.text@,
        b@.saldo_tersedia.subtrahend == b.saldo_tersedia.subtrahend.text@,
        b@.total_masuk == b.total_masuk.text@,
        b@.total_ditarik == b.total_ditarik.text@,
        w@.id == w.id@,
        w@.nama_toko == w.nama_toko@,
        w@.nama_pemilik == w.nama_pemilik@,
        w@.nominal == w.nominal.text@,
        w@.status == w.status@,
        w@.bank == w.bank@,
        w@.rekening == w.rekening@,
        w@.atas_nama == w.atas_nama@,
        w@.tanggal == w.tanggal@,
{
}

/// Profiles and finances show in their views field by field.
pub proof fn views_of_profiles_and_finances(p: Profile, f: Finances, e: HistoryEntry)
    ensures
        p@.id == p.id@,
        p@.nama_toko == p.nama_toko@,
        p@.nama_pemilik == p.nama_pemilik@,
        p@.nomor_wa == p.nomor_wa@,
        p@.email == p.email@,
        p@.alamat == p.alamat@,
        p@.no_ktp == p.no_ktp@,
        p@.no_npwp == p.no_npwp@,
        p@.bank_nama == p.bank_nama@,
        p@.bank_rekening == p.bank_rekening@,
        p@.bank_atas_nama == p.bank_atas_nama@,
        f@.total_masuk == f.total_masuk.text@,
        f@.terakhir_sinkron_masuk == f.terakhir_sinkron_masuk@,
        f@.riwayat_penarikan.len() == f.riwayat_penarikan.len(),
        forall|i: int|
            0 <= i < f.riwayat_penarikan.len() ==> #[trigger] f@.riwayat_penarikan[i]
                == f.riwayat_penarikan@[i]@,
        e@.id == e.id@,
        e@.nominal == e.nominal.text@,
        e@.status == e.status@,
        e@.waktu == e.waktu@,
{
}

/// Stages show in their views as they are.
pub proof fn views_of_stages(stage: Stage)
    ensures
        stage matches Stage::LoginPermit { username: u, password: p, secret: s } ==> (
        stage@ matches StageView::LoginPermit { username: vu, password: vp, secret: vs } && vu == u@
            && vp == p@ && vs == s@),
        stage matches Stage::LoginAdmin { password: p, secret: s } ==> (
        stage@ matches StageView::LoginAdmin { password: vp, secret: vs } && vp == p@ && vs == s@),
        stage matches Stage::ApprovalPermit { id: i } ==> (stage@ matches StageView::ApprovalPermit {
            id: v,
        } && v == i@),
        stage matches Stage::TenantPermit { id: i } ==> (stage@ matches StageView::TenantPermit {
            id: v,
        } && v == i@),
        stage matches Stage::TenantRow { id: i } ==> (stage@ matches StageView::TenantRow { id: v }
            && v == i@),
        stage matches Stage::TenantHistory { id: i, tenant: t } ==> (
        stage@ matches StageView::TenantHistory { id: v, tenant: vt } && v == i@ && vt == t@),
        stage matches Stage::TenantIncome { tenant: t, history: h } ==> (
        stage@ matches StageView::TenantIncome { tenant: vt, history: vh } && vt == t@ && vh.len()
            == h.len() && forall|k: int| 0 <= k < h.len() ==> #[trigger] vh[k] == h@[k]@),
        stage matches Stage::KycPermit { id: i, no_ktp: k, no_npwp: n } ==> (
        stage@ matches StageView::KycPermit { id: v, no_ktp: vk, no_npwp: vn } && v == i@ && vk
            == k@ && vn == n@),
        stage is BalancesPermit <==> stage@ is BalancesPermit,
        stage is BalancesRows <==> stage@ is BalancesRows,
        stage is WithdrawalsPermit <==> stage@ is WithdrawalsPermit,
        stage is WithdrawalsRows <==> stage@ is WithdrawalsRows,
        stage is ApprovalChange <==> stage@ is ApprovalChange,
        stage is KycChange <==> stage@ is KycChange,
{
}

} // verus!
