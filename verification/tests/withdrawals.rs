use axum::http::HeaderMap;
use bakoel_super_admin::database::{Answer, Cell, Request, Row};
use bakoel_super_admin::flow::{Stage, Step};
use bakoel_super_admin::reply::{Body, Reply, Status};
use bakoel_super_admin::server::resume;
use bakoel_super_admin::session::issue_token;
use bakoel_super_admin::withdrawals::{
    approve_withdrawal, get_all_withdrawals, start_approval, start_withdrawals,
};

fn admin() -> HeaderMap {
    let token = issue_token("rahasia", chrono::Utc::now().timestamp()).unwrap();
    let mut headers = HeaderMap::new();
    headers.insert("authorization", format!("Bearer {}", token).parse().unwrap());
    headers
}

fn row(cells: &[(&str, Option<&str>)]) -> Row {
    Row {
        cells: cells
            .iter()
            .map(|(column, text)| Cell {
                column: column.to_string(),
                text: text.map(|t| t.to_string()),
            })
            .collect(),
    }
}

fn ask(step: Step) -> (Request, Stage) {
    match step {
        Step::Ask { request, stage } => (request, stage),
        Step::Done(reply) => panic!("{:?}", reply),
    }
}

fn reply(step: Step) -> Reply {
    match step {
        Step::Done(reply) => reply,
        Step::Ask { request, .. } => panic!("{:?}", request),
    }
}

fn error(reply: Reply) -> (Status, String) {
    match reply.body {
        Body::Error { error } => (reply.status, error),
        other => panic!("{:?}", other),
    }
}

#[test]
fn withdrawals_are_for_the_super_admin() {
    let refused = (Status::Unauthorized, "Sesi tidak valid.".to_string());
    assert_eq!(error(reply(get_all_withdrawals(&HeaderMap::new(), "rahasia"))), refused);
    assert_eq!(error(reply(approve_withdrawal(&HeaderMap::new(), "rahasia", "1"))), refused);
    let invalid = (Status::Unauthorized, "Token kedaluarsa atau invalid.".to_string());
    assert_eq!(error(reply(get_all_withdrawals(&admin(), "lain"))), invalid);
}

#[test]
fn withdrawals_are_listed() {
    let (request, stage) = ask(get_all_withdrawals(&admin(), "rahasia"));
    assert!(matches!(request, Request::Permit));
    let (request, stage) = ask(resume(stage, Answer::Permit));
    match request {
        Request::FetchAll(statement) => {
            assert!(statement.sql.contains("FROM ledger_out l LEFT JOIN tenants t"));
            assert!(statement.sql.contains("ORDER BY l.waktu_pengajuan DESC LIMIT 500"));
            assert!(statement.params.is_empty());
        }
        other => panic!("{:?}", other),
    }
    let rows = vec![
        row(&[
            ("id", Some("w1")),
            ("tenant_id", Some("t1")),
            ("nominal", Some("12500.50")),
            ("nama_bank", Some("BCA")),
            ("nomor_rekening", Some("123")),
            ("atas_nama", Some("Ani")),
            ("status", Some("Pending")),
            ("waktu_pengajuan", Some("2024-01-02")),
            ("nama_toko", Some("Toko A")),
            ("nama_pemilik", Some("Ani S")),
        ]),
        row(&[("id", Some("w2")), ("nama_toko", None), ("waktu_pengajuan", None)]),
    ];
    match reply(resume(stage, Answer::Rows(rows))).body {
        Body::Withdrawals(list) => {
            assert_eq!(list.len(), 2);
            assert_eq!(list[0].id, "w1");
            assert_eq!(list[0].nama_toko, "Toko A");
            assert_eq!(list[0].nama_pemilik, "Ani S");
            assert_eq!(list[0].nominal.text, "12500.50");
            assert_eq!(list[0].status, "Pending");
            assert_eq!(list[0].bank, "BCA");
            assert_eq!(list[0].rekening, "123");
            assert_eq!(list[0].atas_nama, "Ani");
            assert_eq!(list[0].tanggal, "2024-01-02");
            assert_eq!(list[1].id, "w2");
            assert_eq!(list[1].nama_toko, "Anonim");
            assert_eq!(list[1].nama_pemilik, "-");
            assert_eq!(list[1].nominal.text, "");
            assert_eq!(list[1].tanggal, "");
        }
        other => panic!("{:?}", other),
    }
}

#[test]
fn a_list_of_withdrawals_that_fails_is_reported() {
    assert_eq!(
        error(reply(resume(Stage::WithdrawalsRows, Answer::Failed))),
        (Status::InternalServerError, "Gagal memuat antrean.".to_string())
    );
    assert_eq!(
        error(reply(resume(Stage::WithdrawalsPermit, Answer::Failed))),
        (Status::ServiceUnavailable, "Server sedang sibuk.".to_string())
    );
}

#[test]
fn an_approval_changes_a_pending_withdrawal() {
    let (request, stage) = ask(approve_withdrawal(&admin(), "rahasia", "../w-1' --"));
    assert!(matches!(request, Request::Permit));
    let (request, stage) = ask(resume(stage, Answer::Permit));
    match request {
        Request::Execute(statement) => {
            assert_eq!(
                statement.sql,
                "UPDATE ledger_out SET status = 'Selesai', waktu_selesai = CURRENT_TIMESTAMP \
                 WHERE id = ? AND status = 'Pending'"
            );
            assert_eq!(statement.params, vec!["w-1--".to_string()]);
        }
        other => panic!("{:?}", other),
    }
    let reply = reply(resume(stage, Answer::Changed(1)));
    assert_eq!(reply.status, Status::Success);
    assert!(matches!(reply.body, Body::Message { message } if message == "Transfer Sukses!"));
}

#[test]
fn an_approval_that_changes_nothing_conflicts() {
    assert_eq!(
        error(reply(resume(Stage::ApprovalChange, Answer::Changed(0)))),
        (
            Status::Conflict,
            "Pengajuan tidak ditemukan atau sudah diproses.".to_string()
        )
    );
}

#[test]
fn an_approval_that_fails_is_reported() {
    assert_eq!(
        error(reply(resume(Stage::ApprovalChange, Answer::Failed))),
        (Status::InternalServerError, "Gagal memproses ke database.".to_string())
    );
    assert_eq!(
        error(reply(resume(Stage::ApprovalPermit { id: "1".to_string() }, Answer::Failed))),
        (Status::ServiceUnavailable, "Server sedang sibuk.".to_string())
    );
}

#[test]
fn requests_go_on_by_their_session() {
    let step = start_withdrawals(Ok("SUPER-BOSS".to_string()));
    assert!(matches!(step, Step::Ask { request: Request::Permit, stage: Stage::WithdrawalsPermit }));
    match start_approval(Ok("SUPER-BOSS".to_string()), "a/1") {
        Step::Ask { stage: Stage::ApprovalPermit { id }, .. } => assert_eq!(id, "a1"),
        other => panic!("{:?}", other),
    }
    let refusal = bakoel_super_admin::reply::error_response(Status::Forbidden, "x");
    let step = start_withdrawals(Err(refusal));
    assert_eq!(error(reply(step)), (Status::Forbidden, "x".to_string()));
}

struct Entry {
    id: String,
    status: String,
    waktu_selesai: Option<u64>,
}

fn entry(id: &str, status: &str) -> Entry {
    Entry { id: id.to_string(), status: status.to_string(), waktu_selesai: None }
}

fn approve(ledger: &mut Vec<Entry>, id: &str, time: u64) -> Reply {
    let (_, stage) = ask(approve_withdrawal(&admin(), "rahasia", id));
    let (request, stage) = ask(resume(stage, Answer::Permit));
    let statement = match request {
        Request::Execute(statement) => statement,
        other => panic!("{:?}", other),
    };
    assert!(statement.sql.ends_with("WHERE id = ? AND status = 'Pending'"));
    let mut changed: u64 = 0;
    for entry in ledger.iter_mut() {
        if entry.id == statement.params[0] && entry.status == "Pending" {
            entry.status = "Selesai".to_string();
            entry.waktu_selesai = Some(time);
            changed += 1;
        }
    }
    reply(resume(stage, Answer::Changed(changed)))
}

#[test]
fn a_withdrawal_is_approved_once() {
    let conflict =
        (Status::Conflict, "Pengajuan tidak ditemukan atau sudah diproses.".to_string());
    let mut ledger = vec![entry("w-1", "Pending"), entry("w-2", "Pending"), entry("w-3", "Gagal")];
    assert_eq!(approve(&mut ledger, "w-1", 10).status, Status::Success);
    assert_eq!(error(approve(&mut ledger, "w-1", 20)), conflict);
    assert_eq!(error(approve(&mut ledger, "w-1/../", 30)), conflict);
    assert_eq!(error(approve(&mut ledger, "w-3", 40)), conflict);
    assert_eq!(error(approve(&mut ledger, "w-4", 50)), conflict);
    assert_eq!((ledger[0].status.as_str(), ledger[0].waktu_selesai), ("Selesai", Some(10)));
    assert_eq!((ledger[1].status.as_str(), ledger[1].waktu_selesai), ("Pending", None));
    assert_eq!((ledger[2].status.as_str(), ledger[2].waktu_selesai), ("Gagal", None));
    ledger[0].status = "Pending".to_string();
    assert_eq!(approve(&mut ledger, "w-1", 60).status, Status::Success);
    assert_eq!(ledger[0].waktu_selesai, Some(60));
}
