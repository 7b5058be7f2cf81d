use axum::http::HeaderMap;
use bakoel_super_admin::database::{Answer, Cell, Request, Row, Statement};
use bakoel_super_admin::flow::{Stage, Step};
use bakoel_super_admin::reply::{error_response, Body, Finances, Profile, Reply, Status};
use bakoel_super_admin::server::resume;
use bakoel_super_admin::session::issue_token;
use bakoel_super_admin::tenants::{
    get_all_tenant_balances, get_tenant_detail, start_balances, start_kyc, start_tenant,
    update_tenant_kyc, UpdateKycPayload,
};

fn admin() -> HeaderMap {
    let token = issue_token("rahasia", chrono::Utc::now().timestamp()).unwrap();
    let mut headers = HeaderMap::new();
    headers.insert("authorization", format!("Bearer {}", token).parse().unwrap());
    headers
}

fn row(cells: &[(&str, &str)]) -> Row {
    Row {
        cells: cells
            .iter()
            .map(|(column, text)| Cell {
                column: column.to_string(),
                text: Some(text.to_string()),
            })
            .collect(),
    }
}

fn ask(step: Step) -> (Request, Stage) {
    match step {
        Step::Ask { request, stage } => (request, stage),
        Step::Done(reply) => panic!("{:?}", reply),
    }
}

fn reply(step: Step) -> Reply {
    match step {
        Step::Done(reply) => reply,
        Step::Ask { request, .. } => panic!("{:?}", request),
    }
}

fn error(reply: Reply) -> (Status, String) {
    match reply.body {
        Body::Error { error } => (reply.status, error),
        other => panic!("{:?}", other),
    }
}

fn statement(request: Request) -> Statement {
    match request {
        Request::FetchOptional(s) | Request::FetchAll(s) | Request::Execute(s) => s,
        Request::Permit => panic!("a permit"),
    }
}

fn papers(no_ktp: &str, no_npwp: &str) -> UpdateKycPayload {
    UpdateKycPayload { no_ktp: no_ktp.to_string(), no_npwp: no_npwp.to_string() }
}

fn detail(history: Answer, income: Answer) -> (Profile, Finances) {
    let (request, stage) = ask(get_tenant_detail(&admin(), "rahasia", "t/1"));
    assert!(matches!(request, Request::Permit));
    let (request, stage) = ask(resume(stage, Answer::Permit));
    assert!(matches!(request, Request::FetchOptional(_)));
    let s = statement(request);
    assert_eq!(s.sql, "SELECT * FROM tenants WHERE id = ?");
    assert_eq!(s.params, vec!["t1".to_string()]);
    let tenant = row(&[
        ("id", "t1"),
        ("nama_toko", "Toko A"),
        ("nama_pemilik", "Ani"),
        ("nomor_wa", "0812"),
        ("email", "a@b"),
        ("alamat_penjemputan", "Jl. Satu"),
        ("no_ktp", "32"),
        ("no_npwp", "09"),
        ("bank_nama", "BCA"),
        ("bank_rekening", "123"),
    ]);
    let (request, stage) = ask(resume(stage, Answer::Row(Some(tenant))));
    assert!(matches!(request, Request::FetchAll(_)));
    let s = statement(request);
    assert!(s.sql.contains("ORDER BY waktu_pengajuan DESC LIMIT 50"));
    assert_eq!(s.params, vec!["t1".to_string()]);
    let (request, stage) = ask(resume(stage, history));
    assert!(matches!(request, Request::FetchOptional(_)));
    let s = statement(request);
    assert!(s.sql.contains("FROM tenant_incomes WHERE tenant_id = ?"));
    assert_eq!(s.params, vec!["t1".to_string()]);
    let reply = reply(resume(stage, income));
    assert_eq!(reply.status, Status::Success);
    match reply.body {
        Body::Tenant { profil, keuangan } => (profil, keuangan),
        other => panic!("{:?}", other),
    }
}

#[test]
fn tenants_are_for_the_super_admin() {
    let none = HeaderMap::new();
    let refused = (Status::Unauthorized, "Sesi tidak valid.".to_string());
    assert_eq!(error(reply(get_all_tenant_balances(&none, "rahasia"))), refused);
    assert_eq!(error(reply(get_tenant_detail(&none, "rahasia", "t1"))), refused);
    let long = papers("1234567890123456789012345678901", "");
    assert_eq!(error(reply(update_tenant_kyc(&none, "rahasia", "t1", &long))), refused);
}

#[test]
fn balances_are_listed() {
    let (request, stage) = ask(get_all_tenant_balances(&admin(), "rahasia"));
    assert!(matches!(request, Request::Permit));
    let (request, stage) = ask(resume(stage, Answer::Permit));
    assert!(matches!(request, Request::FetchAll(_)));
    let s = statement(request);
    assert!(s.sql.contains("status IN ('Pending', 'Selesai')"));
    assert!(s.sql.contains("ORDER BY t.created_at DESC LIMIT 1000"));
    assert!(s.params.is_empty());
    let rows = vec![
        row(&[
            ("tenant_id", "t1"),
            ("nama_toko", "Toko A"),
            ("nama_pemilik", "Ani"),
            ("nomor_wa", "0812"),
            ("total_masuk", "100.50"),
            ("total_keluar", "40"),
        ]),
        row(&[("tenant_id", "t2")]),
    ];
    match reply(resume(stage, Answer::Rows(rows))).body {
        Body::Balances(list) => {
            assert_eq!(list.len(), 2);
            assert_eq!(list[0].tenant_id, "t1");
            assert_eq!(list[0].nama_toko, "Toko A");
            assert_eq!(list[0].nama_pemilik, "Ani");
            assert_eq!(list[0].no_wa, "0812");
            assert_eq!(list[0].total_masuk.text, "100.50");
            assert_eq!(list[0].total_ditarik.text, "40");
            assert_eq!(list[0].saldo_tersedia.minuend.text, "100.50");
            assert_eq!(list[0].saldo_tersedia.subtrahend.text, "40");
            assert_eq!(list[1].tenant_id, "t2");
            assert_eq!(list[1].nama_toko, "");
            assert_eq!(list[1].total_masuk.text, "");
        }
        other => panic!("{:?}", other),
    }
}

#[test]
fn balances_that_fail_are_reported() {
    assert_eq!(
        error(reply(resume(Stage::BalancesRows, Answer::Failed))),
        (Status::InternalServerError, "Gagal memuat saldo.".to_string())
    );
    assert_eq!(
        error(reply(resume(Stage::BalancesPermit, Answer::Failed))),
        (Status::ServiceUnavailable, "Server sedang sibuk.".to_string())
    );
}

#[test]
fn a_tenant_is_shown() {
    let history = Answer::Rows(vec![
        row(&[("id", "w1"), ("nominal", "5"), ("status", "Selesai"), ("waktu_pengajuan", "kini")]),
        row(&[("id", "w2")]),
    ]);
    let income = Answer::Row(Some(row(&[("total", "77.5"), ("terakhir_sinkron", "kemarin")])));
    let (profil, keuangan) = detail(history, income);
    assert_eq!(profil.id, "t1");
    assert_eq!(profil.nama_toko, "Toko A");
    assert_eq!(profil.nama_pemilik, "Ani");
    assert_eq!(profil.nomor_wa, "0812");
    assert_eq!(profil.email, "a@b");
    assert_eq!(profil.alamat, "Jl. Satu");
    assert_eq!(profil.no_ktp, "32");
    assert_eq!(profil.no_npwp, "09");
    assert_eq!(profil.bank_nama, "BCA");
    assert_eq!(profil.bank_rekening, "123");
    assert_eq!(profil.bank_atas_nama, "");
    assert_eq!(keuangan.total_masuk.text, "77.5");
    assert_eq!(keuangan.terakhir_sinkron_masuk, "kemarin");
    assert_eq!(keuangan.riwayat_penarikan.len(), 2);
    assert_eq!(keuangan.riwayat_penarikan[0].id, "w1");
    assert_eq!(keuangan.riwayat_penarikan[0].nominal.text, "5");
    assert_eq!(keuangan.riwayat_penarikan[0].status, "Selesai");
    assert_eq!(keuangan.riwayat_penarikan[0].waktu, "kini");
    assert_eq!(keuangan.riwayat_penarikan[1].id, "w2");
    assert_eq!(keuangan.riwayat_penarikan[1].waktu, "");
}

#[test]
fn a_tenant_is_shown_without_its_money() {
    let (_, keuangan) = detail(Answer::Failed, Answer::Failed);
    assert_eq!(keuangan.total_masuk.text, "0");
    assert_eq!(keuangan.terakhir_sinkron_masuk, "Belum ada data");
    assert!(keuangan.riwayat_penarikan.is_empty());
    let (_, keuangan) = detail(Answer::Rows(vec![]), Answer::Row(None));
    assert_eq!(keuangan.total_masuk.text, "0");
    assert_eq!(keuangan.terakhir_sinkron_masuk, "Belum ada data");
}

#[test]
fn a_tenant_that_is_not_found_is_reported() {
    for answer in [Answer::Row(None), Answer::Failed] {
        let stage = Stage::TenantRow { id: "t1".to_string() };
        assert_eq!(
            error(reply(resume(stage, answer))),
            (Status::NotFound, "Tenant tidak ditemukan.".to_string())
        );
    }
    let stage = Stage::TenantPermit { id: "t1".to_string() };
    assert_eq!(
        error(reply(resume(stage, Answer::Failed))),
        (Status::ServiceUnavailable, "Server sedang sibuk.".to_string())
    );
}

#[test]
fn papers_are_stored_without_outer_space() {
    let payload = papers(" \u{3000}3201\t", "\n09.1 2\u{a0}");
    let (request, stage) = ask(update_tenant_kyc(&admin(), "rahasia", "t.1", &payload));
    assert!(matches!(request, Request::Permit));
    let (request, stage) = ask(resume(stage, Answer::Permit));
    assert!(matches!(request, Request::Execute(_)));
    let s = statement(request);
    assert_eq!(s.sql, "UPDATE tenants SET no_ktp = ?, no_npwp = ? WHERE id = ?");
    assert_eq!(s.params, vec!["3201".to_string(), "09.1 2".to_string(), "t1".to_string()]);
    for n in [0, 1] {
        let reply = reply(resume(Stage::KycChange, Answer::Changed(n)));
        assert_eq!(reply.status, Status::Success);
        assert!(matches!(reply.body, Body::Message { message }
            if message == "Data KYC berhasil disimpan!"));
    }
    assert!(matches!(stage, Stage::KycChange));
}

#[test]
fn papers_may_have_thirty_bytes() {
    let thirty = "123456789012345678901234567890";
    let more = "1234567890123456789012345678901";
    let wide = "\u{e9}\u{e9}\u{e9}\u{e9}\u{e9}\u{e9}\u{e9}\u{e9}\u{e9}\u{e9}\u{e9}\u{e9}\u{e9}\u{e9}\u{e9}";
    let refused = (
        Status::BadRequest,
        "Format ID terlalu panjang (Maks. 30 Karakter).".to_string(),
    );
    let step = |a: &str, b: &str| update_tenant_kyc(&admin(), "rahasia", "t1", &papers(a, b));
    ask(step(thirty, thirty));
    ask(step(&format!("  {}  ", thirty), ""));
    ask(step(wide, ""));
    assert_eq!(error(reply(step(more, ""))), refused);
    assert_eq!(error(reply(step("", more))), refused);
    assert_eq!(error(reply(step(&format!("{}x", wide), ""))), refused);
}

#[test]
fn an_update_that_fails_is_reported() {
    assert_eq!(
        error(reply(resume(Stage::KycChange, Answer::Failed))),
        (Status::InternalServerError, "Gagal menyimpan data KYC.".to_string())
    );
    let stage = Stage::KycPermit {
        id: String::new(),
        no_ktp: String::new(),
        no_npwp: String::new(),
    };
    assert_eq!(
        error(reply(resume(stage, Answer::Failed))),
        (Status::ServiceUnavailable, "Server sedang sibuk.".to_string())
    );
}

#[test]
fn tenant_requests_go_on_by_their_session() {
    let boss = || Ok("SUPER-BOSS".to_string());
    assert!(matches!(ask(start_balances(boss())).1, Stage::BalancesPermit));
    assert!(matches!(ask(start_tenant(boss(), "t-1!")).1, Stage::TenantPermit { id } if id == "t-1"));
    assert!(matches!(ask(start_kyc(boss(), "t1", &papers("1", "2"))).1, Stage::KycPermit { .. }));
    let step = start_kyc(Err(error_response(Status::Forbidden, "x")), "t1", &papers("1", "2"));
    assert_eq!(error(reply(step)), (Status::Forbidden, "x".to_string()));
}

#[test]
fn rows_are_read_by_column() {
    let row = Row {
        cells: vec![
            Cell { column: "a".to_string(), text: None },
            Cell { column: "b".to_string(), text: Some("1".to_string()) },
            Cell { column: "b".to_string(), text: Some("2".to_string()) },
        ],
    };
    assert_eq!(row.text("b"), "1");
    assert_eq!(row.text("a"), "");
    assert_eq!(row.text_or("a", "x"), "x");
    assert_eq!(row.text_or("c", "y"), "y");
}
