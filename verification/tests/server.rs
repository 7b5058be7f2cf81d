use bakoel_super_admin::database::Answer;
use bakoel_super_admin::flow::{Stage, Step};
use bakoel_super_admin::server::{bind_address, global_headers, resume, PERMITS};

#[test]
fn the_server_listens_on_all_interfaces() {
    assert_eq!(bind_address(None), "0.0.0.0:8000");
    assert_eq!(bind_address(Some("10000".to_string())), "0.0.0.0:10000");
}

#[test]
fn five_requests_may_use_the_database() {
    assert_eq!(PERMITS, 5);
}

#[test]
fn every_response_carries_these_headers() {
    assert_eq!(
        global_headers(),
        vec![
            ("x-content-type-options", "nosniff"),
            ("x-frame-options", "DENY"),
            ("strict-transport-security", "max-age=31536000; includeSubDomains"),
            ("x-xss-protection", "1; mode=block"),
        ]
    );
}

#[test]
fn every_request_is_replied_to_after_four_answers() {
    let mut step = resume(Stage::TenantPermit { id: "t".to_string() }, Answer::Permit);
    let row = || bakoel_super_admin::database::Row { cells: vec![] };
    for answer in [Answer::Row(Some(row())), Answer::Rows(vec![row()]), Answer::Row(None)] {
        step = match step {
            Step::Ask { stage, .. } => resume(stage, answer),
            done => done,
        };
    }
    assert!(matches!(step, Step::Done(_)));
}
