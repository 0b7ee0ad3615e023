use wicked_migration_server::db_util::{generate_json, JobEntry, Ledger, RetrieveError};
use wicked_migration_server::document::json_document;
use wicked_migration_server::files::{File, FileType, OutputEntry, PackagingError};

fn profile(name: &str, content: &str) -> File {
    File {
        file_content: content.to_string(),
        file_name: name.to_string(),
        file_type: FileType::NMconnection,
    }
}

fn entry(name: &str, content: Option<&str>) -> OutputEntry {
    OutputEntry { file_name: name.to_string(), content: content.map(|text| text.to_string()) }
}

fn ledger_with(id: &str, log: Option<&str>) -> Ledger {
    let mut ledger = Ledger::new();
    ledger
        .insert(JobEntry {
            id: id.to_string(),
            workspace_path: "/tmp/w".to_string(),
            log: log.map(|text| text.to_string()),
            created_at: 0,
        })
        .unwrap();
    ledger
}

#[test]
fn a_document_without_files() {
    assert_eq!(json_document("", &vec![]), r#"{"log":"","files":[]}"#);
    assert_eq!(json_document("all fine", &vec![]), r#"{"log":"all fine","files":[]}"#);
}

#[test]
fn a_document_holds_the_files_in_their_order() {
    let files = vec![profile("eth0.nmconnection", "id=eth0"), profile("br0.nmconnection", "id=br0")];
    assert_eq!(
        json_document("ok", &files),
        r#"{"log":"ok","files":[{"fileName":"eth0.nmconnection","fileContent":"id=eth0"},{"fileName":"br0.nmconnection","fileContent":"id=br0"}]}"#
    );
}

#[test]
fn a_document_escapes_what_json_cannot_hold() {
    let files = vec![profile("a\"b.nmconnection", "[connection]\nid=eth0\n\tx\\y")];
    assert_eq!(
        json_document("warn: \"eth0\"\nline two\u{1}", &files),
        "{\"log\":\"warn: \\\"eth0\\\"\\nline two\\u0001\",\"files\":[{\"fileName\":\"a\\\"b.nmconnection\",\"fileContent\":\"[connection]\\nid=eth0\\n\\tx\\\\y\"}]}"
    );
}

#[test]
fn a_document_keeps_text_outside_ascii() {
    assert_eq!(
        json_document("B\u{fc}ro \u{2713}", &vec![]),
        "{\"log\":\"B\u{fc}ro \u{2713}\",\"files\":[]}"
    );
}

#[test]
fn a_result_is_written_out_with_its_report() {
    let ledger = ledger_with("a", Some("converted 1 file"));
    let listing = Some(vec![entry("eth0.nmconnection", Some("id=eth0"))]);
    assert_eq!(
        generate_json("a", &ledger, &listing),
        Ok(r#"{"log":"converted 1 file","files":[{"fileName":"eth0.nmconnection","fileContent":"id=eth0"}]}"#.to_string())
    );
}

#[test]
fn a_result_without_report_has_an_empty_log() {
    let ledger = ledger_with("a", None);
    assert_eq!(
        generate_json("a", &ledger, &Some(vec![])),
        Ok(r#"{"log":"","files":[]}"#.to_string())
    );
}

#[test]
fn an_unknown_identifier_is_not_found_whatever_the_listing() {
    let ledger = ledger_with("a", Some("x"));
    assert_eq!(generate_json("b", &ledger, &Some(vec![])), Err(RetrieveError::NotFound));
    assert_eq!(generate_json("b", &ledger, &None), Err(RetrieveError::NotFound));
    assert_eq!(
        generate_json("b", &ledger, &Some(vec![entry("notes.txt", None)])),
        Err(RetrieveError::NotFound)
    );
}

#[test]
fn output_that_is_absent_fails_the_packaging() {
    let ledger = ledger_with("a", Some("x"));
    assert_eq!(
        generate_json("a", &ledger, &None),
        Err(RetrieveError::PackagingFailure(PackagingError::OutputMissing))
    );
}

#[test]
fn output_that_cannot_be_packed_fails_the_packaging() {
    let ledger = ledger_with("a", Some("x"));
    assert_eq!(
        generate_json("a", &ledger, &Some(vec![entry("notes.txt", Some("y"))])),
        Err(RetrieveError::PackagingFailure(PackagingError::NotNmconnection))
    );
    assert_eq!(
        generate_json("a", &ledger, &Some(vec![entry("eth0.nmconnection", None)])),
        Err(RetrieveError::PackagingFailure(PackagingError::Unreadable))
    );
    assert_eq!(
        generate_json("a", &ledger, &Some(vec![entry("eth0", Some("y"))])),
        Err(RetrieveError::PackagingFailure(PackagingError::PoorlyFormatted))
    );
}
