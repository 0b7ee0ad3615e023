use wicked_migration_server::db_util::{JobEntry, Ledger, LedgerError};
use wicked_migration_server::files::{File, FileType, OutputEntry, ValidationError};
use wicked_migration_server::migration::{migrate, ExecutionResult, MigrateError};
use wicked_migration_server::reply::{
    Reply, BAD_REQUEST, INTERNAL_SERVER_ERROR, NOT_FOUND, UNPROCESSABLE_ENTITY,
};
use wicked_migration_server::routes::{
    file_from_field, read_multipart_post_data_to_file_arr, redirect, redirect_post_multipart_form,
    redirect_to_result, refuse, return_config_file, return_config_json, FormField, Retrieval,
};

fn field(content_type: Option<&str>, file_name: Option<&str>, data: &str) -> FormField {
    FormField {
        content_type: content_type.map(|text| text.to_string()),
        file_name: file_name.map(|text| text.to_string()),
        data: Ok(data.to_string()),
    }
}

fn file(name: &str, content: &str, kind: FileType) -> File {
    File { file_content: content.to_string(), file_name: name.to_string(), file_type: kind }
}

fn entry(name: &str, content: Option<&str>) -> OutputEntry {
    OutputEntry { file_name: name.to_string(), content: content.map(|text| text.to_string()) }
}

fn ledger_with(rows: &[(&str, &str)]) -> Ledger {
    let mut ledger = Ledger::new();
    for (id, workspace) in rows {
        ledger
            .insert(JobEntry {
                id: id.to_string(),
                workspace_path: workspace.to_string(),
                log: Some("done".to_string()),
                created_at: 0,
            })
            .unwrap();
    }
    ledger
}

#[test]
fn the_statuses() {
    assert_eq!(BAD_REQUEST, 400);
    assert_eq!(NOT_FOUND, 404);
    assert_eq!(UNPROCESSABLE_ENTITY, 422);
    assert_eq!(INTERNAL_SERVER_ERROR, 500);
    assert_eq!(Reply::Redirect("/tar/x".to_string()).status(), 303);
    assert_eq!(Reply::Text { status: 422, body: String::new() }.status(), 422);
    assert_eq!(Reply::Json("{}".to_string()).status(), 200);
    assert_eq!(Reply::Archive(vec![1, 2, 3]).status(), 200);
    assert_eq!(Reply::Status(404).status(), 404);
}

#[test]
fn a_part_becomes_a_file() {
    assert_eq!(
        file_from_field(field(Some("text/xml"), Some("wicked.xml"), "<interface/>")),
        Ok(file("wicked.xml", "<interface/>", FileType::Xml))
    );
    assert_eq!(
        file_from_field(field(Some("ifcfg-eth0"), Some("eth0"), "BOOTPROTO=dhcp")),
        Ok(file("eth0", "BOOTPROTO=dhcp", FileType::Sysconfig))
    );
}

#[test]
fn a_part_without_declared_type_is_turned_away() {
    assert_eq!(
        file_from_field(field(None, Some("wicked.xml"), "")),
        Err(ValidationError::MissingType)
    );
    assert_eq!(file_from_field(field(None, None, "")), Err(ValidationError::MissingType));
}

#[test]
fn a_part_without_file_name_is_turned_away() {
    assert_eq!(
        file_from_field(field(Some("wicked.xml"), None, "")),
        Err(ValidationError::MissingFileName)
    );
}

#[test]
fn the_kind_is_looked_at_before_the_file_name_is_missed() {
    assert_eq!(
        file_from_field(field(Some("text/plain"), None, "")),
        Err(ValidationError::UnrecognizedType("text/plain".to_string()))
    );
}

#[test]
fn a_part_whose_body_could_not_be_read_is_turned_away() {
    let part = FormField {
        content_type: Some("text/xml".to_string()),
        file_name: Some("wicked.xml".to_string()),
        data: Err("connection reset".to_string()),
    };
    assert_eq!(
        file_from_field(part),
        Err(ValidationError::UnreadableBody("connection reset".to_string()))
    );
    let part = FormField {
        content_type: Some("text/plain".to_string()),
        file_name: Some("notes.txt".to_string()),
        data: Err("connection reset".to_string()),
    };
    assert_eq!(
        file_from_field(part),
        Err(ValidationError::UnrecognizedType("notes.txt".to_string()))
    );
    let part = FormField {
        content_type: Some("text/xml".to_string()),
        file_name: Some("wicked.xml".to_string()),
        data: Err("connection reset".to_string()),
    };
    assert_eq!(
        redirect_post_multipart_form(vec![part]),
        Err(Reply::Text { status: 400, body: "An error occured: connection reset".to_string() })
    );
}

#[test]
fn a_part_of_no_known_kind_is_turned_away() {
    assert_eq!(
        file_from_field(field(Some("text/plain"), Some("notes.txt"), "")),
        Err(ValidationError::UnrecognizedType("notes.txt".to_string()))
    );
}

#[test]
fn the_parts_become_files_in_their_order() {
    let fields = vec![
        field(Some("text/plain"), Some("ifcfg-eth0"), "a"),
        field(Some("text/plain"), Some("routes"), "b"),
    ];
    assert_eq!(
        read_multipart_post_data_to_file_arr(fields),
        Ok(vec![file("ifcfg-eth0", "a", FileType::Sysconfig), file("routes", "b", FileType::Sysconfig)])
    );
    assert_eq!(read_multipart_post_data_to_file_arr(vec![]), Ok(vec![]));
}

#[test]
fn the_first_bad_part_decides_the_error() {
    let fields = vec![
        field(Some("text/plain"), Some("ifcfg-eth0"), "a"),
        field(None, Some("routes"), "b"),
        field(Some("text/plain"), Some("notes.txt"), "c"),
    ];
    assert_eq!(read_multipart_post_data_to_file_arr(fields), Err(ValidationError::MissingType));
    let fields = vec![
        field(Some("text/plain"), Some("notes.txt"), "c"),
        field(None, Some("routes"), "b"),
    ];
    assert_eq!(
        read_multipart_post_data_to_file_arr(fields),
        Err(ValidationError::UnrecognizedType("notes.txt".to_string()))
    );
}

#[test]
fn a_form_without_parts_is_turned_away() {
    assert_eq!(
        redirect_post_multipart_form(vec![]),
        Err(Reply::Text {
            status: 400,
            body: "An error occured: No file in multipart/form data".to_string(),
        })
    );
    assert_eq!(
        refuse(&ValidationError::NoFiles),
        Reply::Text {
            status: 400,
            body: "An error occured: No file in multipart/form data".to_string(),
        }
    );
}

#[test]
fn an_admitted_batch_holds_a_file_for_every_part() {
    let one = redirect_post_multipart_form(vec![field(Some("text/xml"), Some("a.xml"), "x")]);
    assert_eq!(one, Ok(vec![file("a.xml", "x", FileType::Xml)]));
    let three = redirect_post_multipart_form(vec![
        field(Some("text/plain"), Some("ifcfg-eth0"), "a"),
        field(Some("text/plain"), Some("ifcfg-eth1"), "b"),
        field(Some("text/plain"), Some("routes"), "c"),
    ]);
    assert_eq!(three.unwrap().len(), 3);
}

#[test]
fn a_uniform_submission_is_admitted() {
    let fields = vec![
        field(Some("text/plain"), Some("ifcfg-eth0"), "a"),
        field(Some("text/plain"), Some("config"), "b"),
    ];
    assert_eq!(
        redirect_post_multipart_form(fields),
        Ok(vec![file("ifcfg-eth0", "a", FileType::Sysconfig), file("config", "b", FileType::Sysconfig)])
    );
}

#[test]
fn a_submission_of_mixed_kinds_is_turned_away() {
    let fields = vec![
        field(Some("text/plain"), Some("ifcfg-eth0"), "a"),
        field(Some("text/xml"), Some("wicked.xml"), "b"),
    ];
    assert_eq!(
        redirect_post_multipart_form(fields),
        Err(Reply::Text {
            status: 400,
            body: "File types not uniform, please dont mix ifcfg and .xml files".to_string(),
        })
    );
}

#[test]
fn a_submission_with_a_bad_part_is_turned_away_with_the_reason() {
    let fields = vec![field(Some("text/plain"), Some("notes.txt"), "a")];
    assert_eq!(
        redirect_post_multipart_form(fields),
        Err(Reply::Text {
            status: 400,
            body: "An error occured: File type of notes.txt not recognized or supported".to_string(),
        })
    );
    let fields = vec![field(None, Some("wicked.xml"), "a")];
    assert_eq!(
        redirect_post_multipart_form(fields),
        Err(Reply::Text {
            status: 400,
            body: "An error occured: Type missing in multipart/form data".to_string(),
        })
    );
    let fields = vec![field(Some("wicked.xml"), None, "a")];
    assert_eq!(
        redirect_post_multipart_form(fields),
        Err(Reply::Text {
            status: 400,
            body: "An error occured: file name field missing in multipart/form data".to_string(),
        })
    );
}

#[test]
fn a_bad_part_is_reported_before_mixed_kinds() {
    let fields = vec![
        field(Some("text/plain"), Some("ifcfg-eth0"), "a"),
        field(Some("text/xml"), Some("wicked.xml"), "b"),
        field(Some("text/plain"), Some("notes.txt"), "c"),
    ];
    assert_eq!(
        redirect_post_multipart_form(fields),
        Err(Reply::Text {
            status: 400,
            body: "An error occured: File type of notes.txt not recognized or supported".to_string(),
        })
    );
}

#[test]
fn refusals_have_the_status_400() {
    assert_eq!(
        refuse(&ValidationError::MixedTypes),
        Reply::Text {
            status: 400,
            body: "File types not uniform, please dont mix ifcfg and .xml files".to_string(),
        }
    );
    assert_eq!(
        refuse(&ValidationError::MissingFileName),
        Reply::Text {
            status: 400,
            body: "An error occured: file name field missing in multipart/form data".to_string(),
        }
    );
}

#[test]
fn a_raw_body_is_one_export() {
    assert_eq!(
        redirect("<interface/>".to_string()),
        vec![file("wicked.xml", "<interface/>", FileType::Xml)]
    );
    assert_eq!(redirect(String::new()), vec![file("wicked.xml", "", FileType::Xml)]);
}

#[test]
fn a_result_sends_the_client_on() {
    assert_eq!(
        redirect_to_result("/json", Ok("1234".to_string())),
        Reply::Redirect("/json/1234".to_string())
    );
    assert_eq!(
        redirect_to_result("/multipart", Ok("1234".to_string())),
        Reply::Redirect("/tar/1234".to_string())
    );
    assert_eq!(redirect_to_result("/", Ok("1234".to_string())), Reply::Redirect("/tar/1234".to_string()));
    assert_eq!(
        redirect_to_result("/json/", Ok("1234".to_string())),
        Reply::Redirect("/tar/1234".to_string())
    );
}

#[test]
fn an_error_is_answered_in_place_of_a_redirect() {
    assert_eq!(
        redirect_to_result("/json", Err(MigrateError::MigrationError("bad".to_string()))),
        Reply::Text { status: 422, body: "bad".to_string() }
    );
    assert_eq!(
        redirect_to_result("/", Err(MigrateError::ServerError("worse".to_string()))),
        Reply::Status(500)
    );
}

#[test]
fn a_result_is_handed_out_once_as_json() {
    let mut ledger = ledger_with(&[("a", "/tmp/a"), ("b", "/tmp/b")]);
    let listing = vec![entry("eth0.nmconnection", Some("id=eth0"))];
    assert_eq!(
        return_config_json("a", &mut ledger, Some(listing)),
        Retrieval {
            reply: Reply::Json(
                r#"{"log":"done","files":[{"fileName":"eth0.nmconnection","fileContent":"id=eth0"}]}"#
                    .to_string()
            ),
            workspace: Some("/tmp/a".to_string()),
        }
    );
    assert_eq!(ledger.len(), 1);
    let listing = vec![entry("eth0.nmconnection", Some("id=eth0"))];
    assert_eq!(
        return_config_json("a", &mut ledger, Some(listing)),
        Retrieval { reply: Reply::Status(404), workspace: None }
    );
    assert_eq!(ledger.len(), 1);
    assert!(ledger.lookup("b").is_ok());
}

#[test]
fn a_result_is_handed_out_once_as_archive() {
    let mut ledger = ledger_with(&[("a", "/tmp/a"), ("b", "/tmp/b")]);
    assert_eq!(
        return_config_file("b", &mut ledger, Some(vec![0x75, 0x73, 0x74, 0x61, 0x72])),
        Retrieval {
            reply: Reply::Archive(vec![0x75, 0x73, 0x74, 0x61, 0x72]),
            workspace: Some("/tmp/b".to_string()),
        }
    );
    assert_eq!(
        return_config_file("b", &mut ledger, Some(vec![0x75, 0x73, 0x74, 0x61, 0x72])),
        Retrieval { reply: Reply::Status(404), workspace: None }
    );
    assert_eq!(
        return_config_json("b", &mut ledger, Some(vec![])),
        Retrieval { reply: Reply::Status(404), workspace: None }
    );
    assert_eq!(ledger.len(), 1);
}

#[test]
fn a_result_that_cannot_be_packed_is_consumed_all_the_same() {
    let mut ledger = ledger_with(&[("a", "/tmp/a"), ("b", "/tmp/b")]);
    assert_eq!(
        return_config_json("a", &mut ledger, Some(vec![entry("notes.txt", Some("x"))])),
        Retrieval { reply: Reply::Status(500), workspace: Some("/tmp/a".to_string()) }
    );
    assert_eq!(ledger.lookup("a"), Err(LedgerError::NotFound));
    assert_eq!(
        return_config_json("b", &mut ledger, None),
        Retrieval { reply: Reply::Status(500), workspace: Some("/tmp/b".to_string()) }
    );
    assert_eq!(ledger.len(), 0);
}

#[test]
fn an_archive_that_could_not_be_made_consumes_the_result_all_the_same() {
    let mut ledger = ledger_with(&[("a", "/tmp/a")]);
    assert_eq!(
        return_config_file("a", &mut ledger, None),
        Retrieval { reply: Reply::Status(500), workspace: Some("/tmp/a".to_string()) }
    );
    assert_eq!(ledger.len(), 0);
    assert_eq!(
        return_config_file("a", &mut ledger, None),
        Retrieval { reply: Reply::Status(404), workspace: None }
    );
}

#[test]
fn an_unknown_identifier_is_answered_with_404() {
    let mut ledger = ledger_with(&[("a", "/tmp/a")]);
    assert_eq!(
        return_config_json("zz", &mut ledger, None),
        Retrieval { reply: Reply::Status(404), workspace: None }
    );
    assert_eq!(
        return_config_file("", &mut ledger, Some(vec![1])),
        Retrieval { reply: Reply::Status(404), workspace: None }
    );
    assert_eq!(ledger.len(), 1);
}

#[test]
fn a_submission_can_be_fetched_at_once() {
    let mut ledger = Ledger::new();
    let settled = migrate(
        Ok(ExecutionResult { log: "converted 2 files".to_string(), succeeded: true }),
        "/tmp/w".to_string(),
        100,
        &mut ledger,
    );
    let id = settled.outcome.unwrap();
    let converted =
        vec![entry("eth0.nmconnection", Some("id=eth0")), entry("eth1.nmconnection", Some("id=eth1"))];
    let retrieval = return_config_json(&id, &mut ledger, Some(converted));
    assert_eq!(
        retrieval,
        Retrieval {
            reply: Reply::Json(
                r#"{"log":"converted 2 files","files":[{"fileName":"eth0.nmconnection","fileContent":"id=eth0"},{"fileName":"eth1.nmconnection","fileContent":"id=eth1"}]}"#
                    .to_string()
            ),
            workspace: Some("/tmp/w".to_string()),
        }
    );
    assert_eq!(ledger.len(), 0);
}
