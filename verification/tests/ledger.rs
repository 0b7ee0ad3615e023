use wicked_migration_server::db_util::{
    add_migration_result_to_db, async_db_cleanup, async_jobs, create_db, delete_db_entry, get_tar,
    read_from_db, reconcile, rm_file_after_expiration, JobEntry, Ledger, LedgerError, Reconciled,
    StoredRow,
    CLEANUP_INTERVAL_IN_SEC, CYCLES_PER_PULL, FILE_EXPIRATION_IN_SEC, FIRST_CYCLE,
};

fn row(id: &str, workspace: &str, created_at: u64) -> JobEntry {
    JobEntry {
        id: id.to_string(),
        workspace_path: workspace.to_string(),
        log: Some(format!("log of {}", id)),
        created_at,
    }
}

fn is_lower_hex(c: char) -> bool {
    matches!(c, '0'..='9' | 'a'..='f')
}

#[test]
fn a_new_ledger_is_empty() {
    let ledger = Ledger::new();
    assert_eq!(ledger.len(), 0);
    assert_eq!(ledger.lookup("a"), Err(LedgerError::NotFound));
}

#[test]
fn an_inserted_row_is_found() {
    let mut ledger = Ledger::new();
    assert_eq!(ledger.insert(row("a", "/tmp/a", 10)), Ok(()));
    assert_eq!(ledger.insert(row("b", "/tmp/b", 20)), Ok(()));
    assert_eq!(ledger.len(), 2);
    assert_eq!(ledger.lookup("a"), Ok(row("a", "/tmp/a", 10)));
    assert_eq!(ledger.lookup("b"), Ok(row("b", "/tmp/b", 20)));
    assert_eq!(ledger.lookup("c"), Err(LedgerError::NotFound));
    assert_eq!(ledger.lookup(""), Err(LedgerError::NotFound));
}

#[test]
fn an_identifier_is_taken_once() {
    let mut ledger = Ledger::new();
    assert_eq!(ledger.insert(row("a", "/tmp/a", 10)), Ok(()));
    assert_eq!(ledger.insert(row("a", "/tmp/other", 99)), Err(LedgerError::PersistenceError));
    assert_eq!(ledger.len(), 1);
    assert_eq!(ledger.lookup("a"), Ok(row("a", "/tmp/a", 10)));
}

#[test]
fn a_removed_row_is_gone() {
    let mut ledger = Ledger::new();
    ledger.insert(row("a", "/tmp/a", 10)).unwrap();
    ledger.insert(row("b", "/tmp/b", 20)).unwrap();
    ledger.insert(row("c", "/tmp/c", 30)).unwrap();
    assert_eq!(ledger.delete("b"), Some(row("b", "/tmp/b", 20)));
    assert_eq!(ledger.len(), 2);
    assert_eq!(ledger.lookup("b"), Err(LedgerError::NotFound));
    assert_eq!(ledger.lookup("a"), Ok(row("a", "/tmp/a", 10)));
    assert_eq!(ledger.lookup("c"), Ok(row("c", "/tmp/c", 30)));
}

#[test]
fn to_delete_twice_is_no_error() {
    let mut ledger = Ledger::new();
    ledger.insert(row("a", "/tmp/a", 10)).unwrap();
    ledger.insert(row("b", "/tmp/b", 20)).unwrap();
    assert_eq!(delete_db_entry("a", &mut ledger), Some("/tmp/a".to_string()));
    assert_eq!(delete_db_entry("a", &mut ledger), None);
    assert_eq!(delete_db_entry("a", &mut ledger), None);
    assert_eq!(ledger.len(), 1);
    assert_eq!(ledger.lookup("b"), Ok(row("b", "/tmp/b", 20)));
    assert_eq!(delete_db_entry("never", &mut Ledger::new()), None);
}

#[test]
fn an_identifier_is_free_again_after_its_row_left() {
    let mut ledger = Ledger::new();
    ledger.insert(row("a", "/tmp/a", 10)).unwrap();
    ledger.delete("a");
    assert_eq!(ledger.insert(row("a", "/tmp/a2", 11)), Ok(()));
    assert_eq!(ledger.lookup("a"), Ok(row("a", "/tmp/a2", 11)));
}

#[test]
fn the_reaper_takes_rows_older_than_the_time_to_live() {
    assert_eq!(FILE_EXPIRATION_IN_SEC, 300);
    let mut ledger = Ledger::new();
    ledger.insert(row("older", "/tmp/older", 699)).unwrap();
    ledger.insert(row("edge", "/tmp/edge", 700)).unwrap();
    ledger.insert(row("newer", "/tmp/newer", 701)).unwrap();
    ledger.insert(row("ancient", "/tmp/ancient", 0)).unwrap();
    ledger.insert(row("future", "/tmp/future", 5000)).unwrap();
    let reclaimed = rm_file_after_expiration(&mut ledger, 1000);
    assert_eq!(reclaimed, vec![row("older", "/tmp/older", 699), row("ancient", "/tmp/ancient", 0)]);
    assert_eq!(ledger.len(), 3);
    assert_eq!(ledger.lookup("older"), Err(LedgerError::NotFound));
    assert_eq!(ledger.lookup("ancient"), Err(LedgerError::NotFound));
    assert_eq!(ledger.lookup("edge"), Ok(row("edge", "/tmp/edge", 700)));
    assert_eq!(ledger.lookup("newer"), Ok(row("newer", "/tmp/newer", 701)));
    assert_eq!(ledger.lookup("future"), Ok(row("future", "/tmp/future", 5000)));
}

#[test]
fn nothing_expires_before_the_time_to_live_has_passed_once() {
    let mut ledger = Ledger::new();
    ledger.insert(row("a", "/tmp/a", 0)).unwrap();
    assert_eq!(rm_file_after_expiration(&mut ledger, 0), vec![]);
    assert_eq!(rm_file_after_expiration(&mut ledger, 299), vec![]);
    assert_eq!(rm_file_after_expiration(&mut ledger, 300), vec![]);
    assert_eq!(ledger.len(), 1);
    assert_eq!(rm_file_after_expiration(&mut ledger, 301), vec![row("a", "/tmp/a", 0)]);
    assert_eq!(ledger.len(), 0);
}

#[test]
fn the_reaper_copes_with_the_largest_times() {
    let mut ledger = Ledger::new();
    ledger.insert(row("a", "/tmp/a", u64::MAX)).unwrap();
    ledger.insert(row("b", "/tmp/b", u64::MAX - 301)).unwrap();
    assert_eq!(
        rm_file_after_expiration(&mut ledger, u64::MAX),
        vec![row("b", "/tmp/b", u64::MAX - 301)]
    );
    assert_eq!(ledger.len(), 1);
}

#[test]
fn expired_rows_are_handed_out_in_their_order() {
    let mut ledger = Ledger::new();
    ledger.insert(row("a", "/tmp/a", 100)).unwrap();
    ledger.insert(row("b", "/tmp/b", 2000)).unwrap();
    ledger.insert(row("c", "/tmp/c", 200)).unwrap();
    assert_eq!(
        rm_file_after_expiration(&mut ledger, 2100),
        vec![row("a", "/tmp/a", 100), row("c", "/tmp/c", 200)]
    );
    assert_eq!(ledger.len(), 1);
    assert_eq!(rm_file_after_expiration(&mut ledger, 2100), vec![]);
    assert_eq!(ledger.lookup("b"), Ok(row("b", "/tmp/b", 2000)));
}

#[test]
fn a_cycle_of_the_reaper_rests_fifteen_seconds() {
    assert_eq!(CLEANUP_INTERVAL_IN_SEC, 15);
    let mut ledger = Ledger::new();
    ledger.insert(row("a", "/tmp/a", 100)).unwrap();
    let cycle = async_db_cleanup(&mut ledger, 100 + 301);
    assert_eq!(cycle.reclaimed, vec![row("a", "/tmp/a", 100)]);
    assert_eq!(cycle.sleep_secs, 15);
    assert_eq!(ledger.len(), 0);
}

#[test]
fn the_image_is_fetched_with_every_sixtieth_cycle() {
    assert_eq!(CYCLES_PER_PULL, 60);
    assert_eq!(FIRST_CYCLE, 60);
    let mut ledger = Ledger::new();
    let first = async_jobs(&mut ledger, 0, FIRST_CYCLE);
    assert!(first.pull_image);
    assert_eq!(first.loop_counter, 0);
    assert_eq!(first.cleanup.sleep_secs, 15);
    let mut counter = first.loop_counter;
    for _ in 0..59 {
        let cycle = async_jobs(&mut ledger, 0, counter);
        assert!(!cycle.pull_image);
        assert_eq!(cycle.loop_counter, counter + 1);
        counter = cycle.loop_counter;
    }
    assert_eq!(counter, 59);
    let sixtieth = async_jobs(&mut ledger, 0, counter);
    assert!(sixtieth.pull_image);
    assert_eq!(sixtieth.loop_counter, 0);
    let overdue = async_jobs(&mut ledger, 0, u32::MAX);
    assert!(overdue.pull_image);
    assert_eq!(overdue.loop_counter, 0);
}

#[test]
fn a_cycle_of_the_background_task_reaps() {
    let mut ledger = Ledger::new();
    ledger.insert(row("a", "/tmp/a", 100)).unwrap();
    ledger.insert(row("b", "/tmp/b", 1000)).unwrap();
    let cycle = async_jobs(&mut ledger, 1000, 3);
    assert_eq!(cycle.cleanup.reclaimed, vec![row("a", "/tmp/a", 100)]);
    assert!(!cycle.pull_image);
    assert_eq!(cycle.loop_counter, 4);
    assert_eq!(ledger.len(), 1);
}

#[test]
fn a_ledger_starts_with_the_rows_of_an_earlier_run() {
    let ledger = create_db(vec![row("a", "/tmp/a", 1), row("b", "/tmp/b", 2)]);
    assert_eq!(ledger.len(), 2);
    assert_eq!(ledger.lookup("a"), Ok(row("a", "/tmp/a", 1)));
    assert_eq!(ledger.lookup("b"), Ok(row("b", "/tmp/b", 2)));
    assert_eq!(create_db(vec![]).len(), 0);
}

#[test]
fn of_rows_that_share_an_identifier_the_first_stays() {
    let ledger = create_db(vec![row("a", "/tmp/a", 1), row("b", "/tmp/b", 2), row("a", "/tmp/c", 3)]);
    assert_eq!(ledger.len(), 2);
    assert_eq!(ledger.lookup("a"), Ok(row("a", "/tmp/a", 1)));
}

#[test]
fn a_result_is_recorded_under_a_new_identifier() {
    let mut ledger = Ledger::new();
    let id = add_migration_result_to_db("/tmp/w".to_string(), "done".to_string(), 42, &mut ledger)
        .unwrap();
    assert_eq!(ledger.len(), 1);
    assert_eq!(
        ledger.lookup(&id),
        Ok(JobEntry {
            id: id.clone(),
            workspace_path: "/tmp/w".to_string(),
            log: Some("done".to_string()),
            created_at: 42,
        })
    );
    assert_eq!(read_from_db(&id, &ledger), Ok(("/tmp/w".to_string(), "done".to_string())));
}

#[test]
fn an_identifier_is_a_random_uuid_in_lower_case() {
    let mut ledger = Ledger::new();
    let id = add_migration_result_to_db("/tmp/w".to_string(), String::new(), 0, &mut ledger)
        .unwrap();
    let chars: Vec<char> = id.chars().collect();
    assert_eq!(chars.len(), 36);
    for (i, c) in chars.iter().enumerate() {
        if i == 8 || i == 13 || i == 18 || i == 23 {
            assert_eq!(*c, '-');
        } else {
            assert!(is_lower_hex(*c));
        }
    }
    assert_eq!(chars[14], '4');
    assert!(matches!(chars[19], '8' | '9' | 'a' | 'b'));
}

#[test]
fn two_results_get_two_identifiers() {
    let mut ledger = Ledger::new();
    let first = add_migration_result_to_db("/tmp/1".to_string(), "one".to_string(), 1, &mut ledger)
        .unwrap();
    let second = add_migration_result_to_db("/tmp/2".to_string(), "two".to_string(), 2, &mut ledger)
        .unwrap();
    assert_ne!(first, second);
    assert_eq!(ledger.len(), 2);
    assert_eq!(read_from_db(&first, &ledger), Ok(("/tmp/1".to_string(), "one".to_string())));
    assert_eq!(read_from_db(&second, &ledger), Ok(("/tmp/2".to_string(), "two".to_string())));
}

#[test]
fn a_row_without_report_reads_as_an_empty_report() {
    let mut ledger = Ledger::new();
    ledger
        .insert(JobEntry {
            id: "a".to_string(),
            workspace_path: "/tmp/a".to_string(),
            log: None,
            created_at: 0,
        })
        .unwrap();
    assert_eq!(read_from_db("a", &ledger), Ok(("/tmp/a".to_string(), String::new())));
    assert_eq!(read_from_db("b", &ledger), Err(LedgerError::NotFound));
}

#[test]
fn the_archive_is_made_of_the_output_directory() {
    let mut ledger = Ledger::new();
    ledger.insert(row("a", "/tmp/a", 10)).unwrap();
    assert_eq!(get_tar("a", &ledger), Ok("/tmp/a/NM-migrated".to_string()));
    assert_eq!(get_tar("b", &ledger), Err(LedgerError::NotFound));
}

#[test]
fn a_copy_of_a_row_holds_what_the_row_holds() {
    let full = row("a", "/tmp/a", 10);
    assert_eq!(full.clone(), full);
    let bare = JobEntry { id: String::new(), workspace_path: String::new(), log: None, created_at: 0 };
    assert_eq!(bare.clone(), bare);
}

#[test]
fn rows_whose_workspace_is_gone_are_stale() {
    let rows = vec![
        StoredRow { entry: row("a", "/tmp/a", 1), workspace_present: true },
        StoredRow { entry: row("b", "/tmp/b", 2), workspace_present: false },
        StoredRow { entry: row("c", "/tmp/c", 3), workspace_present: true },
        StoredRow { entry: row("d", "/tmp/d", 4), workspace_present: false },
    ];
    assert_eq!(
        reconcile(rows),
        Reconciled {
            kept: vec![row("a", "/tmp/a", 1), row("c", "/tmp/c", 3)],
            stale: vec![row("b", "/tmp/b", 2), row("d", "/tmp/d", 4)],
        }
    );
}

#[test]
fn rows_are_all_kept_or_all_stale_with_their_workspaces() {
    assert_eq!(reconcile(vec![]), Reconciled { kept: vec![], stale: vec![] });
    assert_eq!(
        reconcile(vec![StoredRow { entry: row("a", "/tmp/a", 1), workspace_present: true }]),
        Reconciled { kept: vec![row("a", "/tmp/a", 1)], stale: vec![] }
    );
    assert_eq!(
        reconcile(vec![StoredRow { entry: row("a", "/tmp/a", 1), workspace_present: false }]),
        Reconciled { kept: vec![], stale: vec![row("a", "/tmp/a", 1)] }
    );
}

#[test]
fn a_ledger_starts_without_the_stale_rows() {
    let parted = reconcile(vec![
        StoredRow { entry: row("a", "/tmp/a", 1), workspace_present: false },
        StoredRow { entry: row("b", "/tmp/b", 2), workspace_present: true },
    ]);
    let ledger = create_db(parted.kept);
    assert_eq!(ledger.len(), 1);
    assert_eq!(ledger.lookup("a"), Err(LedgerError::NotFound));
    assert_eq!(ledger.lookup("b"), Ok(row("b", "/tmp/b", 2)));
}
