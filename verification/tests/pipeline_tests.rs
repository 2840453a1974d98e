use imdb_ingest::pipeline::{Action, Config, Event, Pipeline};

fn two_dataset_config() -> Config {
    Config {
        urls: vec![
            "http://host/a.tsv.gz".to_string(),
            "http://host/b.tsv.gz".to_string(),
        ],
        work_dir: "./wd".to_string(),
        connection: "postgres://target".to_string(),
    }
}

#[test]
fn full_run_issues_each_stage_in_order() {
    let mut p = Pipeline::new(two_dataset_config());

    match p.step(Event::Begin) {
        Action::EnsureDir { dir } => assert_eq!(dir, "./wd"),
        other => panic!("expected EnsureDir, got {:?}", action_name(&other)),
    }
    match p.step(Event::Proceed) {
        Action::Fetch { url, dest } => {
            assert_eq!(url, "http://host/a.tsv.gz");
            assert_eq!(dest, "./wd/a.tsv.gz");
        }
        other => panic!("expected Fetch, got {:?}", action_name(&other)),
    }
    match p.step(Event::Proceed) {
        Action::Decompress { path } => assert_eq!(path, "./wd/a.tsv.gz"),
        other => panic!("expected Decompress, got {:?}", action_name(&other)),
    }
    match p.step(Event::Proceed) {
        Action::ReadFirstLine { path } => assert_eq!(path, "./wd/a.tsv"),
        other => panic!("expected ReadFirstLine, got {:?}", action_name(&other)),
    }
    match p.step(Event::HeaderLine(Some("c1\tc2".to_string()))) {
        Action::RunStore { connection, ddl, copy } => {
            assert_eq!(connection, "postgres://target");
            assert_eq!(ddl, "CREATE TABLE IF NOT EXISTS a (c1 TEXT,c2 TEXT); TRUNCATE a;");
            assert_eq!(
                copy,
                "\\COPY a FROM './wd/a.tsv' WITH DELIMITER E'\\t' QUOTE E'\\b' NULL AS '\\N' CSV HEADER"
            );
        }
        other => panic!("expected RunStore, got {:?}", action_name(&other)),
    }
    match p.step(Event::StoreOutput("CREATE TABLE\nCOPY 42\n".to_string())) {
        Action::Emit { table, summary } => {
            assert_eq!(table, "a");
            assert_eq!(summary, "copy 42");
        }
        other => panic!("expected Emit, got {:?}", action_name(&other)),
    }
    match p.step(Event::Proceed) {
        Action::Fetch { url, dest } => {
            assert_eq!(url, "http://host/b.tsv.gz");
            assert_eq!(dest, "./wd/b.tsv.gz");
        }
        other => panic!("expected Fetch, got {:?}", action_name(&other)),
    }
    assert!(matches!(p.step(Event::Proceed), Action::Decompress { .. }));
    assert!(matches!(p.step(Event::Proceed), Action::ReadFirstLine { .. }));
    match p.step(Event::HeaderLine(Some("x".to_string()))) {
        Action::RunStore { ddl, .. } => {
            assert_eq!(ddl, "CREATE TABLE IF NOT EXISTS b (x TEXT); TRUNCATE b;");
        }
        other => panic!("expected RunStore, got {:?}", action_name(&other)),
    }
    assert!(matches!(
        p.step(Event::StoreOutput("COPY 7".to_string())),
        Action::Emit { .. }
    ));
    match p.step(Event::Proceed) {
        Action::RemoveDir { dir } => assert_eq!(dir, "./wd"),
        other => panic!("expected RemoveDir, got {:?}", action_name(&other)),
    }
    assert!(matches!(p.step(Event::Proceed), Action::Stop { ok: true }));
    assert!(matches!(p.step(Event::Proceed), Action::Stop { ok: true }));
}

#[test]
fn fetch_failure_stops_the_run_before_any_store_action() {
    let mut p = Pipeline::new(two_dataset_config());
    assert!(matches!(p.step(Event::Begin), Action::EnsureDir { .. }));
    assert!(matches!(p.step(Event::Proceed), Action::Fetch { .. }));
    // The fetch of the first dataset fails: the run aborts immediately.
    assert!(matches!(p.step(Event::Failure), Action::Stop { ok: false }));
    // No statement is ever issued for this or any later dataset, and the
    // working directory is never removed.
    for _ in 0..6 {
        match p.step(Event::Proceed) {
            Action::Stop { ok } => assert!(!ok),
            other => panic!("expected Stop, got {:?}", action_name(&other)),
        }
    }
}

#[test]
fn fetch_failure_mid_run_keeps_earlier_loads_and_the_directory() {
    let mut p = Pipeline::new(two_dataset_config());
    assert!(matches!(p.step(Event::Begin), Action::EnsureDir { .. }));
    assert!(matches!(p.step(Event::Proceed), Action::Fetch { .. }));
    assert!(matches!(p.step(Event::Proceed), Action::Decompress { .. }));
    assert!(matches!(p.step(Event::Proceed), Action::ReadFirstLine { .. }));
    assert!(matches!(
        p.step(Event::HeaderLine(Some("h".to_string()))),
        Action::RunStore { .. }
    ));
    assert!(matches!(
        p.step(Event::StoreOutput("COPY 1".to_string())),
        Action::Emit { .. }
    ));
    // The second dataset's fetch is requested, and fails.
    assert!(matches!(p.step(Event::Proceed), Action::Fetch { .. }));
    assert!(matches!(p.step(Event::Failure), Action::Stop { ok: false }));
    // The first dataset's table stays loaded (no rollback action exists);
    // nothing further is issued and the directory is not removed.
    for _ in 0..6 {
        match p.step(Event::Proceed) {
            Action::Stop { ok } => assert!(!ok),
            other => panic!("expected Stop, got {:?}", action_name(&other)),
        }
    }
}

#[test]
fn decompress_failure_never_reaches_the_loader() {
    let mut p = Pipeline::new(two_dataset_config());
    assert!(matches!(p.step(Event::Begin), Action::EnsureDir { .. }));
    assert!(matches!(p.step(Event::Proceed), Action::Fetch { .. }));
    assert!(matches!(p.step(Event::Proceed), Action::Decompress { .. }));
    // Decompression fails. The compressed file is left as fetched: no action
    // of the machine deletes single files, and the directory removal below
    // never happens.
    assert!(matches!(p.step(Event::Failure), Action::Stop { ok: false }));
    for _ in 0..6 {
        match p.step(Event::Proceed) {
            Action::Stop { ok } => assert!(!ok),
            other => panic!("expected Stop, got {:?}", action_name(&other)),
        }
    }
}

#[test]
fn empty_file_fails_instead_of_loading() {
    let mut p = Pipeline::new(two_dataset_config());
    assert!(matches!(p.step(Event::Begin), Action::EnsureDir { .. }));
    assert!(matches!(p.step(Event::Proceed), Action::Fetch { .. }));
    assert!(matches!(p.step(Event::Proceed), Action::Decompress { .. }));
    assert!(matches!(p.step(Event::Proceed), Action::ReadFirstLine { .. }));
    assert!(matches!(
        p.step(Event::HeaderLine(None)),
        Action::Stop { ok: false }
    ));
    assert!(matches!(p.step(Event::Proceed), Action::Stop { ok: false }));
}

fn action_name(a: &Action) -> &'static str {
    match a {
        Action::EnsureDir { .. } => "EnsureDir",
        Action::Fetch { .. } => "Fetch",
        Action::Decompress { .. } => "Decompress",
        Action::ReadFirstLine { .. } => "ReadFirstLine",
        Action::RunStore { .. } => "RunStore",
        Action::Emit { .. } => "Emit",
        Action::RemoveDir { .. } => "RemoveDir",
        Action::Stop { .. } => "Stop",
    }
}
