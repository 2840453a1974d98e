use imdb_ingest::copyin::parse_copy_rows;
use imdb_ingest::ddl::get_create_table_query;
use imdb_ingest::memstore::MemStore;
use imdb_ingest::schema::infer_columns;

#[test]
fn double_invocation_leaves_only_the_latest_rows() {
    let mut store = MemStore::new();
    let name = "title_ratings".to_string();
    let cols = vec!["a".to_string(), "b".to_string()];

    let first = parse_copy_rows("a\tb\n1\t2\n3\t4\n");
    store.run_dataset(&name, &cols, first);
    assert_eq!(store.tables.len(), 1);
    assert_eq!(store.tables[0].rows.len(), 2);

    // Re-running the dataset replaces the rows: a stable count, no
    // duplication.
    let second = parse_copy_rows("a\tb\n5\t6\n");
    store.run_dataset(&name, &cols, second.clone());
    assert_eq!(store.tables.len(), 1);
    assert_eq!(store.tables[0].rows.len(), 1);
    assert_eq!(store.tables[0].rows, second);

    store.run_dataset(&name, &cols, second.clone());
    assert_eq!(store.tables.len(), 1);
    assert_eq!(store.tables[0].rows.len(), 1);
}

#[test]
fn distinct_datasets_load_into_distinct_tables() {
    let mut store = MemStore::new();
    let rows = parse_copy_rows("h\nv\n");
    store.run_dataset(&"one".to_string(), &vec!["h".to_string()], rows.clone());
    store.run_dataset(&"two".to_string(), &vec!["h".to_string()], rows);
    assert_eq!(store.tables.len(), 2);
    assert_eq!(store.tables[0].name, "one");
    assert_eq!(store.tables[1].name, "two");
}

#[test]
fn whole_load_path_from_header_to_rows() {
    // One dataset end to end, without a live store: the header decides the
    // columns, the DDL covers them all, and the file's rows come out intact.
    let content = "id\trating\tvotes\nt1\t\\N\t12\nt2\t8.1\t7\n";
    let header = content.lines().next().map(|l| l.to_string());
    let cols = infer_columns(header.as_deref()).unwrap();
    assert_eq!(cols, vec!["id".to_string(), "rating".to_string(), "votes".to_string()]);

    let ddl = get_create_table_query("ratings", &cols);
    assert_eq!(
        ddl,
        "CREATE TABLE IF NOT EXISTS ratings (id TEXT,rating TEXT,votes TEXT); TRUNCATE ratings;"
    );

    let mut store = MemStore::new();
    store.run_dataset(&"ratings".to_string(), &cols, parse_copy_rows(content));
    assert_eq!(store.tables[0].rows.len(), 2);
    assert_eq!(store.tables[0].rows[0][1], None);
    assert_eq!(store.tables[0].rows[1][1], Some("8.1".to_string()));
}
