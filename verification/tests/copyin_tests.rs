use imdb_ingest::copyin::{is_null_token, parse_copy_rows};

#[test]
fn fixture_round_trip_loads_two_rows_with_null() {
    // 3 header columns, 2 data rows, one field holding the NULL token.
    let content = "a\tb\tc\nx\t\\N\tz\nu\tv\tw\n";
    let rows = parse_copy_rows(content);
    assert_eq!(rows.len(), 2);
    // The token resolves to SQL NULL, not the literal text.
    assert_eq!(
        rows[0],
        vec![Some("x".to_string()), None, Some("z".to_string())]
    );
    assert_eq!(
        rows[1],
        vec![Some("u".to_string()), Some("v".to_string()), Some("w".to_string())]
    );
}

#[test]
fn null_token_must_match_exactly() {
    assert!(is_null_token("\\N"));
    assert!(!is_null_token("\\n"));
    assert!(!is_null_token("\\N2"));
    assert!(!is_null_token(" \\N"));
    assert!(!is_null_token(""));
    let rows = parse_copy_rows("h\n\\n\t\\N2\t \\N\n");
    assert_eq!(
        rows[0],
        vec![
            Some("\\n".to_string()),
            Some("\\N2".to_string()),
            Some(" \\N".to_string())
        ]
    );
}

#[test]
fn header_only_file_loads_no_rows() {
    assert_eq!(parse_copy_rows("a\tb\n").len(), 0);
    assert_eq!(parse_copy_rows("a\tb").len(), 0);
    assert_eq!(parse_copy_rows("").len(), 0);
}

#[test]
fn missing_trailing_newline_keeps_the_last_row() {
    let rows = parse_copy_rows("h\n1\n2");
    assert_eq!(rows.len(), 2);
    assert_eq!(rows[1], vec![Some("2".to_string())]);
}
