use miasma::logger::{build_html, Logger};

#[test]
fn logger_counts_and_asks_for_a_flush_after_a_hundred_records() {
    let mut logger = Logger::new(vec![("claudebot".to_owned(), 10)]);
    for _ in 0..100 {
        assert!(!logger.add_record("claudebot".to_owned()));
    }
    assert!(logger.add_record("safari".to_owned()));
    let mut entries = logger.entries();
    entries.sort();
    assert_eq!(entries, vec![("claudebot".to_owned(), 110), ("safari".to_owned(), 1)]);
    assert!(!logger.add_record("safari".to_owned()));
}

#[test]
fn later_stored_rows_win() {
    let logger = Logger::new(vec![("a".to_owned(), 1), ("a".to_owned(), 5)]);
    assert_eq!(logger.entries(), vec![("a".to_owned(), 5)]);
}

#[test]
fn stats_table() {
    let chunks = build_html(&vec![("claudebot".to_owned(), 3), ("x".to_owned(), -1)]);
    assert_eq!(
        chunks,
        vec![
            "<table><thead><tr><th>User-Agent</th><th>Request Count</th></tr></thead><tbody>".to_owned(),
            "<tr><th>claudebot</th><th>3</th></tr>".to_owned(),
            "<tr><th>x</th><th>-1</th></tr>".to_owned(),
            "</tbody></table>".to_owned(),
        ]
    );
}

#[test]
fn count_of_one_agent() {
    let mut logger = Logger::new(vec![("claudebot".to_owned(), 7)]);
    assert_eq!(logger.count(&"claudebot".to_owned()), Some(7));
    assert_eq!(logger.count(&"safari".to_owned()), None);
    logger.add_record("safari".to_owned());
    assert_eq!(logger.count(&"safari".to_owned()), Some(1));
}
