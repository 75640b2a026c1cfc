use book_tracker::{
    create_schema, is_valid_id, open_connection, schema_statements, Book, Bookmark, Notes,
    SqlValue, StoreError, CREATE_BOOKS, CREATE_NOTES,
};
use rusqlite::Connection;
use std::collections::HashSet;

fn fresh_store() -> Connection {
    let conn = Connection::open_in_memory().unwrap();
    create_schema(&conn).unwrap();
    conn
}

fn count(conn: &Connection, table: &str) -> i64 {
    conn.query_row(&format!("select count(*) from {}", table), [], |r| r.get(0)).unwrap()
}

#[test]
fn init_then_save_round_trip() {
    let conn = fresh_store();
    let earlier = Book::new("Other", Some("x"));
    let book = Book::new("Dune", Some("https://example.com/dune"));
    book.save(&conn).unwrap();
    assert_eq!(count(&conn, "books"), 1);
    let (id, name, link): (String, String, Option<String>) = conn
        .query_row("select id, name, link from books", [], |r| {
            Ok((r.get(0)?, r.get(1)?, r.get(2)?))
        })
        .unwrap();
    assert_eq!(name, "Dune");
    assert_eq!(link, Some("https://example.com/dune".to_string()));
    assert!(is_valid_id(&id));
    assert_eq!(id, book.id);
    assert_ne!(id, earlier.id);
}

#[test]
fn double_init_fails() {
    let conn = fresh_store();
    match create_schema(&conn) {
        Err(StoreError::Schema(msg)) => assert!(msg.contains("already exists")),
        other => panic!("expected a schema error, got {:?}", other),
    }
    let tables: i64 = conn
        .query_row("select count(*) from sqlite_master where type = 'table'", [], |r| r.get(0))
        .unwrap();
    assert_eq!(tables, 3);
}

#[test]
fn fresh_store_after_reopen_has_no_rows() {
    let conn = fresh_store();
    Book::new("Dune", Some("https://example.com/dune")).save(&conn).unwrap();
    drop(conn);
    let conn = fresh_store();
    assert_eq!(count(&conn, "books"), 0);
}

#[test]
fn ten_thousand_distinct_ids() {
    let mut ids = HashSet::new();
    for _ in 0..10_000 {
        let b = Book::new("Dune", Some("https://example.com/dune"));
        assert!(is_valid_id(&b.id));
        ids.insert(b.id);
    }
    assert_eq!(ids.len(), 10_000);
}

#[test]
fn book_without_link_is_stored_as_null() {
    let conn = fresh_store();
    let book = Book::new("Dune", None);
    assert_eq!(book.link, None);
    book.save(&conn).unwrap();
    let link: Option<String> =
        conn.query_row("select link from books where id = ?1", [&book.id], |r| r.get(0)).unwrap();
    assert_eq!(link, None);
}

#[test]
fn book_fields_and_row() {
    let book = Book::new("Dune", Some("https://example.com/dune"));
    assert_eq!(book.name, "Dune");
    assert_eq!(book.link, Some("https://example.com/dune".to_string()));
    assert_eq!(book.id.len(), 36);
    let row = book.row();
    assert_eq!(row.len(), 3);
    assert!(matches!(&row[0], SqlValue::Text(t) if *t == book.id));
    assert!(matches!(&row[1], SqlValue::Text(t) if t == "Dune"));
    assert!(matches!(&row[2], SqlValue::Text(t) if t == "https://example.com/dune"));
    let bare = Book::new("", None).row();
    assert!(matches!(&bare[1], SqlValue::Text(t) if t.is_empty()));
    assert!(matches!(&bare[2], SqlValue::Null));
}

#[test]
fn saving_the_same_book_twice_is_an_insert_error() {
    let conn = fresh_store();
    let book = Book::new("Dune", None);
    book.save(&conn).unwrap();
    assert!(matches!(book.save(&conn), Err(StoreError::Insert(_))));
    assert_eq!(count(&conn, "books"), 1);
}

#[test]
fn save_without_schema_is_an_insert_error() {
    let conn = Connection::open_in_memory().unwrap();
    let book = Book::new("Dune", None);
    match book.save(&conn) {
        Err(StoreError::Insert(msg)) => assert!(msg.contains("no such table")),
        other => panic!("expected an insert error, got {:?}", other),
    }
}

#[test]
fn bookmark_round_trip() {
    let conn = fresh_store();
    let book = Book::new("Dune", None);
    book.save(&conn).unwrap();
    let mark = Bookmark::new(&book.id, Some(42), Some("Chapter 3"), None);
    assert_eq!(mark.book_id, book.id);
    assert!(is_valid_id(&mark.id));
    mark.save(&conn).unwrap();
    let got: (String, Option<i64>, Option<String>, Option<String>) = conn
        .query_row("select book_id, page, section, link from bookmarks", [], |r| {
            Ok((r.get(0)?, r.get(1)?, r.get(2)?, r.get(3)?))
        })
        .unwrap();
    assert_eq!(got, (book.id.clone(), Some(42), Some("Chapter 3".to_string()), None));
}

#[test]
fn bookmark_row_with_nothing_optional() {
    let mark = Bookmark::new("b", None, None, Some("https://example.com/p"));
    let row = mark.row();
    assert_eq!(row.len(), 5);
    assert!(matches!(&row[1], SqlValue::Text(t) if t == "b"));
    assert!(matches!(&row[2], SqlValue::Null));
    assert!(matches!(&row[3], SqlValue::Null));
    assert!(matches!(&row[4], SqlValue::Text(t) if t == "https://example.com/p"));
    let top = Bookmark::new("b", Some(u32::MAX), None, None).row();
    assert!(matches!(&top[2], SqlValue::Integer(4294967295)));
}

#[test]
fn notes_round_trip() {
    let conn = fresh_store();
    let book = Book::new("Dune", None);
    book.save(&conn).unwrap();
    let note = Notes::new(&book.id, "Spice must flow");
    note.save(&conn).unwrap();
    let got: (String, String, String) = conn
        .query_row("select id, book_id, note from notes", [], |r| {
            Ok((r.get(0)?, r.get(1)?, r.get(2)?))
        })
        .unwrap();
    assert_eq!(got, (note.id.clone(), book.id.clone(), "Spice must flow".to_string()));
    let row = note.row();
    assert!(matches!(&row[2], SqlValue::Text(t) if t == "Spice must flow"));
}

#[test]
fn schema_is_created_in_order() {
    let stmts = schema_statements();
    assert_eq!(stmts.len(), 3);
    assert_eq!(stmts[0], CREATE_BOOKS);
    assert_eq!(stmts[2], CREATE_NOTES);
    assert!(stmts[1].contains("bookmarks"));
}

#[test]
fn open_in_memory_path() {
    let conn = open_connection(":memory:").unwrap();
    create_schema(&conn).unwrap();
}

#[test]
fn open_in_missing_directory_fails() {
    let r = open_connection("/no/such/directory/anywhere/books.db");
    assert!(matches!(r, Err(StoreError::StorageOpen(_))));
}

#[test]
fn valid_ids() {
    assert!(is_valid_id("67e55044-10b1-426f-9247-bb680e5fe0c8"));
    assert!(is_valid_id("00000000-0000-4000-b000-000000000000"));
}

#[test]
fn invalid_ids() {
    assert!(!is_valid_id(""));
    assert!(!is_valid_id("67E55044-10B1-426F-9247-BB680E5FE0C8"));
    assert!(!is_valid_id("67e55044-10b1-326f-9247-bb680e5fe0c8"));
    assert!(!is_valid_id("67e55044-10b1-426f-c247-bb680e5fe0c8"));
    assert!(!is_valid_id("67e5504410b1-426f-9247-bb680e5fe0c8a"));
    assert!(!is_valid_id("67e55044-10b1-426f-9247-bb680e5fe0c"));
    assert!(!is_valid_id("67e55044-10b1-426f-9247-bb680e5fe0c8 "));
    assert!(!is_valid_id("67e55044-10b1-426f-9247-bb680e5fe0cg"));
}
