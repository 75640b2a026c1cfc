use vstd::prelude::*;

use crate::ident::{is_uuid_text, new_v4_text};
use crate::store::{binds, insert_row, text_or_null, SqlCell, SqlValue, StoreError};

verus! {

pub const INSERT_BOOK: &'static str = "insert into books (id, name, link) values (?1, ?2, ?3)";

pub const INSERT_BOOKMARK: &'static str =
    "insert into bookmarks (id, book_id, page, section, link) values (?1, ?2, ?3, ?4, ?5)";

pub const INSERT_NOTES: &'static str = "insert into notes (id, book_id, note) values (?1, ?2, ?3)";

/// The characters of an optional borrowed string.
pub open spec fn str_opt(o: Option<&str>) -> Option<Seq<char>> {
    match o {
        Some(s) => Some(s@),
        None => None,
    }
}

/// The characters of an optional owned string.
pub open spec fn string_opt(o: Option<String>) -> Option<Seq<char>> {
    match o {
        Some(s) => Some(s@),
        None => None,
    }
}

/// An owned copy of an optional string.
fn to_owned_opt(o: Option<&str>) -> (r: Option<String>)
    ensures
        string_opt(r) == str_opt(o),
{
    match o {
        Some(s) => Some(s.to_string()),
        None => None,
    }
}

/// An optional text column value.
fn text_value(o: &Option<String>) -> (r: SqlValue)
    ensures
        r@ == text_or_null(string_opt(*o)),
{
    match o {
        Some(s) => SqlValue::Text(s.clone()),
        None => SqlValue::Null,
    }
}

/// A book: identifier, display name and an optional link.
#[derive(Debug, Clone)]
pub struct Book {
    pub id: String,
    pub name: String,
    pub link: Option<String>,
}

/// The row of `books` that holds `b`: `(id, name, link)`, with an absent
/// link stored as `NULL`.
pub open spec fn book_cells(b: Book) -> Seq<SqlCell> {
    seq![SqlCell::Text(b.id@), SqlCell::Text(b.name@), text_or_null(string_opt(b.link))]
}

/// A book that has no link is stored with `NULL` in its `link` column, and
/// its identifier and name in the other two.
pub proof fn absent_link_stored_as_null(b: Book)
    requires
        b.link is None,
    ensures
        book_cells(b) == seq![SqlCell::Text(b.id@), SqlCell::Text(b.name@), SqlCell::Null],
        book_cells(b)[2] == SqlCell::Null,
{
}

impl Book {
    /// A book with a fresh random identifier, the given name and the given
    /// link; without a link the book has none.
    pub fn new(name: &str, link: Option<&str>) -> (r: Book)
        ensures
            is_uuid_text(r.id@),
            r.name@ == name@,
            string_opt(r.link) == str_opt(link),
    {
        Book { id: new_v4_text(), name: name.to_string(), link: to_owned_opt(link) }
    }

    /// The values bound to the parameters of the insert statement.
    pub fn row(&self) -> (r: Vec<SqlValue>)
        ensures
            binds(r@, book_cells(*self)),
    {
        vec![
            SqlValue::Text(self.id.clone()),
            SqlValue::Text(self.name.clone()),
            text_value(&self.link),
        ]
    }

    /// Inserts this book as a new row of `books`.
    pub fn save(&self, conn: &rusqlite::Connection) -> (r: Result<(), StoreError>)
        ensures
            r matches Err(e) ==> e is Insert,
    {
        insert_row(conn, INSERT_BOOK, &self.row())
    }
}

/// A reading position within a book: a page, a section, or both, and an
/// optional link.
#[derive(Debug, Clone)]
pub struct Bookmark {
    pub id: String,
    pub book_id: String,
    pub page: Option<u32>,
    pub section: Option<String>,
    pub link: Option<String>,
}

/// An optional integer column: `NULL` when absent.
pub open spec fn page_cell(p: Option<u32>) -> SqlCell {
    match p {
        Some(n) => SqlCell::Integer(n as int),
        None => SqlCell::Null,
    }
}

/// The row of `bookmarks` that holds `m`: `(id, book_id, page, section, link)`.
pub open spec fn bookmark_cells(m: Bookmark) -> Seq<SqlCell> {
    seq![
        SqlCell::Text(m.id@),
        SqlCell::Text(m.book_id@),
        page_cell(m.page),
        text_or_null(string_opt(m.section)),
        text_or_null(string_opt(m.link)),
    ]
}

impl Bookmark {
    /// A bookmark of the book `book_id` with a fresh random identifier; page
    /// and section are independently optional.
    pub fn new(book_id: &str, page: Option<u32>, section: Option<&str>, link: Option<&str>) -> (r:
        Bookmark)
        ensures
            is_uuid_text(r.id@),
            r.book_id@ == book_id@,
            r.page == page,
            string_opt(r.section) == str_opt(section),
            string_opt(r.link) == str_opt(link),
    {
        Bookmark {
            id: new_v4_text(),
            book_id: book_id.to_string(),
            page,
            section: to_owned_opt(section),
            link: to_owned_opt(link),
        }
    }

    /// The values bound to the parameters of the insert statement.
    pub fn row(&self) -> (r: Vec<SqlValue>)
        ensures
            binds(r@, bookmark_cells(*self)),
    {
        let page = match self.page {
            Some(n) => SqlValue::Integer(n as i64),
            None => SqlValue::Null,
        };
        vec![
            SqlValue::Text(self.id.clone()),
            SqlValue::Text(self.book_id.clone()),
            page,
            text_value(&self.section),
            text_value(&self.link),
        ]
    }

    /// Inserts this bookmark as a new row of `bookmarks`.
    pub fn save(&self, conn: &rusqlite::Connection) -> (r: Result<(), StoreError>)
        ensures
            r matches Err(e) ==> e is Insert,
    {
        insert_row(conn, INSERT_BOOKMARK, &self.row())
    }
}

/// A free-text note about a book.
#[derive(Debug, Clone)]
pub struct Notes {
    pub id: String,
    pub book_id: String,
    pub note: String,
}

/// The row of `notes` that holds `n`: `(id, book_id, note)`.
pub open spec fn notes_cells(n: Notes) -> Seq<SqlCell> {
    seq![SqlCell::Text(n.id@), SqlCell::Text(n.book_id@), SqlCell::Text(n.note@)]
}

impl Notes {
    /// A note on the book `book_id` with a fresh random identifier.
    pub fn new(book_id: &str, note: &str) -> (r: Notes)
        ensures
            is_uuid_text(r.id@),
            r.book_id@ == book_id@,
            r.note@ == note@,
    {
        Notes { id: new_v4_text(), book_id: book_id.to_string(), note: note.to_string() }
    }

    /// The values bound to the parameters of the insert statement.
    pub fn row(&self) -> (r: Vec<SqlValue>)
        ensures
            binds(r@, notes_cells(*self)),
    {
        vec![
            SqlValue::Text(self.id.clone()),
            SqlValue::Text(self.book_id.clone()),
            SqlValue::Text(self.note.clone()),
        ]
    }

    /// Inserts this note as a new row of `notes`.
    pub fn save(&self, conn: &rusqlite::Connection) -> (r: Result<(), StoreError>)
        ensures
            r matches Err(e) ==> e is Insert,
    {
        insert_row(conn, INSERT_NOTES, &self.row())
    }
}

} // verus!
