//! Data-access layer of a personal book tracker: books, bookmarks and notes
//! kept in an embedded SQLite store.
mod ident;
mod entity;
mod store;

pub use ident::{char_ok_at, is_hex_lower, is_hyphen_pos, is_uuid_text, is_valid_id, ID_LEN};
pub use store::{
    binds, create_schema, open_connection, schema_statements, text_or_null, SqlCell, SqlValue,
    StoreError, CREATE_BOOKMARKS, CREATE_BOOKS, CREATE_NOTES, DB_FILE_NAME,
};
pub use entity::{
    absent_link_stored_as_null, book_cells, bookmark_cells, notes_cells, page_cell, str_opt,
    string_opt, Book, Bookmark, Notes, INSERT_BOOK, INSERT_BOOKMARK, INSERT_NOTES,
};
