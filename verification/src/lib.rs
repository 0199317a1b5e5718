//! A Bible reader's library: book names and their localized forms,
//! reference parsing, text wrapping, clipboard encoding, the reading
//! session, the browser's navigation state and what its screen shows.

pub mod text;
pub mod books;
pub mod reference;
pub mod wrap;
pub mod theme;
pub mod types;
pub mod cli;
pub mod state;
pub mod cache;
pub mod download;
pub mod clipboard;
pub mod browser;
pub mod layout;
pub mod markup;
pub mod book_lookup;
pub mod book_names;
