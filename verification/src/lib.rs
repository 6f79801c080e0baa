//! Addressed access, reference parsing and free-text search over a structured
//! Bible text (books, chapters, verses), with machine-checked contracts.

pub mod aliases;
pub mod bible;
pub mod bible_books_enum;
pub mod book;
pub mod chapter;
pub mod corpus_index;
pub mod error;
pub mod loaded;
pub mod location;
pub mod postings;
pub mod reference;
pub mod search_index;
pub mod text;
pub mod tokenize;
pub mod verse;

pub use bible::Bible;
pub use bible_books_enum::BibleBook;
pub use book::Book;
pub use chapter::Chapter;
pub use error::BibleError;
pub use loaded::BookData;
pub use search_index::SearchIndex;
pub use verse::Verse;
