//! The screens of the terminal interface: their state and how keys change it.

pub mod form;
pub mod options;
pub mod content_create;
pub mod people_create;
pub mod lists;
pub mod detail_text;
pub mod book_detail;
