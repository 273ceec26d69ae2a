pub mod input;
pub mod language;
pub mod person;
pub mod popup;
pub mod statusbar;
pub mod table;
pub mod partial_date;
pub mod place;
