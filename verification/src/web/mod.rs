//! The logic of the web interface: reading submitted forms, checking the
//! routes' parameters, and the fragments that update the page.

pub mod forms;
pub mod books;
pub mod contents;
pub mod people;
pub mod routes;
pub mod lookups;
pub mod links;
pub mod languages;
pub mod people_roles;
pub mod tags;
pub mod places;
pub mod dev;
