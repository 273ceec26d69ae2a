//! Verified logic of a personal library catalogue: text input widgets,
//! form screens, navigation state machines, form parsing and the SQL
//! text of catalogue searches.

pub mod text;
pub mod numbers;
pub mod domain;
pub mod errors;
pub mod keys;
pub mod widgets;
pub mod search;
pub mod app;
pub mod web;
pub mod presenter;
pub mod repository;
pub mod screens;
