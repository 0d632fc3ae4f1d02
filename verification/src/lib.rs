//! Finds the job title of a person at a company.
//!
//! A lookup is answered from the curated titles, from a search already run, or
//! from a new search whose hits are checked and mined for the title. The
//! library decides; what it decides on is fetched and sent by whoever runs it.
pub mod config;
pub mod error;
pub mod handlers;
pub mod ids;
pub mod laws;
pub mod models;
pub mod ner;
pub mod score;
pub mod search;
pub mod store;
pub mod text;
pub mod verify;
