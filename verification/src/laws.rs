//! What holds of the library as a whole.
pub mod answers;
pub mod attribution;
pub mod checks;
pub mod entries;
pub mod hits;
pub mod keys;
pub mod log;
pub mod lookup;
pub mod names;
pub mod people;
pub mod scores;
pub mod settings;
pub mod spans;
pub mod texts;
pub mod views;
