//! The interactive dashboard's state machine and the text it shows.

pub mod app;
pub mod keys;
pub mod laws;
pub mod outcome;
pub mod view;
