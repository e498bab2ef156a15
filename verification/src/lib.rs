//! A terminal time tracker: periods of work are entered as text, stored as
//! text, and summed over date ranges. This crate holds the verified core:
//! the calendar values and their text forms, the key-driven state machine of
//! the user interface, the processing of stored rows, and the screen content.

pub mod datetime;
pub mod error;
pub mod text;
pub mod app;
pub mod events;
pub mod db;
pub mod ui;
