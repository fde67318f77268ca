//! Line editing for a read-eval-print loop: one editable line with a cursor,
//! a history of submitted lines, and the accumulation of several lines into
//! one expression until a parser accepts it.
//!
//! The terminal and the parser stay outside. Each keyboard event comes in
//! as `crossterm` read it, each decision goes out as an
//! [`handle_input::Action`], and the parser's answer comes back as an
//! [`accumulator::ParseOutcome`].

pub mod accumulator;
pub mod commands;
pub mod event;
pub mod handle_input;
pub mod history;
pub mod line_buffer;
pub mod text;
