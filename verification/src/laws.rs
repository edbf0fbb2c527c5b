//! What holds of the library as a whole, stated of its results alone.

pub mod access;
pub mod admin;
pub mod answers;
pub mod asking;
pub mod bodies;
pub mod carrying_out;
pub mod catching_up;
pub mod commits;
pub mod coordination;
pub mod gauges;
pub mod json_console;
pub mod json_reading;
pub mod json_rows;
pub mod json_values;
pub mod neighbours;
pub mod orders;
pub mod places;
pub mod query_kinds;
pub mod restores;
pub mod sessions;
pub mod spreading;
pub mod starting;
pub mod statements;
pub mod tables;
pub mod targets;
pub mod texts;
