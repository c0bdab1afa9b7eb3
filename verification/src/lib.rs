//! The verified core of a picker whose contents follow a search query.
pub mod draw;
pub mod events;
pub mod file_result;
pub mod flag;
pub mod graphics;
pub mod grep;
pub mod guarantees;
pub mod keys;
pub mod layout;
pub mod matcher;
pub mod open;
pub mod picker;
pub mod search;
pub mod text;
pub mod walk;
pub mod walker;
