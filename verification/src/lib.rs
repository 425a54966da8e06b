//! Verified core of a small todo list and piano-roll editor.

pub mod text;
pub mod db;
pub mod pitch;
pub mod notes;
pub mod piano_grid;
pub mod todos;
