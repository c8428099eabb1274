//! State resolution for a terminal kanban board: which region owns the
//! pointer, which slice of a long list is on screen, and which notifications
//! are shown. The functions here are transformations of in-memory values, but
//! for the date of today, which is read to tell how pressing a due date is;
//! drawing is left to the caller.
//!
//! The engine is in `focus` (who owns the pointer), `viewport` (what is on
//! screen of a long collection) and `toast` (which notifications are shown).
//! The other modules apply it to the views of the board: they lay a view out,
//! decide how each part is emphasised, and hand the interactive parts to the
//! focus resolver.

pub mod body;
pub mod config;
pub mod config_views;
pub mod due_date;
pub mod focus;
pub mod forms;
pub mod geometry;
pub mod kanban;
pub mod layout;
pub mod lists;
pub mod load_save;
pub mod main_views;
pub mod notices;
pub mod panes;
pub mod popups;
pub mod state;
pub mod text;
pub mod toast;
pub mod viewport;
