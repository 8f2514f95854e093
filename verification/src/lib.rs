//! State and navigation engine of a terminal browser for a bundled monster
//! dataset: the record model, the selectable and filterable record list, the
//! per-panel cursors and tabs, and the routing of key events to state changes.
//! Drawing is left to the caller, which reads the state and reports viewport
//! sizes back.

pub mod keybinding;
pub mod monster;
pub mod state;
pub mod text;
pub mod widget;
