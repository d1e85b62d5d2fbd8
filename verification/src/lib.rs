//! The decisions of a resizable two-pane split: which component of a
//! position or a size the divider moves along, how the divider reacts to
//! the pointer, and in which state it is drawn.

pub mod split;
pub mod state;
pub mod style;

pub use style::State as Status;
