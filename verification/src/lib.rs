//! Guided-tour overlay core: rectangle geometry, tooltip placement and the
//! tour progression state machine.

pub mod config;
pub mod content;
pub mod position;
pub mod prelude;
pub mod rect;
pub mod relative_position;
pub mod step;
pub mod tour;
