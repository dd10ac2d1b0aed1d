//! The items that most users of the crate need.

pub use crate::config::TourConfig;
pub use crate::step::TourStep;
pub use crate::tour::TourRunState;
