//! What holds of the session as a whole: how its operations relate to each other and to what the
//! user sees.

pub mod content;
pub mod overlays;
pub mod pointer;
pub mod routing;
pub mod session;
pub mod view;
