//! What holds of the parts outside the session: how settings, commands, git's answers and texts
//! are read and put together.

pub mod git;
pub mod paths;
pub mod settings;
pub mod startup;
pub mod texts;
