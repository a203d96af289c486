//! The session: the state of the viewer and what each intent, key, mouse event and reply makes of
//! it.
//!
//! The controller touches neither the screen nor the file system nor git. Each handler changes the
//! state, returns the [`Effects`] for the run loop, and appends to `out` the [`Action`]s that the
//! run loop carries out, in order. What an action brings back comes in through a reply function.

pub mod actions;
pub mod annotation;
pub mod content;
pub mod context_menu;
pub mod events;
pub mod finder;
pub mod handle;
pub mod help;
pub mod infile;
pub mod intents;
pub mod laws;
pub mod lineselect;
pub mod mouse;
pub mod notice;
pub mod picker;
pub mod poll;
pub mod render;
pub mod replies;
pub mod scroll;
pub mod services;
pub mod session;
pub mod settings;
pub mod state;
pub mod view;
pub mod workspace;
pub mod workspace_search;
