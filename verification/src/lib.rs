//! The session core of a read-only, two-column file viewer.

pub mod annotation;
pub mod clipboard;
pub mod config;
pub mod context;
pub mod controller;
pub mod finder;
pub mod fuzzy;
pub mod git;
pub mod herdr;
pub mod input;
pub mod laws;
pub mod paths;
pub mod pointer;
pub mod prompt;
pub mod renderers;
pub mod selection;
pub mod text;
pub mod view_policy;
