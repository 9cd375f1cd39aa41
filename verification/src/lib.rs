//! Watching operating-system services: which names to watch, how one pass
//! over them queries the inspector, and how the list that comes of it is
//! browsed.
//!
//! Nothing here talks to the operating system or to a terminal. A pass says
//! what to ask and takes the answers; the controller says when a new pass is
//! due and takes its records.

pub mod aggregator;
pub mod app;
pub mod input;
pub mod list;
pub mod model;
pub mod presentation;
pub mod registry;
pub mod status;
pub mod text;
