//! The logic of `lazydc`, a small manager for a directory of `docker compose` projects.
//!
//! Everything that decides something lives here and is verified: which projects there are,
//! which commands an action runs, how container readings are summed up, and what every key
//! of the terminal interface does. Reading directories, running processes, talking to the
//! Docker daemon and drawing are left to the program around the library.

pub mod batch;
pub mod batch_laws;
pub mod cli;
pub mod compose;
pub mod compose_laws;
pub mod config;
pub mod docker_api;
pub mod docker_laws;
pub mod event_laws;
pub mod help;
pub mod key_laws;
pub mod launch;
pub mod layout;
pub mod loading;
pub mod metrics;
pub mod metrics_laws;
pub mod names;
pub mod native;
pub mod output;
pub mod project;
pub mod project_laws;
pub mod report;
pub mod screen;
pub mod shell;
pub mod text;
pub mod text_laws;
pub mod tui;
pub mod tui_laws;
pub mod view_laws;
pub mod views;
