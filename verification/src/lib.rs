//! The core of a terminal client for a deployment platform: the state of the
//! client, the navigation between its screens, the key bindings, the forms,
//! the supervisor of the live log stream and the description of the requests
//! that go to the remote service.
//!
//! The library reads no terminal, sends no request and touches no file. Its
//! operations take a key, or the outcome of something that was done for them,
//! and return what is to be done next.

pub mod actions;
pub mod api;
pub mod app;
pub mod command;
pub mod config;
pub mod display;
pub mod field;
pub mod forms;
pub mod keys;
pub mod laws;
pub mod logs;
pub mod models;
pub mod navigate;
pub mod replies;
pub mod screen;
pub mod selection;
pub mod setup;
pub mod text;
