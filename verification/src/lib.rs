//! The core of an application node: a script that is embedded in the node
//! serves the requests that a broker sends, and asks other nodes through the
//! broker.
//!
//! The library holds what the node decides: the table of the requests in
//! flight (`pending`), the configuration that the script collects
//! (`config`, `builder`, `model`), how values cross the border to the script
//! (`bridge`, `error`), what the script may ask of its node (`server`), and
//! the life of the node with the frames that it reads and writes (`app`,
//! `message`). Nothing in it waits or touches a file, a socket or the
//! interpreter: it says what is to be done, and its caller does it.

pub mod app;
pub mod bridge;
pub mod builder;
pub mod config;
pub mod error;
pub mod json;
pub mod message;
pub mod model;
pub mod names;
pub mod pending;
pub mod server;
pub mod text;
