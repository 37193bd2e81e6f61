//! Request/response coordination between a blocking script thread and an
//! event-driven user interface, and the host capabilities built on it.

pub mod protocol;
pub mod channel;
pub mod registry;
pub mod ids;
pub mod controller;
pub mod content;
pub mod number;
pub mod kit;
pub mod guard;
pub mod text;
pub mod catalog;
pub mod logging;
pub mod process;
pub mod paths;
pub mod bridge;
