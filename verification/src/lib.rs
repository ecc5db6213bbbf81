//! Client-side core of a WebSocket driver for a time-series database:
//! connection-descriptor resolution, the lazily connected client, the
//! result-set cursor and the operations behind the foreign-callable surface.
//!
//! The library performs no I/O. A transport is what its caller brings: the
//! caller opens sessions and fetches blocks, and hands the library what came
//! back as plain values.

pub mod block;
pub mod boundary;
pub mod client;
pub mod descriptor;
pub mod error;
pub mod field;
pub mod info;
pub mod result_set;
pub mod text;
pub mod timestamp;

pub use client::Ws;
pub use info::{WsAuth, WsInfo};
