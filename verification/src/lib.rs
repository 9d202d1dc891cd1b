//! Live stream alerts: named documents of markdown, style and dynamic fields
//! that are rendered for viewers whenever they change.
//!
//! - `ids`, `field`, `alert`, `edit`: the documents and the changes they take.
//! - `decimal`, `text`, `render`: numerals, text, and the substitution of
//!   fields into templates.
//! - `json`, `codec`, `markdown`, `message`: the stored form of an alert and
//!   the messages that travel to and from viewers.
//! - `manager`, `update`: the store and the requests made of it.
//! - `session`: what one viewer's connection does next.
//! - `auth`, `opts`: the people who may log in and the settings at startup.
//!
//! Nothing here waits, reads a file or opens a socket. The server around the
//! library does that and hands in plain values.

pub mod alert;
pub mod auth;
pub mod codec;
pub mod decimal;
pub mod edit;
pub mod error;
pub mod field;
pub mod ids;
pub mod json;
pub mod manager;
pub mod markdown;
pub mod message;
pub mod opts;
pub mod render;
pub mod session;
pub mod text;
pub mod update;
