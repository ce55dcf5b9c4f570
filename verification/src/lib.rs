//! Requests and replies between a user interface and a chat client.
pub mod base;
pub mod channel;
pub mod client;
pub mod handlers;
pub mod ident;
pub mod job;
pub mod ops;
pub mod reaction;
pub mod store;
pub mod table;
pub mod task;
pub mod text;
pub mod timeline;
pub mod worker;
