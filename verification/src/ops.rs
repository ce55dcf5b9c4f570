//! The operations of the worker, each a machine that the client's answers drive.
pub mod direct;
pub mod listing;
pub mod login;
pub mod message;
pub mod room;
pub mod verify;
