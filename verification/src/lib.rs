//! The core of an email-verified message relay: a sender submits an armored
//! message and a reply-to address, receives a one-time token by mail, and the
//! message is forwarded only once that token has been presented.

pub mod address;
pub mod config;
pub mod envelope;
pub mod error;
pub mod ident;
pub mod laws;
pub mod mail;
pub mod model;
pub mod store;
pub mod structs;
pub mod text;
pub mod workflow;
