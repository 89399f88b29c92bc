//! Core of a notification broker: producers publish typed events, consumers
//! declare the kinds they want, and for each application type only the
//! first-registered consumer forwards traffic.

pub mod application;
pub mod bus;
pub mod connection;
pub mod consumer;
pub mod frame;
pub mod identity;
pub mod laws;
pub mod message;
pub mod producer;
pub mod registry;
pub mod server;
