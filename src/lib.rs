//! Action routing and bus gateway for an infrared controller: the configuration
//! model, the planning of configured actions, inbound topic routing, status
//! reports and the bus connection state machine.
pub mod text;
pub mod config;
pub mod action;
pub mod message;
pub mod status;
pub mod gateway;
