//! A weather and time assistant: the turn logic that sits between a chat
//! model, the user and two lookup tools, with its contracts.

pub mod conversation;
pub mod dispatch;
pub mod error;
pub mod geo_location;
pub mod session;
pub mod text;
pub mod tools;
pub mod weather;
