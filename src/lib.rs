//! Client-side logic of a real-time group chat: the wire frame schema, the
//! session's roster and history, the controller that turns user actions and
//! inbound frames into state changes and outbound frames, and the derived
//! view-state the presentation layer draws.

pub mod avatar;
pub mod chat;
pub mod content;
pub mod protocol;
pub mod store;
