//! A broadcast hub for a chat room: a registry of live connections, the
//! decisions on each inbound frame, and the wire frames sent to every member.

pub mod clock;
pub mod dispatch;
pub mod messages;
pub mod room;
pub mod wire;
