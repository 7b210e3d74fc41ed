//! Bridge core for routing path-addressed control messages to haptic devices:
//! a staged/published device registry, a command parser, a device-set
//! resolver, and the session event-handling state machine.
pub mod command;
pub mod device;
pub mod dispatch;
pub mod registry;
pub mod resolver;
pub mod session;
pub mod text;
