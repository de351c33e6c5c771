//! A room-scoped presence and chat engine.
//!
//! Connections arrive in a [`Room`], register a display name once, exchange chat
//! messages and typing notices, and leave. The room keeps a count of the connections
//! that have registered, and says for every event what goes out to whom.
//!
//! The library does no I/O. A transport hands it what came in, as [`Inbound`] values,
//! and gets back [`Delivery`] values to send.

pub mod event;
pub mod identity;
pub mod laws;
pub mod model;
pub mod presence;
pub mod room;
pub mod session;

pub use event::{Audience, Inbound, Outbound, Res};
pub use identity::Username;
pub use presence::UserCnt;
pub use room::{Delivery, Room};
pub use session::Session;
