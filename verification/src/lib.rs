pub mod emote;
pub mod message;
pub mod messages;
pub mod player;
pub mod queue;
pub mod router;
pub mod session;
pub mod snapshot;
