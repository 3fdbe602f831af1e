//! The rules of a community bot, verified: above all the orchestrator of personal voice
//! channels, which creates a room for whoever joins a lobby, records who owns it, and
//! reclaims it once it stands empty. The library decides; a host makes the calls it asks for,
//! on the chat platform and on the database, and hands back what came of them.

pub mod chance;
pub mod config;
pub mod economy;
pub mod inventory;
pub mod leveling;
pub mod messages;
pub mod models;
pub mod moderation;
pub mod text;
pub mod utility;
pub mod utils;
pub mod voice;
