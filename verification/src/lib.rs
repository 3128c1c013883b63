//! Per-guild command prefixes for a chat bot: the table that holds them, the
//! rules that resolve and assign them, and the texts the bot answers with.

pub mod guild;
pub mod laws;
pub mod notice;
pub mod request;
pub mod resolver;
pub mod store;
pub mod wiki;
