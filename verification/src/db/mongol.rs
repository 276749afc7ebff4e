pub mod helper;
pub mod relation;
pub mod relation_laws;
pub mod log;
pub mod user;
pub mod channel;
pub mod channel_parent;
pub mod bucket;
pub mod message;
pub mod refresh_token;
pub mod chat;
pub mod pipeline;
pub mod stages;
