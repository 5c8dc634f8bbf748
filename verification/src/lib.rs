//! A moderation library for group chats: it inspects the text recognized in
//! posted images, decides whether the image is a scam advertisement by
//! matching configured keyword groups, and plans the disciplinary response
//! (delete, kick, ban) according to a per-chat policy, degrading gracefully
//! when the platform reports insufficient permissions.

pub mod chat;
pub mod config;
pub mod error;
pub mod matching;
pub mod pipeline;
pub mod text;
