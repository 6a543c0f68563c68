//! Verified core of the profile commands of a proxy client.
//!
//! The commands themselves read files, talk to the proxy core and notify the
//! front end. Everything they decide or compute stands here: how a profile
//! switch proceeds and what it does to the draft, which profiles are refreshed
//! at start-up, and how a share link becomes a profile document.

pub mod command_laws;
pub mod commands;
pub mod fields;
pub mod link;
pub mod notice;
pub mod profiles;
pub mod proxy_laws;
pub mod share_link;
pub mod share_link_laws;
pub mod switch;
pub mod switch_answers;
pub mod switch_laws;
pub mod template;
pub mod text;
pub mod yaml;
