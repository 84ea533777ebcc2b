//! The decisions of an LTI 1.3 tool: the login and launch flow through which
//! learning platforms (Moodle, Canvas, ...) send their users into Tobira.

pub mod base64url;
pub mod claims;
pub mod config;
pub mod deeplink;
pub mod form;
pub mod http;
pub mod http_url;
pub mod json;
pub mod launch;
pub mod listing;
pub mod login;
pub mod platform_keys;
pub mod registration;
pub mod store;
pub mod target;
pub mod text;
pub mod token;
pub mod tool_key;
