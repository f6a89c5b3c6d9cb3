//! Verified core of a webhook relay that turns Linear and GitHub events into
//! Lark (Feishu) card notifications.

pub mod event;
pub mod text;
pub mod models;
pub mod utils;
pub mod cards;
pub mod linear;
pub mod x;
pub mod config;
pub mod github;
pub mod debounce;
pub mod lark;
pub mod webhook;
