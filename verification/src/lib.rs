//! Verified core of the probe-rs performance bot: benchmark comparison,
//! GitHub webhook decisions, report text, chat commands and the text
//! utilities (decimal numbers, ASCII case folding) they rest on.

pub mod commands;
pub mod compare;
pub mod config;
pub mod links;
pub mod logs;
pub mod models;
pub mod report;
pub mod text;
pub mod upload;
pub mod webhook;
