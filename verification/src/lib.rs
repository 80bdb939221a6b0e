//! Verified core of the Flute webhooks command-line tool and dashboard.

pub mod api;
pub mod auth;
pub mod cli;
pub mod config;
pub mod domain;
pub mod forward;
pub mod listen;
pub mod poller;
pub mod text;
pub mod time;
pub mod tui;
pub mod update;
pub mod update_check;
