//! The verified core of a Telegram bot that answers with OpenAI chat
//! completions: reply sanitizing, the configuration tables, the bot's
//! decisions, its keyboard, and the per-chat state it keeps.
pub mod text;
pub mod html;
pub mod html_laws;
pub mod string_map;
pub mod config;
pub mod resources;
pub mod bot;
pub mod keyboard;
pub mod tracker;
pub mod client;
