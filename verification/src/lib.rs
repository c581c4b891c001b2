//! Pikadick: the rules, parsers and decision logic of a Discord bot, with
//! their contracts proved.

pub mod commands;
pub mod config;
pub mod database;
pub mod framework;
pub mod handler;
pub mod logger;
pub mod setup;
pub mod slash_framework;
pub mod tic_tac_toe;
pub mod util;
