//! The logic of the bot's commands.

pub mod chat;
pub mod cmd;
pub mod deviantart;
pub mod fml;
pub mod polldaddy;
pub mod quizizz;
pub mod r6tracker;
pub mod reddit_embed;
pub mod rule34;
pub mod sauce_nao;
pub mod shift;
pub mod system;
pub mod tic_tac_toe;
pub mod tiktok_embed;
pub mod twitterify;
pub mod urban;
pub mod uwuify;
pub mod vaporwave;
