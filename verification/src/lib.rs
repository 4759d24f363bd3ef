//! Boots the Monster Hunter Frontier client without its own launcher.
pub mod bytes;
pub mod cli;
pub mod client;
pub mod command;
pub mod config;
pub mod fonts;
pub mod friends;
pub mod game_data;
pub mod game_layout;
pub mod global_data;
pub mod ini;
pub mod injector;
pub mod launch;
pub mod text;
pub mod utils;

pub use crate::config::{CliFlags, Error, FriendData, MhfConfig, MhfVersion, Notice};
