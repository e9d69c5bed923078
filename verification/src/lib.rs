//! Decision logic for linking dotfiles from a source directory into a target
//! directory: where the ignore file lives, what it excludes, and what happens
//! to each candidate path.

pub mod cli;
pub mod config;
pub mod entries;
pub mod globs;
pub mod ignore;
pub mod link;
pub mod paths;
pub mod run;
pub mod ui;

pub use cli::Args;
pub use config::get_config_path;
pub use ignore::IgnoreList;
pub use link::{handle_link, LinkAction};
pub use ui::{prompt_user, UIMode};
