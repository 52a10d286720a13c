//! The logic of a player for the music service NetEase Cloud Music.
//!
//! - [`player`]: the playlist, the order in which it is played, and what the audio output is told.
//! - [`api`]: requests to the service, downloads, and the files that songs and images are kept in.
//! - [`json`] and [`model`]: reading the answers of the service.
//! - [`app_lib`], [`cache`] and [`qr`]: what the application knows while it runs.
//! - [`app`] and the modules about the interface: [`navigator`], [`songlist`], [`sidebar`],
//!   [`playing`], [`pages`], [`frame`] and [`types`].
//! - [`config`], [`text`] and [`utility`]: what all of them use.
//!
//! Nothing here touches the network, the disk, the screen or the audio output. Functions decide
//! what is to be done there and take in what came of it.
pub mod api;
pub mod app;
pub mod app_lib;
pub mod cache;
pub mod config;
pub mod frame;
pub mod json;
pub mod model;
pub mod navigator;
pub mod pages;
pub mod player;
pub mod playing;
pub mod qr;
pub mod sidebar;
pub mod songlist;
pub mod text;
pub mod types;
pub mod utility;

pub use self::api::NcmApi;
pub use self::config::Config;
pub use self::utility::{i32c_to_u64, i32x2_to_u64, u64_to_i32x2};
