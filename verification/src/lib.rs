//! The logic of a GTK application launcher that also plays playlists from
//! YouTube or Spotify: configuration, the daemon's requests, the launch
//! history, search and order of the lists, key handling, the tab switch,
//! playlist addresses and the sign-in flows of the music services.
pub mod cli;
pub mod config;
pub mod consts;
pub mod daemon;
pub mod history;
pub mod music;
pub mod services;
pub mod tabs;
pub mod text;
pub mod utils;
pub mod window;
