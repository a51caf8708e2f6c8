//! Fixed names and texts of the launcher.
use vstd::prelude::*;

verus! {

pub const APP_ID: &'static str = "wm.crab.launcher";

pub const APP_TITLE: &'static str = "crab-launcher";

pub const DBUS_SESSION_NAME: &'static str = "wm.crab.GDBus.LauncherServer";

pub const DBUS_OBJECT_PATH: &'static str = "/wm/crab/GDBus/LauncherObject";

pub const DBUS_INTERFACE_NAME: &'static str = "wm.crab.GDBus.LauncherInterface";

pub const DATA_DIR: &'static str = "/crab";

pub const DATA_HISTORY_TEMP_FILE: &'static str = "/crab/history.json";

pub const DATA_MUSIC_YOUTUBE_TEMP_FILE: &'static str = "/crab/youtube_playlists.json";

pub const DATA_MUSIC_SPOTIFY_TEMP_FILE: &'static str = "/crab/spotify_playlists.json";

pub const DATA_MUSIC_YOUTUBE_CACHE_FILE: &'static str = "/crab/youtube_token.json";

pub const DATA_MUSIC_SPOTIFY_CACHE_FILE: &'static str = "/crab/spotify_token.json";

pub const ERROR_MISSING_CONFIG: &'static str = "Could not find configuration file for the application. Make sure you have a `~/.config/crab/launcher_def.yaml` file. If you don't have it, run `crab-launcher --generate-config`";

pub const ERROR_BAD_CONFIG: &'static str = "Could not read configuration file. Make sure you have a `~/.config/crab/launcher_def.yaml` file and it's properly formatted.";

pub const MUSIC_YOUTUBE_URL: &'static str = "https://www.youtube.com/watch?v={VIDEO_ID}&list={LIST_ID}&index=1";

pub const MUSIC_SPOFITY_URL: &'static str = "https://open.spotify.com/track/{TRACK_ID}?context=spotify%3Aplaylist%3A{LIST_ID}";

pub const MAX_CHARS_IN_ROW: usize = 40;

pub const KEY_UP_ARROW: u32 = 111;

pub const KEY_DOWN_ARROW: u32 = 116;

pub const KEY_ESC: u32 = 9;

pub const KEY_LEFT_SHIFT: u32 = 50;

pub const KEY_RIGHT_SHIFT: u32 = 62;

pub const KEY_ENTER: u32 = 36;

pub const KEY_TAB: u32 = 23;

} // verus!
