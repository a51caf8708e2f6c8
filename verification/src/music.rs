//! Playlists offered by the launcher: their data, the address that plays
//! them, and the command that starts playing them.
use vstd::prelude::*;

use crate::config::ConfigMusicService;
use crate::consts::{MUSIC_SPOFITY_URL, MUSIC_YOUTUBE_URL};
use crate::text::{replace_all, replaced};

verus! {

/// A playlist: its id, its title, the id of its first video or track (if
/// it has one) and the service it belongs to.
#[derive(Debug)]
pub struct MusicData {
    pub id: String,
    pub title: String,
    pub first_id: Option<String>,
    pub service: ConfigMusicService,
}

impl Clone for MusicData {
    fn clone(&self) -> (d: Self)
        ensures
            d == *self,
    {
        MusicData {
            id: self.id.clone(),
            title: self.title.clone(),
            first_id: match &self.first_id {
                Some(f) => Some(f.clone()),
                None => None,
            },
            service: self.service,
        }
    }
}

impl Default for MusicData {
    fn default() -> (d: Self)
        ensures
            d.id@.len() == 0,
            d.title@.len() == 0,
            d.first_id is None,
            d.service == ConfigMusicService::Youtube,
    {
        MusicData {
            id: String::new(),
            title: String::new(),
            first_id: None,
            service: ConfigMusicService::Youtube,
        }
    }
}

/// The option inside an option, or none.
pub open spec fn flatten_spec<T>(o: Option<Option<T>>) -> Option<T> {
    match o {
        Some(inner) => inner,
        None => None,
    }
}

/// The option inside an option, or none.
pub fn flatten<T>(o: Option<Option<T>>) -> (r: Option<T>)
    ensures
        r == flatten_spec(o),
{
    match o {
        Some(inner) => inner,
        None => None,
    }
}

impl MusicData {
    /// A YouTube playlist.
    pub fn for_youtube(id: String, title: String, first_video_id: Option<String>) -> (d: MusicData)
        ensures
            d == (MusicData {
                id,
                title,
                first_id: first_video_id,
                service: ConfigMusicService::Youtube,
            }),
    {
        MusicData { id, title, first_id: first_video_id, service: ConfigMusicService::Youtube }
    }

    /// A Spotify playlist. `first_track` is what looking up the id of the
    /// first item's track gives: no first item, an item without a track, a
    /// track without an id, or the id.
    pub fn for_spotify(id: String, title: String, first_track: Option<Option<Option<String>>>) -> (d:
        MusicData)
        ensures
            d == (MusicData {
                id,
                title,
                first_id: flatten_spec(flatten_spec(first_track)),
                service: ConfigMusicService::Spotify,
            }),
    {
        MusicData {
            id,
            title,
            first_id: flatten(flatten(first_track)),
            service: ConfigMusicService::Spotify,
        }
    }
}

/// The address that plays a playlist from its first item: the service's
/// address template with the item's id and then the playlist's id filled
/// in; none for a playlist without a first item.
pub open spec fn uri_spec(d: MusicData) -> Option<Seq<char>> {
    match d.first_id {
        None => None,
        Some(first) => Some(
            match d.service {
                ConfigMusicService::Youtube => replaced(
                    replaced(MUSIC_YOUTUBE_URL@, "{VIDEO_ID}"@, first@),
                    "{LIST_ID}"@,
                    d.id@,
                ),
                ConfigMusicService::Spotify => replaced(
                    replaced(MUSIC_SPOFITY_URL@, "{TRACK_ID}"@, first@),
                    "{LIST_ID}"@,
                    d.id@,
                ),
            },
        ),
    }
}

/// A program and its arguments.
#[derive(Debug)]
pub struct PlayCommand {
    pub program: String,
    pub args: Vec<String>,
}

/// A playlist as the launcher lists it.
#[derive(Debug)]
pub struct MusicObject {
    pub data: MusicData,
}

impl MusicObject {
    /// An entry with empty data.
    pub fn new() -> (o: MusicObject)
        ensures
            o.data.id@.len() == 0,
            o.data.title@.len() == 0,
            o.data.first_id is None,
            o.data.service == ConfigMusicService::Youtube,
    {
        MusicObject { data: MusicData::default() }
    }

    /// The address that plays the playlist; none when it has no first item.
    pub fn get_uri(&self) -> (u: Option<String>)
        ensures
            u is Some <==> self.data.first_id is Some,
            u is Some ==> Some(u->0@) == uri_spec(self.data),
    {
        proof {
            reveal_strlit("{VIDEO_ID}");
            reveal_strlit("{TRACK_ID}");
            reveal_strlit("{LIST_ID}");
        }
        match &self.data.first_id {
            None => None,
            Some(first) => match self.data.service {
                ConfigMusicService::Youtube => {
                    let with_video = replace_all(MUSIC_YOUTUBE_URL, "{VIDEO_ID}", first.as_str());
                    Some(replace_all(with_video.as_str(), "{LIST_ID}", self.data.id.as_str()))
                },
                ConfigMusicService::Spotify => {
                    let with_track = replace_all(MUSIC_SPOFITY_URL, "{TRACK_ID}", first.as_str());
                    Some(replace_all(with_track.as_str(), "{LIST_ID}", self.data.id.as_str()))
                },
            },
        }
    }

    /// The command that starts playing the playlist: the address opened
    /// with `xdg-open` for YouTube, or given to the Spotify client as
    /// `--uri=<address>`.
    pub fn start_playing(&self) -> (c: PlayCommand)
        requires
            self.data.first_id is Some,
        ensures
            match self.data.service {
                ConfigMusicService::Youtube => c.program@ == "xdg-open"@ && c.args@.len() == 1
                    && Some(c.args@[0]@) == uri_spec(self.data),
                ConfigMusicService::Spotify => c.program@ == "spotify"@ && c.args@.len() == 1
                    && uri_spec(self.data) is Some && c.args@[0]@ == "--uri="@ + uri_spec(
                    self.data,
                )->0,
            },
    {
        let uri = match self.get_uri() {
            Some(u) => u,
            None => String::new(),
        };
        match self.data.service {
            ConfigMusicService::Youtube => {
                let mut args: Vec<String> = Vec::new();
                args.push(uri);
                PlayCommand { program: String::from_str("xdg-open"), args }
            },
            ConfigMusicService::Spotify => {
                let arg = String::from_str("--uri=").concat(uri.as_str());
                let mut args: Vec<String> = Vec::new();
                args.push(arg);
                PlayCommand { program: String::from_str("spotify"), args }
            },
        }
    }

    /// The name shown in the launcher's list: the playlist's title.
    pub fn get_name(&self) -> (n: String)
        ensures
            n@ == self.data.title@,
    {
        self.data.title.clone()
    }
}

/// A playlist has an address exactly when it has a first item.
pub proof fn lemma_uri_iff_first_item(d: MusicData)
    ensures
        uri_spec(d) is Some <==> d.first_id is Some,
{
}

} // verus!
