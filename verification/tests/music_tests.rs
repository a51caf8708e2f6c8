use crab_launcher::config::ConfigMusicService;
use crab_launcher::music::{flatten, MusicData, MusicObject};

#[test]
fn youtube_uri() {
    let o = MusicObject {
        data: MusicData::for_youtube("PL123".to_string(), "Mix".to_string(), Some("vid42".to_string())),
    };
    assert_eq!(
        o.get_uri(),
        Some("https://www.youtube.com/watch?v=vid42&list=PL123&index=1".to_string())
    );
    let c = o.start_playing();
    assert_eq!(c.program, "xdg-open");
    assert_eq!(c.args, vec!["https://www.youtube.com/watch?v=vid42&list=PL123&index=1".to_string()]);
}

#[test]
fn spotify_uri() {
    let o = MusicObject {
        data: MusicData::for_spotify("list1".to_string(), "Chill".to_string(), Some(Some(Some("track9".to_string())))),
    };
    let uri = "https://open.spotify.com/track/track9?context=spotify%3Aplaylist%3Alist1".to_string();
    assert_eq!(o.get_uri(), Some(uri.clone()));
    let c = o.start_playing();
    assert_eq!(c.program, "spotify");
    assert_eq!(c.args, vec![format!("--uri={}", uri)]);
}

#[test]
fn no_first_item_no_uri() {
    let o = MusicObject::new();
    assert_eq!(o.get_uri(), None);
    let d = MusicData::for_spotify("l".to_string(), "t".to_string(), Some(None));
    assert_eq!(d.first_id, None);
    let d = MusicData::for_spotify("l".to_string(), "t".to_string(), Some(Some(None)));
    assert_eq!(d.first_id, None);
    assert_eq!(d.service, ConfigMusicService::Spotify);
}

#[test]
fn placeholders_in_ids_are_replaced_like_std() {
    let d = MusicData::for_youtube("L".to_string(), "t".to_string(), Some("{LIST_ID}".to_string()));
    let o = MusicObject { data: d };
    let expected = "https://www.youtube.com/watch?v={VIDEO_ID}&list={LIST_ID}&index=1"
        .replace("{VIDEO_ID}", "{LIST_ID}")
        .replace("{LIST_ID}", "L");
    assert_eq!(o.get_uri(), Some(expected));
}

#[test]
fn name_is_title() {
    let o = MusicObject { data: MusicData::for_youtube("id".to_string(), "My list".to_string(), None) };
    assert_eq!(o.get_name(), "My list");
}

#[test]
fn flatten_options() {
    assert_eq!(flatten(Some(Some(3))), Some(3));
    assert_eq!(flatten::<i32>(Some(None)), None);
    assert_eq!(flatten::<i32>(None), None);
}
