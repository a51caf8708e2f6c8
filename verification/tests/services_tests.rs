use crab_launcher::config::{ConfigMusic, ConfigMusicService};
use crab_launcher::services::{
    fetch_plan, FetchOutcome, SpotifyAction, SpotifyFetch, YoutubeAction, YoutubeFetch,
};

#[test]
fn fetch_plan_per_service() {
    let yt = ConfigMusic { service: ConfigMusicService::Youtube };
    let sp = ConfigMusic { service: ConfigMusicService::Spotify };
    assert_eq!(fetch_plan(None, true), None);
    assert_eq!(fetch_plan(Some(&yt), false), None);
    assert_eq!(fetch_plan(Some(&yt), true), Some(ConfigMusicService::Youtube));
    assert_eq!(fetch_plan(Some(&sp), false), Some(ConfigMusicService::Spotify));
    assert_eq!(fetch_plan(Some(&sp), true), Some(ConfigMusicService::Spotify));
}

fn spotify_run(force: bool, outcomes: &[bool]) -> Vec<SpotifyAction> {
    let (mut f, first) = SpotifyFetch::start(force);
    let mut v = vec![first];
    for ok in outcomes {
        if f.is_finished() {
            break;
        }
        v.push(f.step(*ok));
    }
    v
}

#[test]
fn spotify_cached_token_fetches() {
    assert_eq!(
        spotify_run(false, &[true, true]),
        vec![
            SpotifyAction::ReadTokenCache,
            SpotifyAction::FetchPlaylists { install_cached_token: true },
            SpotifyAction::ListPlaylists
        ]
    );
}

#[test]
fn spotify_without_token_gives_up_unless_forced() {
    assert_eq!(
        spotify_run(false, &[false]),
        vec![SpotifyAction::ReadTokenCache, SpotifyAction::GiveUp]
    );
    assert_eq!(
        spotify_run(false, &[true, false]),
        vec![
            SpotifyAction::ReadTokenCache,
            SpotifyAction::FetchPlaylists { install_cached_token: true },
            SpotifyAction::GiveUp
        ]
    );
}

#[test]
fn spotify_forced_signs_in_until_it_works() {
    assert_eq!(
        spotify_run(true, &[false, false, true, true, true]),
        vec![
            SpotifyAction::ReadTokenCache,
            SpotifyAction::RegenerateAuth,
            SpotifyAction::RegenerateAuth,
            SpotifyAction::ReadTokenCache,
            SpotifyAction::FetchPlaylists { install_cached_token: true },
            SpotifyAction::ListPlaylists
        ]
    );
    assert_eq!(
        spotify_run(true, &[true, false, false, true, false, true, false]),
        vec![
            SpotifyAction::ReadTokenCache,
            SpotifyAction::FetchPlaylists { install_cached_token: true },
            SpotifyAction::PromptForToken,
            SpotifyAction::PromptForToken,
            SpotifyAction::FetchPlaylists { install_cached_token: false },
            SpotifyAction::RegenerateAuth,
            SpotifyAction::FetchPlaylists { install_cached_token: false },
            SpotifyAction::GiveUp
        ]
    );
}

#[test]
fn youtube_rebuilds_once() {
    let (mut f, a) = YoutubeFetch::start();
    assert_eq!(a, YoutubeAction::FetchPlaylists);
    assert_eq!(f.playlists_fetched(FetchOutcome::Failed), YoutubeAction::RebuildHub);
    assert_eq!(f.hub_rebuilt(), YoutubeAction::FetchPlaylists);
    assert_eq!(f.playlists_fetched(FetchOutcome::Failed), YoutubeAction::Fail);

    let (mut f, _) = YoutubeFetch::start();
    assert_eq!(f.playlists_fetched(FetchOutcome::Items), YoutubeAction::ListPlaylists);
    let (mut f, _) = YoutubeFetch::start();
    assert_eq!(f.playlists_fetched(FetchOutcome::NoItems), YoutubeAction::KeepOldPlaylists);
}
