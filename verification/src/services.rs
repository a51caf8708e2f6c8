//! Fetching playlists from the music services. The network work is done by
//! the caller; this module decides, after each outcome, what to do next.
use vstd::prelude::*;

use crate::config::{ConfigMusic, ConfigMusicService};

verus! {

/// The service whose playlists a fetch asks for: none without a music
/// section; none for YouTube unless the fetch was asked for explicitly
/// (YouTube needs the user to sign in); otherwise the configured service.
pub open spec fn fetch_plan_spec(music: Option<ConfigMusic>, force: bool) -> Option<
    ConfigMusicService,
> {
    match music {
        None => None,
        Some(m) => if m.service == ConfigMusicService::Youtube && !force {
            None
        } else {
            Some(m.service)
        },
    }
}

/// The service to fetch playlists from, if any. `force` is set when the
/// user asked for the fetch (`--fetch`) rather than the daemon starting.
pub fn fetch_plan(music: Option<&ConfigMusic>, force: bool) -> (s: Option<ConfigMusicService>)
    ensures
        s == fetch_plan_spec(
            match music {
                Some(m) => Some(*m),
                None => None,
            },
            force,
        ),
{
    match music {
        None => None,
        Some(m) => match m.service {
            ConfigMusicService::Youtube => if force {
                Some(ConfigMusicService::Youtube)
            } else {
                None
            },
            ConfigMusicService::Spotify => Some(ConfigMusicService::Spotify),
        },
    }
}

/// YouTube playlists are fetched only when the user asks for it; Spotify
/// playlists are fetched every time, also when the daemon starts.
pub proof fn lemma_fetch_plan_per_service(force: bool)
    ensures
        fetch_plan_spec(Some(ConfigMusic { service: ConfigMusicService::Youtube }), force) == (if force {
            Some(ConfigMusicService::Youtube)
        } else {
            None
        }),
        fetch_plan_spec(Some(ConfigMusic { service: ConfigMusicService::Spotify }), force) == Some(
            ConfigMusicService::Spotify,
        ),
        fetch_plan_spec(None, force) == None::<ConfigMusicService>,
{
}

/// What to do next while fetching Spotify playlists.
#[derive(PartialEq, Eq, Structural, Clone, Copy, Debug)]
pub enum SpotifyAction {
    /// Read the cached token; report whether a token was read.
    ReadTokenCache,
    /// Sign in again through the browser; report whether it succeeded.
    RegenerateAuth,
    /// Ask the user for the address the browser was sent to; report whether
    /// a token was obtained.
    PromptForToken,
    /// Fetch the user's playlists, first installing the token that the last
    /// cache read gave (none if it failed) when `install_cached_token`;
    /// report whether the fetch succeeded.
    FetchPlaylists { install_cached_token: bool },
    /// Build the entries from the playlists fetched last.
    ListPlaylists,
    /// Give up: no playlists.
    GiveUp,
}

/// Where fetching Spotify playlists stands.
#[derive(PartialEq, Eq, Structural, Clone, Copy, Debug)]
pub enum SpotifyStage {
    ReadingCache,
    RegeneratingBeforeFetch,
    RereadingCache,
    FirstFetch,
    Prompting,
    SecondFetch,
    RegeneratingAfterFetch,
    ThirdFetch,
    Finished,
}

/// The next stage and action after the outcome `ok` of the current stage's
/// action. A missing token or a failed fetch ends the fetch with nothing
/// unless the fetch was asked for (`force`); then the user is asked to sign
/// in, as often as it takes.
pub open spec fn spotify_next(stage: SpotifyStage, force: bool, ok: bool) -> (
    SpotifyStage,
    SpotifyAction,
) {
    match stage {
        SpotifyStage::ReadingCache => if ok {
            (SpotifyStage::FirstFetch, SpotifyAction::FetchPlaylists { install_cached_token: true })
        } else if !force {
            (SpotifyStage::Finished, SpotifyAction::GiveUp)
        } else {
            (SpotifyStage::RegeneratingBeforeFetch, SpotifyAction::RegenerateAuth)
        },
        SpotifyStage::RegeneratingBeforeFetch => if ok {
            (SpotifyStage::RereadingCache, SpotifyAction::ReadTokenCache)
        } else {
            (SpotifyStage::RegeneratingBeforeFetch, SpotifyAction::RegenerateAuth)
        },
        SpotifyStage::RereadingCache => (
            SpotifyStage::FirstFetch,
            SpotifyAction::FetchPlaylists { install_cached_token: true },
        ),
        SpotifyStage::FirstFetch => if ok {
            (SpotifyStage::Finished, SpotifyAction::ListPlaylists)
        } else if !force {
            (SpotifyStage::Finished, SpotifyAction::GiveUp)
        } else {
            (SpotifyStage::Prompting, SpotifyAction::PromptForToken)
        },
        SpotifyStage::Prompting => if ok {
            (SpotifyStage::SecondFetch, SpotifyAction::FetchPlaylists { install_cached_token: false })
        } else {
            (SpotifyStage::Prompting, SpotifyAction::PromptForToken)
        },
        SpotifyStage::SecondFetch => if ok {
            (SpotifyStage::Finished, SpotifyAction::ListPlaylists)
        } else {
            (SpotifyStage::RegeneratingAfterFetch, SpotifyAction::RegenerateAuth)
        },
        SpotifyStage::RegeneratingAfterFetch => if ok {
            (SpotifyStage::ThirdFetch, SpotifyAction::FetchPlaylists { install_cached_token: false })
        } else {
            (SpotifyStage::RegeneratingAfterFetch, SpotifyAction::RegenerateAuth)
        },
        SpotifyStage::ThirdFetch => if ok {
            (SpotifyStage::Finished, SpotifyAction::ListPlaylists)
        } else {
            (SpotifyStage::Finished, SpotifyAction::GiveUp)
        },
        SpotifyStage::Finished => (SpotifyStage::Finished, SpotifyAction::GiveUp),
    }
}

/// An action that needs the user.
pub open spec fn is_interactive(a: SpotifyAction) -> bool {
    a == SpotifyAction::RegenerateAuth || a == SpotifyAction::PromptForToken
}

/// A stage that is entered only through an interactive action.
pub open spec fn is_interactive_stage(s: SpotifyStage) -> bool {
    s != SpotifyStage::ReadingCache && s != SpotifyStage::FirstFetch && s != SpotifyStage::Finished
}

/// Fetching Spotify playlists.
pub struct SpotifyFetch {
    pub force: bool,
    pub stage: SpotifyStage,
}

impl SpotifyFetch {
    /// A fetch and its first action: read the cached token.
    pub fn start(force: bool) -> (r: (SpotifyFetch, SpotifyAction))
        ensures
            r.0.force == force,
            r.0.stage == SpotifyStage::ReadingCache,
            r.1 == SpotifyAction::ReadTokenCache,
    {
        (SpotifyFetch { force, stage: SpotifyStage::ReadingCache }, SpotifyAction::ReadTokenCache)
    }

    /// Whether the fetch has ended.
    pub fn is_finished(&self) -> (b: bool)
        ensures
            b == (self.stage == SpotifyStage::Finished),
    {
        match self.stage {
            SpotifyStage::Finished => true,
            _ => false,
        }
    }

    /// Takes the outcome of the last action and gives the next one.
    pub fn step(&mut self, ok: bool) -> (a: SpotifyAction)
        requires
            old(self).stage != SpotifyStage::Finished,
        ensures
            final(self).force == old(self).force,
            (final(self).stage, a) == spotify_next(old(self).stage, old(self).force, ok),
    {
        let force = self.force;
        let (stage, action) = match self.stage {
            SpotifyStage::ReadingCache => if ok {
                (SpotifyStage::FirstFetch, SpotifyAction::FetchPlaylists { install_cached_token: true })
            } else if !force {
                (SpotifyStage::Finished, SpotifyAction::GiveUp)
            } else {
                (SpotifyStage::RegeneratingBeforeFetch, SpotifyAction::RegenerateAuth)
            },
            SpotifyStage::RegeneratingBeforeFetch => if ok {
                (SpotifyStage::RereadingCache, SpotifyAction::ReadTokenCache)
            } else {
                (SpotifyStage::RegeneratingBeforeFetch, SpotifyAction::RegenerateAuth)
            },
            SpotifyStage::RereadingCache => (
                SpotifyStage::FirstFetch,
                SpotifyAction::FetchPlaylists { install_cached_token: true },
            ),
            SpotifyStage::FirstFetch => if ok {
                (SpotifyStage::Finished, SpotifyAction::ListPlaylists)
            } else if !force {
                (SpotifyStage::Finished, SpotifyAction::GiveUp)
            } else {
                (SpotifyStage::Prompting, SpotifyAction::PromptForToken)
            },
            SpotifyStage::Prompting => if ok {
                (
                    SpotifyStage::SecondFetch,
                    SpotifyAction::FetchPlaylists { install_cached_token: false },
                )
            } else {
                (SpotifyStage::Prompting, SpotifyAction::PromptForToken)
            },
            SpotifyStage::SecondFetch => if ok {
                (SpotifyStage::Finished, SpotifyAction::ListPlaylists)
            } else {
                (SpotifyStage::RegeneratingAfterFetch, SpotifyAction::RegenerateAuth)
            },
            SpotifyStage::RegeneratingAfterFetch => if ok {
                (SpotifyStage::ThirdFetch, SpotifyAction::FetchPlaylists { install_cached_token: false })
            } else {
                (SpotifyStage::RegeneratingAfterFetch, SpotifyAction::RegenerateAuth)
            },
            SpotifyStage::ThirdFetch => if ok {
                (SpotifyStage::Finished, SpotifyAction::ListPlaylists)
            } else {
                (SpotifyStage::Finished, SpotifyAction::GiveUp)
            },
            SpotifyStage::Finished => (SpotifyStage::Finished, SpotifyAction::GiveUp),
        };
        self.stage = stage;
        action
    }
}

/// A fetch that the user did not ask for never needs the user: from a
/// stage that such a fetch can be in, no outcome leads to signing in or to
/// a prompt, nor to a stage reached only that way.
pub proof fn lemma_no_interaction_without_force(stage: SpotifyStage, ok: bool)
    requires
        !is_interactive_stage(stage),
    ensures
        !is_interactive(spotify_next(stage, false, ok).1),
        !is_interactive_stage(spotify_next(stage, false, ok).0),
{
}

/// Playlists are listed only right after a fetch that succeeded, and the
/// fetch ends exactly when it lists playlists or gives up.
pub proof fn lemma_list_only_after_fetch(stage: SpotifyStage, force: bool, ok: bool)
    requires
        stage != SpotifyStage::Finished,
    ensures
        spotify_next(stage, force, ok).1 == SpotifyAction::ListPlaylists ==> ok && (stage
            == SpotifyStage::FirstFetch || stage == SpotifyStage::SecondFetch || stage
            == SpotifyStage::ThirdFetch),
        (spotify_next(stage, force, ok).0 == SpotifyStage::Finished) <==> (spotify_next(
            stage,
            force,
            ok,
        ).1 == SpotifyAction::ListPlaylists || spotify_next(stage, force, ok).1
            == SpotifyAction::GiveUp),
{
}

/// How fetching a list of YouTube playlists went.
#[derive(PartialEq, Eq, Structural, Clone, Copy, Debug)]
pub enum FetchOutcome {
    /// The request failed.
    Failed,
    /// The answer held no list of playlists.
    NoItems,
    /// The answer held a list of playlists.
    Items,
}

/// What to do next while fetching YouTube playlists.
#[derive(PartialEq, Eq, Structural, Clone, Copy, Debug)]
pub enum YoutubeAction {
    /// Ask for the user's playlists.
    FetchPlaylists,
    /// Drop the cached sign-in and sign in again.
    RebuildHub,
    /// Build the entries from the playlists fetched last.
    ListPlaylists,
    /// Keep the playlists saved before.
    KeepOldPlaylists,
    /// Stop: the playlists could not be fetched even after signing in again.
    Fail,
}

/// Where fetching YouTube playlists stands.
#[derive(PartialEq, Eq, Structural, Clone, Copy, Debug)]
pub enum YoutubeStage {
    FirstFetch,
    RebuildingHub,
    SecondFetch,
    Finished,
}

/// The next stage and action after the outcome of a fetch.
pub open spec fn youtube_after_fetch(stage: YoutubeStage, outcome: FetchOutcome) -> (
    YoutubeStage,
    YoutubeAction,
) {
    match outcome {
        FetchOutcome::Items => (YoutubeStage::Finished, YoutubeAction::ListPlaylists),
        FetchOutcome::NoItems => (YoutubeStage::Finished, YoutubeAction::KeepOldPlaylists),
        FetchOutcome::Failed => if stage == YoutubeStage::FirstFetch {
            (YoutubeStage::RebuildingHub, YoutubeAction::RebuildHub)
        } else {
            (YoutubeStage::Finished, YoutubeAction::Fail)
        },
    }
}

/// Fetching YouTube playlists.
pub struct YoutubeFetch {
    pub stage: YoutubeStage,
}

impl YoutubeFetch {
    /// A fetch and its first action: ask for the playlists.
    pub fn start() -> (r: (YoutubeFetch, YoutubeAction))
        ensures
            r.0.stage == YoutubeStage::FirstFetch,
            r.1 == YoutubeAction::FetchPlaylists,
    {
        (YoutubeFetch { stage: YoutubeStage::FirstFetch }, YoutubeAction::FetchPlaylists)
    }

    /// Takes the outcome of a fetch and gives the next action.
    pub fn playlists_fetched(&mut self, outcome: FetchOutcome) -> (a: YoutubeAction)
        requires
            old(self).stage == YoutubeStage::FirstFetch || old(self).stage == YoutubeStage::SecondFetch,
        ensures
            (final(self).stage, a) == youtube_after_fetch(old(self).stage, outcome),
    {
        let (stage, action) = match outcome {
            FetchOutcome::Items => (YoutubeStage::Finished, YoutubeAction::ListPlaylists),
            FetchOutcome::NoItems => (YoutubeStage::Finished, YoutubeAction::KeepOldPlaylists),
            FetchOutcome::Failed => match self.stage {
                YoutubeStage::FirstFetch => (YoutubeStage::RebuildingHub, YoutubeAction::RebuildHub),
                _ => (YoutubeStage::Finished, YoutubeAction::Fail),
            },
        };
        self.stage = stage;
        action
    }

    /// Signing in again is done: fetch once more.
    pub fn hub_rebuilt(&mut self) -> (a: YoutubeAction)
        requires
            old(self).stage == YoutubeStage::RebuildingHub,
        ensures
            final(self).stage == YoutubeStage::SecondFetch,
            a == YoutubeAction::FetchPlaylists,
    {
        self.stage = YoutubeStage::SecondFetch;
        YoutubeAction::FetchPlaylists
    }
}

/// A YouTube fetch signs in again at most once: after a second failure it
/// stops instead of trying again.
pub proof fn lemma_youtube_rebuilds_once(outcome: FetchOutcome)
    ensures
        youtube_after_fetch(YoutubeStage::SecondFetch, outcome).1 != YoutubeAction::RebuildHub,
        youtube_after_fetch(YoutubeStage::SecondFetch, outcome).0 == YoutubeStage::Finished,
        youtube_after_fetch(YoutubeStage::FirstFetch, outcome).1 == YoutubeAction::RebuildHub <==> outcome
            == FetchOutcome::Failed,
{
}

/// Whenever the Spotify fetch asks for the playlists and that request
/// succeeds, the playlists are listed: a successful fetch never gives up,
/// whether it came from the cached token, the prompt or a new sign-in.
pub proof fn lemma_spotify_successful_fetch_lists(stage: SpotifyStage, force: bool, ok: bool)
    requires
        stage != SpotifyStage::Finished,
        spotify_next(stage, force, ok).1 is FetchPlaylists,
    ensures
        spotify_next(spotify_next(stage, force, ok).0, force, true) == (
            SpotifyStage::Finished,
            SpotifyAction::ListPlaylists,
        ),
{
}

/// A YouTube fetch that brings a list of playlists lists them, and one that
/// brings no list keeps the saved playlists, whether it is the first fetch
/// or the one after signing in again.
pub proof fn lemma_youtube_fetch_outcome_decides(stage: YoutubeStage)
    requires
        stage == YoutubeStage::FirstFetch || stage == YoutubeStage::SecondFetch,
    ensures
        youtube_after_fetch(stage, FetchOutcome::Items) == (
            YoutubeStage::Finished,
            YoutubeAction::ListPlaylists,
        ),
        youtube_after_fetch(stage, FetchOutcome::NoItems) == (
            YoutubeStage::Finished,
            YoutubeAction::KeepOldPlaylists,
        ),
{
}

} // verus!
