//! The configuration model: colours, the music service, the style sheet
//! built from them, and the order in which configuration files are tried.
use vstd::prelude::*;

use crate::consts::{
    DATA_MUSIC_SPOTIFY_TEMP_FILE, DATA_MUSIC_YOUTUBE_TEMP_FILE, ERROR_BAD_CONFIG,
    ERROR_MISSING_CONFIG,
};

verus! {

/// The service whose playlists the launcher offers.
#[derive(PartialEq, Eq, Structural, Clone, Copy, Debug)]
pub enum ConfigMusicService {
    Youtube,
    Spotify,
}

impl Default for ConfigMusicService {
    fn default() -> (s: Self)
        ensures
            s == ConfigMusicService::Youtube,
    {
        ConfigMusicService::Youtube
    }
}

/// The `music` section of the configuration.
#[derive(Clone, Copy, Debug)]
pub struct ConfigMusic {
    pub service: ConfigMusicService,
}

impl Default for ConfigMusic {
    fn default() -> (m: Self)
        ensures
            m.service == ConfigMusicService::Youtube,
    {
        ConfigMusic { service: ConfigMusicService::Youtube }
    }
}

/// The `colors` section of the configuration: CSS colour values.
#[derive(Debug)]
pub struct ConfigColors {
    pub bg: String,
    pub secondary_bg: String,
    pub text: String,
    pub secondary_text: String,
    pub accent: String,
}

impl Clone for ConfigColors {
    fn clone(&self) -> (c: Self)
        ensures
            c == *self,
    {
        ConfigColors {
            bg: self.bg.clone(),
            secondary_bg: self.secondary_bg.clone(),
            text: self.text.clone(),
            secondary_text: self.secondary_text.clone(),
            accent: self.accent.clone(),
        }
    }
}

impl Default for ConfigColors {
    fn default() -> (c: Self)
        ensures
            c.bg@.len() == 0,
            c.secondary_bg@.len() == 0,
            c.text@.len() == 0,
            c.secondary_text@.len() == 0,
            c.accent@.len() == 0,
    {
        ConfigColors {
            bg: String::new(),
            secondary_bg: String::new(),
            text: String::new(),
            secondary_text: String::new(),
            accent: String::new(),
        }
    }
}

/// The GTK style sheet that defines the launcher's colours, with both
/// background colours drawn at the given opacity.
pub open spec fn styles_spec(c: ConfigColors, opacity: Seq<char>) -> Seq<char> {
    "\n            @define-color bg-color alpha("@ + c.bg@ + ", "@ + opacity + ");"@
        + "\n            @define-color bg-secondary-color alpha("@ + c.secondary_bg@ + ", "@
        + opacity + ");"@ + "\n            @define-color text-secondary-color "@
        + c.secondary_text@ + ";"@ + "\n            @define-color text-color "@ + c.text@
        + ";"@ + "\n            @define-color accent-color "@ + c.accent@ + ";"@
        + "\n        "@
}

impl ConfigColors {
    /// The style sheet for these colours; `opacity` is the opacity as it is
    /// written in CSS.
    pub fn styles(&self, opacity: &str) -> (s: String)
        ensures
            s@ == styles_spec(*self, opacity@),
    {
        let mut s = String::from_str("\n            @define-color bg-color alpha(");
        s.append(self.bg.as_str());
        s.append(", ");
        s.append(opacity);
        s.append(");");
        s.append("\n            @define-color bg-secondary-color alpha(");
        s.append(self.secondary_bg.as_str());
        s.append(", ");
        s.append(opacity);
        s.append(");");
        s.append("\n            @define-color text-secondary-color ");
        s.append(self.secondary_text.as_str());
        s.append(";");
        s.append("\n            @define-color text-color ");
        s.append(self.text.as_str());
        s.append(";");
        s.append("\n            @define-color accent-color ");
        s.append(self.accent.as_str());
        s.append(";");
        s.append("\n        ");
        assert(s@ =~= styles_spec(*self, opacity@));
        s
    }
}

/// The file, under the user's data directory, that caches the playlists of
/// the configured service.
pub open spec fn temp_music_file_spec(config: Option<ConfigMusic>) -> Option<Seq<char>> {
    match config {
        None => None,
        Some(m) => Some(
            match m.service {
                ConfigMusicService::Youtube => DATA_MUSIC_YOUTUBE_TEMP_FILE@,
                ConfigMusicService::Spotify => DATA_MUSIC_SPOTIFY_TEMP_FILE@,
            },
        ),
    }
}

/// The playlist cache file of the configured service; none when the
/// configuration has no music section.
pub fn get_temp_music_file_path(config: Option<&ConfigMusic>) -> (p: Option<String>)
    ensures
        p is Some <==> config is Some,
        p is Some ==> Some(p->0@) == temp_music_file_spec(Some(*config->0)),
{
    match config {
        None => None,
        Some(m) => match m.service {
            ConfigMusicService::Youtube => Some(String::from_str(DATA_MUSIC_YOUTUBE_TEMP_FILE)),
            ConfigMusicService::Spotify => Some(String::from_str(DATA_MUSIC_SPOTIFY_TEMP_FILE)),
        },
    }
}

/// Why no configuration could be loaded.
#[derive(PartialEq, Eq, Structural, Clone, Copy, Debug)]
pub enum ConfigError {
    /// Neither the user's file nor the default file could be opened.
    Missing,
    /// The configuration could not be parsed.
    Bad,
}

impl ConfigError {
    /// The message shown to the user before the launcher exits.
    pub fn message(&self) -> (s: String)
        ensures
            s@ == match *self {
                ConfigError::Missing => ERROR_MISSING_CONFIG@,
                ConfigError::Bad => ERROR_BAD_CONFIG@,
            },
    {
        match self {
            ConfigError::Missing => String::from_str(ERROR_MISSING_CONFIG),
            ConfigError::Bad => String::from_str(ERROR_BAD_CONFIG),
        }
    }
}

/// What the caller has to do next while loading the configuration.
#[derive(PartialEq, Eq, Structural, Clone, Copy, Debug)]
pub enum ConfigLoadAction {
    /// Open the user's configuration file; report whether it opened.
    OpenUserFile,
    /// Open the default configuration file; report whether it opened.
    OpenDefaultFile,
    /// Parse the file that was opened last; report whether it parsed.
    ParseOpenedFile,
    /// Use the configuration that was parsed last.
    UseParsedConfig,
    /// Give up with this error.
    Fail(ConfigError),
}

/// Where loading the configuration stands.
#[derive(PartialEq, Eq, Structural, Clone, Copy, Debug)]
pub enum ConfigLoadStage {
    OpeningUser,
    OpeningDefault,
    ParsingUser,
    ParsingDefault,
    ReopeningDefault,
    ReparsingDefault,
    Finished,
}

/// The next stage and action after the outcome `ok` of the current stage's
/// action: the user's file is preferred; the default file is the fallback
/// when the user's file cannot be opened; a configuration that does not
/// parse ends the loading with an error (after the default file has been
/// checked when the user's file was the one that failed).
pub open spec fn config_load_next(stage: ConfigLoadStage, ok: bool) -> (
    ConfigLoadStage,
    ConfigLoadAction,
) {
    match stage {
        ConfigLoadStage::OpeningUser => if ok {
            (ConfigLoadStage::ParsingUser, ConfigLoadAction::ParseOpenedFile)
        } else {
            (ConfigLoadStage::OpeningDefault, ConfigLoadAction::OpenDefaultFile)
        },
        ConfigLoadStage::OpeningDefault => if ok {
            (ConfigLoadStage::ParsingDefault, ConfigLoadAction::ParseOpenedFile)
        } else {
            (ConfigLoadStage::Finished, ConfigLoadAction::Fail(ConfigError::Missing))
        },
        ConfigLoadStage::ParsingUser => if ok {
            (ConfigLoadStage::Finished, ConfigLoadAction::UseParsedConfig)
        } else {
            (ConfigLoadStage::ReopeningDefault, ConfigLoadAction::OpenDefaultFile)
        },
        ConfigLoadStage::ParsingDefault => if ok {
            (ConfigLoadStage::Finished, ConfigLoadAction::UseParsedConfig)
        } else {
            (ConfigLoadStage::Finished, ConfigLoadAction::Fail(ConfigError::Bad))
        },
        ConfigLoadStage::ReopeningDefault => if ok {
            (ConfigLoadStage::ReparsingDefault, ConfigLoadAction::ParseOpenedFile)
        } else {
            (ConfigLoadStage::Finished, ConfigLoadAction::Fail(ConfigError::Missing))
        },
        ConfigLoadStage::ReparsingDefault => (
            ConfigLoadStage::Finished,
            ConfigLoadAction::Fail(ConfigError::Bad),
        ),
        ConfigLoadStage::Finished => (
            ConfigLoadStage::Finished,
            ConfigLoadAction::Fail(ConfigError::Bad),
        ),
    }
}

/// How many more actions loading can ask for from a stage.
pub open spec fn config_load_rank(stage: ConfigLoadStage) -> nat {
    match stage {
        ConfigLoadStage::OpeningUser => 4,
        ConfigLoadStage::ParsingUser => 3,
        ConfigLoadStage::OpeningDefault => 2,
        ConfigLoadStage::ReopeningDefault => 2,
        ConfigLoadStage::ParsingDefault => 1,
        ConfigLoadStage::ReparsingDefault => 1,
        ConfigLoadStage::Finished => 0,
    }
}

/// Loads the configuration by asking its caller to open and parse files.
pub struct ConfigLoader {
    pub stage: ConfigLoadStage,
}

impl ConfigLoader {
    /// A loader and its first action: open the user's file.
    pub fn start() -> (r: (ConfigLoader, ConfigLoadAction))
        ensures
            r.0.stage == ConfigLoadStage::OpeningUser,
            r.1 == ConfigLoadAction::OpenUserFile,
    {
        (ConfigLoader { stage: ConfigLoadStage::OpeningUser }, ConfigLoadAction::OpenUserFile)
    }

    /// Whether loading has ended (with a configuration or an error).
    pub fn is_finished(&self) -> (b: bool)
        ensures
            b == (self.stage == ConfigLoadStage::Finished),
    {
        match self.stage {
            ConfigLoadStage::Finished => true,
            _ => false,
        }
    }

    /// Takes the outcome of the last action and gives the next one.
    pub fn step(&mut self, ok: bool) -> (a: ConfigLoadAction)
        requires
            old(self).stage != ConfigLoadStage::Finished,
        ensures
            (final(self).stage, a) == config_load_next(old(self).stage, ok),
    {
        let (stage, action) = match self.stage {
            ConfigLoadStage::OpeningUser => if ok {
                (ConfigLoadStage::ParsingUser, ConfigLoadAction::ParseOpenedFile)
            } else {
                (ConfigLoadStage::OpeningDefault, ConfigLoadAction::OpenDefaultFile)
            },
            ConfigLoadStage::OpeningDefault => if ok {
                (ConfigLoadStage::ParsingDefault, ConfigLoadAction::ParseOpenedFile)
            } else {
                (ConfigLoadStage::Finished, ConfigLoadAction::Fail(ConfigError::Missing))
            },
            ConfigLoadStage::ParsingUser => if ok {
                (ConfigLoadStage::Finished, ConfigLoadAction::UseParsedConfig)
            } else {
                (ConfigLoadStage::ReopeningDefault, ConfigLoadAction::OpenDefaultFile)
            },
            ConfigLoadStage::ParsingDefault => if ok {
                (ConfigLoadStage::Finished, ConfigLoadAction::UseParsedConfig)
            } else {
                (ConfigLoadStage::Finished, ConfigLoadAction::Fail(ConfigError::Bad))
            },
            ConfigLoadStage::ReopeningDefault => if ok {
                (ConfigLoadStage::ReparsingDefault, ConfigLoadAction::ParseOpenedFile)
            } else {
                (ConfigLoadStage::Finished, ConfigLoadAction::Fail(ConfigError::Missing))
            },
            ConfigLoadStage::ReparsingDefault => (
                ConfigLoadStage::Finished,
                ConfigLoadAction::Fail(ConfigError::Bad),
            ),
            ConfigLoadStage::Finished => (
                ConfigLoadStage::Finished,
                ConfigLoadAction::Fail(ConfigError::Bad),
            ),
        };
        self.stage = stage;
        action
    }
}

/// Loading always ends: every step lowers the number of actions left, and
/// the loader finishes exactly when it answers with a configuration or an
/// error.
pub proof fn lemma_config_load_terminates(stage: ConfigLoadStage, ok: bool)
    requires
        stage != ConfigLoadStage::Finished,
    ensures
        config_load_rank(config_load_next(stage, ok).0) < config_load_rank(stage),
        (config_load_next(stage, ok).0 == ConfigLoadStage::Finished) <==> (config_load_next(
            stage,
            ok,
        ).1 == ConfigLoadAction::UseParsedConfig || config_load_next(stage, ok).1 is Fail),
{
}

/// A configuration is used only right after the file opened last has
/// parsed, and a file that fails to parse is never used: after a parse
/// failure loading either checks the default file and then fails, or
/// fails at once.
pub proof fn lemma_config_used_only_when_parsed(stage: ConfigLoadStage, ok: bool)
    ensures
        config_load_next(stage, ok).1 == ConfigLoadAction::UseParsedConfig ==> ok && (stage
            == ConfigLoadStage::ParsingUser || stage == ConfigLoadStage::ParsingDefault),
        stage == ConfigLoadStage::ParsingUser && !ok ==> config_load_next(stage, ok).1
            == ConfigLoadAction::OpenDefaultFile,
        stage == ConfigLoadStage::ReparsingDefault ==> config_load_next(stage, ok).1
            == ConfigLoadAction::Fail(ConfigError::Bad),
{
}

/// The user's file, when it opens and parses, is the configuration used;
/// the default file is used only when the user's file cannot be opened.
pub proof fn lemma_user_config_preferred()
    ensures
        config_load_next(ConfigLoadStage::OpeningUser, true).1 == ConfigLoadAction::ParseOpenedFile,
        config_load_next(config_load_next(ConfigLoadStage::OpeningUser, true).0, true).1
            == ConfigLoadAction::UseParsedConfig,
        config_load_next(ConfigLoadStage::OpeningUser, false).1 == ConfigLoadAction::OpenDefaultFile,
{
}

} // verus!
