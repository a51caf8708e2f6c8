use crab_launcher::config::{
    get_temp_music_file_path, ConfigColors, ConfigError, ConfigLoadAction, ConfigLoader, ConfigMusic,
    ConfigMusicService,
};

fn colors() -> ConfigColors {
    ConfigColors {
        bg: "#1E2128".to_string(),
        secondary_bg: "#32363D".to_string(),
        text: "#FFFFFF".to_string(),
        secondary_text: "#989A9E".to_string(),
        accent: "#62AEEF".to_string(),
    }
}

#[test]
fn styles_fill_in_colours_and_opacity() {
    let c = colors();
    let expected = format!(
        "
            @define-color bg-color alpha({}, {});
            @define-color bg-secondary-color alpha({}, {});
            @define-color text-secondary-color {};
            @define-color text-color {};
            @define-color accent-color {};
        ",
        c.bg, 0.9f32, c.secondary_bg, 0.9f32, c.secondary_text, c.text, c.accent
    );
    assert_eq!(c.styles(&0.9f32.to_string()), expected);
    assert!(c.styles("1").contains("@define-color bg-color alpha(#1E2128, 1);"));
}

#[test]
fn default_music_service_is_youtube() {
    assert_eq!(ConfigMusicService::default(), ConfigMusicService::Youtube);
    assert_eq!(ConfigMusic::default().service, ConfigMusicService::Youtube);
}

#[test]
fn temp_music_file_follows_service() {
    assert_eq!(get_temp_music_file_path(None), None);
    let yt = ConfigMusic { service: ConfigMusicService::Youtube };
    let sp = ConfigMusic { service: ConfigMusicService::Spotify };
    assert_eq!(get_temp_music_file_path(Some(&yt)), Some("/crab/youtube_playlists.json".to_string()));
    assert_eq!(get_temp_music_file_path(Some(&sp)), Some("/crab/spotify_playlists.json".to_string()));
}

fn run(outcomes: &[bool]) -> Vec<ConfigLoadAction> {
    let (mut loader, first) = ConfigLoader::start();
    let mut actions = vec![first];
    for ok in outcomes {
        if loader.is_finished() {
            break;
        }
        actions.push(loader.step(*ok));
    }
    actions
}

#[test]
fn user_config_is_used_when_it_parses() {
    assert_eq!(
        run(&[true, true]),
        vec![ConfigLoadAction::OpenUserFile, ConfigLoadAction::ParseOpenedFile, ConfigLoadAction::UseParsedConfig]
    );
}

#[test]
fn default_config_is_the_fallback() {
    assert_eq!(
        run(&[false, true, true]),
        vec![
            ConfigLoadAction::OpenUserFile,
            ConfigLoadAction::OpenDefaultFile,
            ConfigLoadAction::ParseOpenedFile,
            ConfigLoadAction::UseParsedConfig
        ]
    );
    assert_eq!(
        run(&[false, true, false]).last(),
        Some(&ConfigLoadAction::Fail(ConfigError::Bad))
    );
}

#[test]
fn missing_files_fail_with_missing_config() {
    assert_eq!(run(&[false, false]).last(), Some(&ConfigLoadAction::Fail(ConfigError::Missing)));
    assert_eq!(run(&[true, false, false]).last(), Some(&ConfigLoadAction::Fail(ConfigError::Missing)));
}

#[test]
fn broken_user_config_fails_even_with_good_default() {
    assert_eq!(run(&[true, false, true, true]).last(), Some(&ConfigLoadAction::Fail(ConfigError::Bad)));
    assert_eq!(run(&[true, false, true, false]).last(), Some(&ConfigLoadAction::Fail(ConfigError::Bad)));
}

#[test]
fn config_errors_have_messages() {
    assert!(ConfigError::Missing.message().starts_with("Could not find configuration file"));
    assert!(ConfigError::Bad.message().starts_with("Could not read configuration file"));
}
