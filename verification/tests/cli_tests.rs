use crab_launcher::cli::{parse_command, unknown_parameter_message, LauncherCommand};

#[test]
fn documented_options() {
    assert_eq!(parse_command(Some("--generate-config")), LauncherCommand::GenerateConfig);
    assert_eq!(parse_command(Some("--refresh-config")), LauncherCommand::RefreshConfig);
    assert_eq!(parse_command(Some("--fetch")), LauncherCommand::Fetch);
    assert_eq!(parse_command(Some("--show")), LauncherCommand::Show);
    assert_eq!(parse_command(Some("--run")), LauncherCommand::Run);
    assert_eq!(parse_command(Some("--daemon")), LauncherCommand::Daemon);
    assert_eq!(parse_command(Some("--help")), LauncherCommand::Help);
}

#[test]
fn other_arguments() {
    assert_eq!(parse_command(None), LauncherCommand::Usage);
    assert_eq!(parse_command(Some("--shows")), LauncherCommand::Unknown);
    assert_eq!(parse_command(Some("")), LauncherCommand::Unknown);
    assert_eq!(unknown_parameter_message("--x"), "Uknown parameter: --x");
}
