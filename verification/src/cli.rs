//! The launcher's command line: one option chooses what it does.
use vstd::prelude::*;

use crate::text::str_equal;

verus! {

/// What the launcher was asked to do.
#[derive(PartialEq, Eq, Structural, Clone, Copy, Debug)]
pub enum LauncherCommand {
    /// `--generate-config`: write the default configuration file.
    GenerateConfig,
    /// `--refresh-config`: ask the daemon to reload the configuration.
    RefreshConfig,
    /// `--fetch`: fetch the playlists of the configured service.
    Fetch,
    /// `--show`: ask the daemon to show the window.
    Show,
    /// `--run`: run the launcher without the daemon.
    Run,
    /// `--daemon`: run the daemon.
    Daemon,
    /// `--help`: show the usage.
    Help,
    /// An option the launcher does not know: show the usage and an error.
    Unknown,
    /// No option: show the usage.
    Usage,
}

/// The command chosen by the first argument, if there is one.
pub open spec fn command_spec(arg: Option<Seq<char>>) -> LauncherCommand {
    match arg {
        None => LauncherCommand::Usage,
        Some(a) => if a == "--generate-config"@ {
            LauncherCommand::GenerateConfig
        } else if a == "--refresh-config"@ {
            LauncherCommand::RefreshConfig
        } else if a == "--fetch"@ {
            LauncherCommand::Fetch
        } else if a == "--show"@ {
            LauncherCommand::Show
        } else if a == "--run"@ {
            LauncherCommand::Run
        } else if a == "--daemon"@ {
            LauncherCommand::Daemon
        } else if a == "--help"@ {
            LauncherCommand::Help
        } else {
            LauncherCommand::Unknown
        },
    }
}

/// The command chosen by the first argument.
pub fn parse_command(arg: Option<&str>) -> (c: LauncherCommand)
    ensures
        c == command_spec(
            match arg {
                Some(a) => Some(a@),
                None => None,
            },
        ),
{
    match arg {
        None => LauncherCommand::Usage,
        Some(a) => if str_equal(a, "--generate-config") {
            LauncherCommand::GenerateConfig
        } else if str_equal(a, "--refresh-config") {
            LauncherCommand::RefreshConfig
        } else if str_equal(a, "--fetch") {
            LauncherCommand::Fetch
        } else if str_equal(a, "--show") {
            LauncherCommand::Show
        } else if str_equal(a, "--run") {
            LauncherCommand::Run
        } else if str_equal(a, "--daemon") {
            LauncherCommand::Daemon
        } else if str_equal(a, "--help") {
            LauncherCommand::Help
        } else {
            LauncherCommand::Unknown
        },
    }
}

/// The error shown for an option the launcher does not know.
pub fn unknown_parameter_message(param: &str) -> (m: String)
    ensures
        m@ == "Uknown parameter: "@ + param@,
{
    String::from_str("Uknown parameter: ").concat(param)
}

/// Every option that the usage documents selects its own command, and
/// only a missing argument shows the bare usage.
pub proof fn lemma_documented_options()
    ensures
        command_spec(Some("--generate-config"@)) == LauncherCommand::GenerateConfig,
        command_spec(Some("--refresh-config"@)) == LauncherCommand::RefreshConfig,
        command_spec(Some("--fetch"@)) == LauncherCommand::Fetch,
        command_spec(Some("--show"@)) == LauncherCommand::Show,
        command_spec(Some("--run"@)) == LauncherCommand::Run,
        command_spec(Some("--daemon"@)) == LauncherCommand::Daemon,
        command_spec(Some("--help"@)) == LauncherCommand::Help,
        forall|a: Seq<char>| command_spec(Some(a)) != LauncherCommand::Usage,
{
    reveal_strlit("--generate-config");
    reveal_strlit("--refresh-config");
    reveal_strlit("--fetch");
    reveal_strlit("--show");
    reveal_strlit("--run");
    reveal_strlit("--daemon");
    reveal_strlit("--help");
    assert("--generate-config"@.len() == 17);
    assert("--refresh-config"@.len() == 16);
    assert("--fetch"@.len() == 7);
    assert("--show"@.len() == 6);
    assert("--run"@.len() == 5);
    assert("--daemon"@.len() == 8);
    assert("--help"@.len() == 6);
    assert("--show"@[2] != "--help"@[2]);
}

} // verus!
