use crab_launcher::daemon::{CrabDaemonClient, CrabDaemonMethod, CrabDaemonServer};

#[test]
fn method_names_round_trip() {
    for m in [CrabDaemonMethod::ShowWindow, CrabDaemonMethod::RefreshConfig] {
        assert_eq!(CrabDaemonMethod::from_str(m.to_string().as_str()), Ok(m));
    }
    assert_eq!(CrabDaemonMethod::ShowWindow.to_string(), "ShowWindow");
    assert_eq!(CrabDaemonMethod::RefreshConfig.to_string(), "RefreshConfig");
}

#[test]
fn unknown_method_is_rejected() {
    assert_eq!(CrabDaemonMethod::from_str("HideWindow"), Err(()));
    assert_eq!(CrabDaemonMethod::from_str(""), Err(()));
    assert_eq!(CrabDaemonMethod::from_str("showwindow"), Err(()));
}

#[test]
fn server_maps_calls_to_events() {
    let server = CrabDaemonServer::new();
    assert_eq!(server.method_event("ShowWindow"), Some(CrabDaemonMethod::ShowWindow));
    assert_eq!(server.method_event("RefreshConfig"), Some(CrabDaemonMethod::RefreshConfig));
    assert_eq!(server.method_event("Quit"), None);
}

#[test]
fn introspection_declares_both_methods() {
    let server = CrabDaemonServer::new();
    assert_eq!(
        server.introspection_xml(),
        "<node><interface name='wm.crab.GDBus.LauncherInterface'><method name='ShowWindow'/><method name='RefreshConfig'/></interface></node>"
    );
}

#[test]
fn client_sends_member_names() {
    let client = CrabDaemonClient::new();
    assert_eq!(client.member_name(CrabDaemonMethod::ShowWindow), "ShowWindow");
    assert_eq!(client.member_name(CrabDaemonMethod::RefreshConfig), "RefreshConfig");
}
