use homehelper::commands::{Command, DaemonAction, ListenEww, Monitors, RemoteAction, Response,
    Workspaces};

#[test]
fn daemon_dispatch_is_exhaustive_and_distinct() {
    assert_eq!(Command::Workspaces.dispatch_daemon(), DaemonAction::ReplyWorkspaces);
    assert_eq!(Command::Monitors.dispatch_daemon(), DaemonAction::ReplyMonitors);
    assert_eq!(Command::ListenEww.dispatch_daemon(), DaemonAction::AttachEwwListener);
}

#[test]
fn remote_dispatch_is_exhaustive_and_distinct() {
    assert_eq!(Command::Workspaces.dispatch_remote(), RemoteAction::PrintWorkspaces);
    assert_eq!(Command::Monitors.dispatch_remote(), RemoteAction::PrintMonitors);
    assert_eq!(Command::ListenEww.dispatch_remote(), RemoteAction::FollowEwwStream);
}

#[test]
fn workspaces_command_is_single_reply() {
    let c = Workspaces::command();
    assert_eq!(c, Command::Workspaces);
    assert_eq!(c.dispatch_daemon(), DaemonAction::ReplyWorkspaces);
    assert_eq!(c.dispatch_remote(), RemoteAction::PrintWorkspaces);
}

#[test]
fn marker_commands_match_variants() {
    assert_eq!(Monitors::command(), Command::Monitors);
    assert_eq!(ListenEww::command(), Command::ListenEww);
}

#[test]
fn wire_names_round_trip() {
    for c in [Command::Workspaces, Command::Monitors, Command::ListenEww] {
        let name = c.wire_name();
        assert_eq!(Command::from_wire_name(name), Some(c));
    }
}

#[test]
fn wire_names_are_the_variant_identifiers() {
    assert_eq!(Command::Workspaces.wire_name(), "Workspaces");
    assert_eq!(Command::Monitors.wire_name(), "Monitors");
    assert_eq!(Command::ListenEww.wire_name(), "ListenEww");
}

#[test]
fn unknown_wire_name_is_rejected() {
    assert_eq!(Command::from_wire_name("Reload"), None);
    assert_eq!(Command::from_wire_name(""), None);
    assert_eq!(Command::from_wire_name("workspaces"), None);
}

#[test]
fn failed_handler_reply_is_the_error_variant() {
    match Response::from_failure("no compositor".to_string()) {
        Response::Error(m) => assert_eq!(m, "no compositor"),
        other => panic!("unexpected: {}", other.wire_name()),
    }
}

#[test]
fn response_wire_names_are_the_variant_identifiers() {
    assert_eq!(Response::Workspaces(Vec::new()).wire_name(), "Workspaces");
    assert_eq!(Response::Monitors(Vec::new()).wire_name(), "Monitors");
    assert_eq!(Response::EwwUpdate(Vec::new()).wire_name(), "EwwUpdate");
    assert_eq!(Response::Error(String::new()).wire_name(), "Error");
}
