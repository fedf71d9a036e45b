use homehelper::events::Event;
use homehelper::eww::{eww_relevant, eww_update, EwwWorkspace};
use homehelper::hyprctl::{Monitor, MonitorWorkspace, Workspace};

fn workspace(id: i32, name: &str) -> Workspace {
    Workspace {
        id,
        name: name.to_string(),
        monitor: "DP-1".to_string(),
        monitor_id: 0,
        windows: 1,
        has_fullscreen: false,
        last_window: String::new(),
        last_window_title: String::new(),
        is_persistent: false,
    }
}

fn monitor(name: &str, active_id: i32, special: Option<(i32, &str)>) -> Monitor {
    Monitor {
        name: name.to_string(),
        active_workspace: MonitorWorkspace { id: active_id, name: active_id.to_string() },
        special_workspace: special.map(|(id, n)| MonitorWorkspace { id, name: n.to_string() }),
    }
}

#[test]
fn json_array_name_fills_all_parts() {
    let monitors = vec![monitor("DP-1", 1, None)];
    let w = EwwWorkspace::new(&monitors, workspace(1, "[\"1\",\"i\",\"web\"]"));
    assert_eq!(w.index.as_deref(), Some("1"));
    assert_eq!(w.icon.as_deref(), Some("i"));
    assert_eq!(w.name.as_deref(), Some("web"));
    assert!(!w.is_special);
    assert_eq!(w.id, 1);
    assert_eq!(w.special_name, "[\"1\",\"i\",\"web\"]");
    assert_eq!(w.active_on.as_deref(), Some("DP-1"));
}

#[test]
fn json_array_empty_parts_become_absent() {
    let monitors: Vec<Monitor> = vec![];
    let w = EwwWorkspace::new(&monitors, workspace(2, "[\"\",\"\",\"\"]"));
    assert_eq!(w.index, None);
    assert_eq!(w.icon, None);
    assert_eq!(w.name, None);
    assert_eq!(w.active_on, None);
}

#[test]
fn json_hash_index_uses_workspace_id() {
    let monitors: Vec<Monitor> = vec![];
    let w = EwwWorkspace::new(&monitors, workspace(7, "[\"#\",\"i\",\"n\"]"));
    assert_eq!(w.index.as_deref(), Some("7"));
}

#[test]
fn plain_name_becomes_index() {
    let monitors: Vec<Monitor> = vec![];
    let w = EwwWorkspace::new(&monitors, workspace(3, "web"));
    assert_eq!(w.index.as_deref(), Some("web"));
    assert_eq!(w.icon, None);
    assert_eq!(w.name, None);
    assert_eq!(w.special_name, "web");
}

#[test]
fn special_workspace_icon_and_toggle_name() {
    let monitors: Vec<Monitor> = vec![];
    let w = EwwWorkspace::new(&monitors, workspace(-98, "special:term"));
    assert!(w.is_special);
    assert_eq!(w.index, None);
    assert_eq!(w.name, None);
    assert_eq!(w.icon.as_deref(), Some("\u{f120}"));
    assert_eq!(w.special_name, "term");
}

#[test]
fn unknown_special_icon_falls_back_to_name() {
    let monitors: Vec<Monitor> = vec![];
    let w = EwwWorkspace::new(&monitors, workspace(-97, "special:scratch"));
    assert_eq!(w.icon.as_deref(), Some("special:scratch"));
    assert_eq!(w.special_name, "scratch");
}

#[test]
fn special_without_colon_keeps_whole_name() {
    let monitors: Vec<Monitor> = vec![];
    let w = EwwWorkspace::new(&monitors, workspace(-96, "oddball"));
    assert_eq!(w.special_name, "oddball");
    assert_eq!(w.icon.as_deref(), Some("oddball"));
}

#[test]
fn active_on_prefers_first_matching_monitor() {
    let monitors = vec![
        monitor("DP-1", 4, None),
        monitor("DP-2", 1, Some((-98, "special:term"))),
        monitor("DP-3", 1, None),
    ];
    let w = EwwWorkspace::new(&monitors, workspace(1, "one"));
    assert_eq!(w.active_on.as_deref(), Some("DP-2"));
}

#[test]
fn active_on_matches_special_workspaces_too() {
    let monitors = vec![
        monitor("DP-1", 4, None),
        monitor("DP-2", 1, Some((-98, "special:term"))),
    ];
    let w = EwwWorkspace::new(&monitors, workspace(-98, "special:term"));
    assert_eq!(w.active_on.as_deref(), Some("DP-2"));
}

#[test]
fn update_covers_every_workspace_in_order() {
    let monitors = vec![monitor("DP-1", 2, None)];
    let update = eww_update(
        &monitors,
        vec![workspace(1, "one"), workspace(2, "two"), workspace(-98, "special:term")],
    );
    assert_eq!(update.len(), 3);
    assert_eq!(update[0].id, 1);
    assert_eq!(update[1].id, 2);
    assert_eq!(update[1].active_on.as_deref(), Some("DP-1"));
    assert_eq!(update[2].id, -98);
    assert!(update[2].is_special);
}

#[test]
fn relevant_events_for_the_widget() {
    assert!(eww_relevant(&Event::Workspace { name: "1".to_string() }));
    assert!(eww_relevant(&Event::FocusedMon {
        workspace_name: "1".to_string(),
        monitor_name: "DP-1".to_string(),
    }));
    assert!(eww_relevant(&Event::CreateWorkspace { name: "x".to_string() }));
    assert!(eww_relevant(&Event::DestroyWorkspace { name: "x".to_string() }));
    assert!(eww_relevant(&Event::RenameWorkspace { id: 1, new_name: "y".to_string() }));
    assert!(eww_relevant(&Event::ActiveSpecial {
        workspace_name: None,
        monitor_name: "DP-1".to_string(),
    }));
    assert!(!eww_relevant(&Event::ConfigReloaded));
    assert!(!eww_relevant(&Event::CloseWindow { window_address: 1 }));
    assert!(!eww_relevant(&Event::WorkspaceV2 { id: 1, name: "1".to_string() }));
}
