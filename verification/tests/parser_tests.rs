use homehelper::events::{Event, ScreenCastOwner};
use homehelper::numbers::ParseError;
use homehelper::parser::parse_event;

#[test]
fn parse_workspace_line() {
    match parse_event("workspace>>3") {
        Ok(Event::Workspace { name }) => assert_eq!(name, "3"),
        other => panic!("unexpected: {:?}", other),
    }
}

#[test]
fn parse_active_window_v2_empty_address() {
    match parse_event("activewindowv2>>") {
        Ok(Event::ActiveWindowV2 { window_address }) => assert_eq!(window_address, None),
        other => panic!("unexpected: {:?}", other),
    }
}

#[test]
fn parse_unknown_event_is_custom() {
    match parse_event("totallynewfeature>>a,b,c") {
        Ok(Event::Custom { name, params }) => {
            assert_eq!(name, "totallynewfeature");
            assert_eq!(params, vec!["a".to_string(), "b".to_string(), "c".to_string()]);
        },
        other => panic!("unexpected: {:?}", other),
    }
}

#[test]
fn parse_unknown_event_empty_params() {
    match parse_event("zz>>") {
        Ok(Event::Custom { name, params }) => {
            assert_eq!(name, "zz");
            assert_eq!(params, vec![String::new()]);
        },
        other => panic!("unexpected: {:?}", other),
    }
}

#[test]
fn parse_workspace_v2_fields() {
    match parse_event("workspacev2>>5,web") {
        Ok(Event::WorkspaceV2 { id, name }) => {
            assert_eq!(id, 5);
            assert_eq!(name, "web");
        },
        other => panic!("unexpected: {:?}", other),
    }
}

#[test]
fn parse_last_field_absorbs_commas() {
    match parse_event("workspacev2>>5,a,b") {
        Ok(Event::WorkspaceV2 { id, name }) => {
            assert_eq!(id, 5);
            assert_eq!(name, "a,b");
        },
        other => panic!("unexpected: {:?}", other),
    }
}

#[test]
fn parse_focusedmon_field_order() {
    match parse_event("focusedmon>>DP-1,3") {
        Ok(Event::FocusedMon { workspace_name, monitor_name }) => {
            assert_eq!(monitor_name, "DP-1");
            assert_eq!(workspace_name, "3");
        },
        other => panic!("unexpected: {:?}", other),
    }
}

#[test]
fn parse_open_window_hex_address() {
    match parse_event("openwindow>>deadBEEF,3,kitty,Terminal: vim") {
        Ok(Event::OpenWindow { window_address, workspace_name, window_class, window_title }) => {
            assert_eq!(window_address, 0xdead_beef);
            assert_eq!(workspace_name, "3");
            assert_eq!(window_class, "kitty");
            assert_eq!(window_title, "Terminal: vim");
        },
        other => panic!("unexpected: {:?}", other),
    }
}

#[test]
fn parse_fullscreen_bool_flag() {
    match parse_event("fullscreen>>1") {
        Ok(Event::Fullscreen { active }) => assert!(active),
        other => panic!("unexpected: {:?}", other),
    }
    match parse_event("fullscreen>>0") {
        Ok(Event::Fullscreen { active }) => assert!(!active),
        other => panic!("unexpected: {:?}", other),
    }
}

#[test]
fn parse_screencast_owner() {
    match parse_event("screencast>>1,1") {
        Ok(Event::ScreenCast { active, owner }) => {
            assert!(active);
            assert_eq!(owner, ScreenCastOwner::Window);
        },
        other => panic!("unexpected: {:?}", other),
    }
    match parse_event("screencast>>0,0") {
        Ok(Event::ScreenCast { active, owner }) => {
            assert!(!active);
            assert_eq!(owner, ScreenCastOwner::Monitor);
        },
        other => panic!("unexpected: {:?}", other),
    }
}

#[test]
fn parse_submap_optional_name() {
    match parse_event("submap>>resize") {
        Ok(Event::Submap { name }) => assert_eq!(name.as_deref(), Some("resize")),
        other => panic!("unexpected: {:?}", other),
    }
    match parse_event("submap>>") {
        Ok(Event::Submap { name }) => assert_eq!(name, None),
        other => panic!("unexpected: {:?}", other),
    }
}

#[test]
fn parse_active_window_optional() {
    match parse_event("activewindow>>,ignored") {
        Ok(Event::ActiveWindow { window }) => assert!(window.is_none()),
        other => panic!("unexpected: {:?}", other),
    }
    match parse_event("activewindow>>kitty,Terminal") {
        Ok(Event::ActiveWindow { window }) => {
            let w = window.expect("window");
            assert_eq!(w.class, "kitty");
            assert_eq!(w.title, "Terminal");
        },
        other => panic!("unexpected: {:?}", other),
    }
}

#[test]
fn parse_active_special_optional_name() {
    match parse_event("activespecial>>,DP-1") {
        Ok(Event::ActiveSpecial { workspace_name, monitor_name }) => {
            assert_eq!(workspace_name, None);
            assert_eq!(monitor_name, "DP-1");
        },
        other => panic!("unexpected: {:?}", other),
    }
    match parse_event("activespecialv2>>,anything,DP-2") {
        Ok(Event::ActiveSpecialV2 { workspace, monitor_name }) => {
            assert!(workspace.is_none());
            assert_eq!(monitor_name, "DP-2");
        },
        other => panic!("unexpected: {:?}", other),
    }
    match parse_event("activespecialv2>>-99,special:x,DP-2") {
        Ok(Event::ActiveSpecialV2 { workspace, monitor_name }) => {
            let w = workspace.expect("workspace");
            assert_eq!(w.id, -99);
            assert_eq!(w.name, "special:x");
            assert_eq!(monitor_name, "DP-2");
        },
        other => panic!("unexpected: {:?}", other),
    }
}

#[test]
fn parse_togglegroup_address_list() {
    match parse_event("togglegroup>>1,aa,2b") {
        Ok(Event::ToggleGroup { exists, window_addresses }) => {
            assert!(exists);
            assert_eq!(window_addresses, vec![0xaa, 0x2b]);
        },
        other => panic!("unexpected: {:?}", other),
    }
}

#[test]
fn parse_togglegroup_bad_address_fails() {
    assert!(matches!(parse_event("togglegroup>>1,aa,zz"), Err(ParseError::InvalidInt)));
    assert!(matches!(parse_event("togglegroup>>1,"), Err(ParseError::InvalidInt)));
}

#[test]
fn parse_missing_separator_fails() {
    assert!(matches!(parse_event("no separator here"), Err(ParseError::MissingSeparator)));
    assert!(matches!(parse_event(""), Err(ParseError::MissingSeparator)));
    assert!(matches!(parse_event("half>"), Err(ParseError::MissingSeparator)));
}

#[test]
fn parse_not_enough_params_fails() {
    assert!(matches!(parse_event("workspacev2>>5"), Err(ParseError::NotEnoughParams)));
    assert!(matches!(parse_event("monitoraddedv2>>1,DP-1"), Err(ParseError::NotEnoughParams)));
    assert!(matches!(parse_event("openwindow>>aa,3,kitty"), Err(ParseError::NotEnoughParams)));
    assert!(matches!(parse_event("pin>>aa"), Err(ParseError::NotEnoughParams)));
}

#[test]
fn parse_invalid_int_fails() {
    assert!(matches!(parse_event("workspacev2>>x,web"), Err(ParseError::InvalidInt)));
    assert!(matches!(parse_event("closewindow>>xyz"), Err(ParseError::InvalidInt)));
    assert!(matches!(parse_event("closewindow>>"), Err(ParseError::InvalidInt)));
    assert!(matches!(parse_event("workspacev2>>2147483648,web"), Err(ParseError::InvalidInt)));
}

#[test]
fn parse_negative_workspace_id() {
    match parse_event("workspacev2>>-98,special:term") {
        Ok(Event::WorkspaceV2 { id, name }) => {
            assert_eq!(id, -98);
            assert_eq!(name, "special:term");
        },
        other => panic!("unexpected: {:?}", other),
    }
}

#[test]
fn parse_movewindowv2_mixed_fields() {
    match parse_event("movewindowv2>>1f,7,web") {
        Ok(Event::MoveWindowV2 { window_address, workspace_id, workspace_name }) => {
            assert_eq!(window_address, 0x1f);
            assert_eq!(workspace_id, 7);
            assert_eq!(workspace_name, "web");
        },
        other => panic!("unexpected: {:?}", other),
    }
}

#[test]
fn parse_configreloaded_ignores_params() {
    match parse_event("configreloaded>>") {
        Ok(Event::ConfigReloaded) => {},
        other => panic!("unexpected: {:?}", other),
    }
}

#[test]
fn one_bad_line_does_not_stop_the_next() {
    assert!(parse_event("workspacev2>>bad").is_err());
    assert!(parse_event("workspace>>3").is_ok());
}
