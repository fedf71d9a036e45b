use homehelper::daemon::socket_path;
use homehelper::hyprctl::{command_socket_path, event_socket_path, expect_ok, notify, reload,
    Bind, BindInternal, BindTrigger, Color, Monitor, MonitorWorkspace, NotifyIcon, Transform};

#[test]
fn expect_ok_accepts_ok() {
    assert!(expect_ok("ok").is_ok());
}

#[test]
fn expect_ok_reports_other_replies() {
    match expect_ok("nope") {
        Err(m) => assert_eq!(m, "Command returned: nope"),
        Ok(()) => panic!("accepted a bad reply"),
    }
    match expect_ok("") {
        Err(m) => assert_eq!(m, "Command returned: "),
        Ok(()) => panic!("accepted a bad reply"),
    }
}

#[test]
fn reload_request_text() {
    assert_eq!(reload(), "/reload");
}

#[test]
fn notify_request_text() {
    let cmd = notify(
        NotifyIcon::Error,
        5000,
        Color::Rgb(255, 0, 0),
        "HomeHelper Error: it broke",
    );
    assert_eq!(cmd, "/notify 3 5000 rgb(255,0,0) HomeHelper Error: it broke");
}

#[test]
fn notify_no_icon_uses_negative_code() {
    let cmd = notify(NotifyIcon::NoIcon, 0, Color::Rgba(1, 2, 3, 4), "hi");
    assert_eq!(cmd, "/notify -1 0 rgba(1,2,3,4) hi");
}

#[test]
fn icon_codes_match_the_protocol() {
    assert_eq!(NotifyIcon::NoIcon.code(), -1);
    assert_eq!(NotifyIcon::Warning.code(), 0);
    assert_eq!(NotifyIcon::Info.code(), 1);
    assert_eq!(NotifyIcon::Hint.code(), 2);
    assert_eq!(NotifyIcon::Error.code(), 3);
    assert_eq!(NotifyIcon::Confused.code(), 4);
    assert_eq!(NotifyIcon::Okay.code(), 5);
}

#[test]
fn color_text_forms() {
    assert_eq!(Color::Rgb(255, 0, 0).text(), "rgb(255,0,0)");
    assert_eq!(Color::Rgba(10, 20, 30, 40).text(), "rgba(10,20,30,40)");
}

#[test]
fn transform_codes_match_the_protocol() {
    let all = [
        Transform::Normal,
        Transform::Rotate90,
        Transform::Rotate180,
        Transform::Rotate270,
        Transform::Flip,
        Transform::FlipRotate90,
        Transform::FlipRotate180,
        Transform::FlipRotate270,
    ];
    for (i, t) in all.iter().enumerate() {
        assert_eq!(t.code() as usize, i);
    }
}

#[test]
fn socket_paths_are_joined() {
    assert_eq!(socket_path("/run/user/1000"), "/run/user/1000/homehelper.sock");
    assert_eq!(
        command_socket_path("/run/user/1000", "SIG"),
        "/run/user/1000/hypr/SIG/.socket.sock"
    );
    assert_eq!(
        event_socket_path("/run/user/1000", "SIG"),
        "/run/user/1000/hypr/SIG/.socket2.sock"
    );
}

#[test]
fn monitor_from_query_drops_empty_special() {
    let m = Monitor::from_query(
        "DP-1".to_string(),
        MonitorWorkspace { id: 3, name: "3".to_string() },
        MonitorWorkspace { id: 0, name: String::new() },
    );
    assert_eq!(m.name, "DP-1");
    assert_eq!(m.active_workspace.id, 3);
    assert!(m.special_workspace.is_none());
}

#[test]
fn monitor_from_query_keeps_named_special() {
    let m = Monitor::from_query(
        "DP-2".to_string(),
        MonitorWorkspace { id: 1, name: "1".to_string() },
        MonitorWorkspace { id: -98, name: "special:term".to_string() },
    );
    let s = m.special_workspace.expect("special workspace");
    assert_eq!(s.id, -98);
    assert_eq!(s.name, "special:term");
}

fn raw_bind() -> BindInternal {
    BindInternal {
        locked: false,
        mouse: false,
        release: false,
        repeat: true,
        long_press: false,
        non_consuming: false,
        has_description: true,
        modmask: 64,
        submap: String::new(),
        key: "q".to_string(),
        keycode: 0,
        catch_all: false,
        description: "quit".to_string(),
        dispatcher: "killactive".to_string(),
        arg: String::new(),
    }
}

#[test]
fn bind_from_raw_press_defaults() {
    let b = Bind::from(raw_bind());
    assert_eq!(b.trigger, BindTrigger::Press);
    assert_eq!(b.submap, None);
    assert_eq!(b.description.as_deref(), Some("quit"));
    assert_eq!(b.action, ("killactive".to_string(), String::new()));
    assert!(b.repeat);
    assert_eq!(b.modmask, 64);
}

#[test]
fn bind_trigger_precedence() {
    let mut v = raw_bind();
    v.release = true;
    assert_eq!(Bind::from(v).trigger, BindTrigger::Release);
    let mut v = raw_bind();
    v.release = true;
    v.long_press = true;
    assert_eq!(Bind::from(v).trigger, BindTrigger::LongPress);
    let mut v = raw_bind();
    v.long_press = true;
    v.catch_all = true;
    assert_eq!(Bind::from(v).trigger, BindTrigger::CatchAll);
    let mut v = raw_bind();
    v.catch_all = true;
    v.mouse = true;
    assert_eq!(Bind::from(v).trigger, BindTrigger::Mouse);
}

#[test]
fn bind_from_raw_keeps_submap_and_hides_unset_description() {
    let mut v = raw_bind();
    v.submap = "resize".to_string();
    v.has_description = false;
    let b = Bind::from(v);
    assert_eq!(b.submap.as_deref(), Some("resize"));
    assert_eq!(b.description, None);
}
