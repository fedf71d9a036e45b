use homehelper::hyprctl::{Bind, BindTrigger};
use homehelper::submap::{bind_panel_command, binds_in_submap, kitty_panel_args};

fn bind(key: &str, submap: Option<&str>, description: Option<&str>) -> Bind {
    Bind {
        locked: false,
        repeat: false,
        non_consuming: false,
        trigger: BindTrigger::Press,
        modmask: 0,
        submap: submap.map(str::to_string),
        key: key.to_string(),
        keycode: 0,
        description: description.map(str::to_string),
        action: ("exec".to_string(), String::new()),
    }
}

#[test]
fn binds_filtered_by_submap_and_description() {
    let all = vec![
        bind("a", Some("resize"), Some("grow")),
        bind("b", Some("other"), Some("nope")),
        bind("c", Some("resize"), None),
        bind("d", None, Some("global")),
        bind("e", Some("resize"), Some("shrink")),
    ];
    let shown = binds_in_submap(all, "resize");
    let keys: Vec<&str> = shown.iter().map(|b| b.key.as_str()).collect();
    assert_eq!(keys, vec!["a", "e"]);
}

#[test]
fn binds_filter_can_be_empty() {
    let all = vec![bind("a", Some("resize"), Some("grow"))];
    let shown = binds_in_submap(all, "launch");
    assert!(shown.is_empty());
}

#[test]
fn panel_command_aligns_descriptions() {
    let shown = vec![bind("a", Some("resize"), Some("x")), bind("bb", Some("resize"), Some("yy"))];
    let (cmd, lines, columns) = bind_panel_command(&shown);
    assert_eq!(cmd, "printf '\u{1b}[?25la  x\nbb yy'; sleep infinity");
    assert_eq!(lines, 2);
    assert_eq!(columns, 5);
}

#[test]
fn panel_command_single_bind() {
    let shown = vec![bind("q", Some("resize"), Some("quit"))];
    let (cmd, lines, columns) = bind_panel_command(&shown);
    assert_eq!(cmd, "printf '\u{1b}[?25lq quit'; sleep infinity");
    assert_eq!(lines, 1);
    assert_eq!(columns, 6);
}

#[test]
fn panel_args_are_sized_to_the_table() {
    let args = kitty_panel_args(2, 5, "sh-cmd".to_string());
    let expected: Vec<String> = [
        "+kitten",
        "panel",
        "--edge",
        "center-sized",
        "--layer",
        "top",
        "--lines",
        "2",
        "--columns",
        "5",
        "--app-id",
        "homehelper-submap",
        "sh",
        "-c",
        "sh-cmd",
    ]
        .iter()
        .map(|s| s.to_string())
        .collect();
    assert_eq!(args, expected);
}
