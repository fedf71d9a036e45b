use vstd::prelude::*;
use crate::events::{
    ActiveSpecial, ActiveSpecialV, ActiveWindow, ActiveWindowV, Event, EventV, ScreenCastOwner,
};
use crate::numbers::{dec_i32, hex_u64, parse_hex_u64, parse_i32, ParseError};
use crate::strutil::{
    find_sep_from, lemma_find_char_from, split_all_commas, split_at_sep, split_comma,
    split_commas, split_first_comma, str_eq,
};

verus! {

/// Three positional fields: the first two end at commas, the last absorbs the rest.
pub open spec fn split3(p: Seq<char>) -> Option<(Seq<char>, Seq<char>, Seq<char>)> {
    match split_first_comma(p) {
        None => None,
        Some(ar) => match split_first_comma(ar.1) {
            None => None,
            Some(bc) => Some((ar.0, bc.0, bc.1)),
        },
    }
}

/// Four positional fields, the last absorbing the rest.
pub open spec fn split4(p: Seq<char>) -> Option<(Seq<char>, Seq<char>, Seq<char>, Seq<char>)> {
    match split_first_comma(p) {
        None => None,
        Some(ar) => match split3(ar.1) {
            None => None,
            Some(bcd) => Some((ar.0, bcd.0, bcd.1, bcd.2)),
        },
    }
}

pub fn split_comma3<'a>(s: &'a str) -> (r: Option<(&'a str, &'a str, &'a str)>)
    ensures
        match r {
            Some(t) => split3(s@) == Some((t.0@, t.1@, t.2@)),
            None => split3(s@) is None,
        },
{
    match split_comma(s) {
        None => None,
        Some((a, rest)) => match split_comma(rest) {
            None => None,
            Some((b, c)) => Some((a, b, c)),
        },
    }
}

pub fn split_comma4<'a>(s: &'a str) -> (r: Option<(&'a str, &'a str, &'a str, &'a str)>)
    ensures
        match r {
            Some(t) => split4(s@) == Some((t.0@, t.1@, t.2@, t.3@)),
            None => split4(s@) is None,
        },
{
    match split_comma(s) {
        None => None,
        Some((a, rest)) => match split_comma3(rest) {
            None => None,
            Some((b, c, d)) => Some((a, b, c, d)),
        },
    }
}

/// Every field read as a hexadecimal window address, or `None` if any field fails.
pub open spec fn hex_list(parts: Seq<Seq<char>>) -> Option<Seq<u64>>
    decreases parts.len(),
{
    if parts.len() == 0 {
        Some(Seq::empty())
    } else {
        match hex_u64(parts[0]) {
            None => None,
            Some(v) => match hex_list(parts.drop_first()) {
                None => None,
                Some(t) => Some(seq![v] + t),
            },
        }
    }
}

/// Reads a comma-separated list of hexadecimal window addresses.
pub fn parse_addr_list(s: &str) -> (r: Result<Vec<u64>, ParseError>)
    ensures
        match r {
            Ok(v) => hex_list(split_commas(s@)) == Some(v@),
            Err(e) => hex_list(split_commas(s@)) is None && e == ParseError::InvalidInt,
        },
{
    let mut out: Vec<u64> = Vec::new();
    let mut rest: &str = s;
    loop
        invariant_except_break
            match hex_list(split_commas(rest@)) {
                Some(t) => hex_list(split_commas(s@)) == Some(out@ + t),
                None => hex_list(split_commas(s@)) is None,
            },
        ensures
            match hex_list(split_commas(s@)) {
                Some(t) => out@ == t,
                None => false,
            },
        decreases rest@.len(),
    {
        proof {
            lemma_find_char_from(rest@, ',', 0);
        }
        let ghost old_out = out@;
        match split_comma(rest) {
            Some((a, b)) => {
                let ghost parts = split_commas(rest@);
                proof {
                    assert(parts == seq![a@] + split_commas(b@));
                    assert(parts.len() > 0);
                    assert(parts[0] == a@);
                    assert(parts.drop_first() =~= split_commas(b@));
                }
                match parse_hex_u64(a) {
                    Err(_) => {
                        return Err(ParseError::InvalidInt);
                    },
                    Ok(v) => {
                        out.push(v);
                        proof {
                            if hex_list(split_commas(b@)) is Some {
                                let t = hex_list(split_commas(b@))->Some_0;
                                assert(hex_list(parts) == Some(seq![v] + t));
                                assert(old_out + (seq![v] + t) =~= out@ + t);
                            }
                        }
                        rest = b;
                    },
                }
            },
            None => {
                let ghost parts = split_commas(rest@);
                proof {
                    assert(parts == seq![rest@]);
                    assert(parts.len() == 1);
                    assert(parts[0] == rest@);
                    assert(parts.drop_first() =~= Seq::<Seq<char>>::empty());
                }
                match parse_hex_u64(rest) {
                    Err(_) => {
                        return Err(ParseError::InvalidInt);
                    },
                    Ok(v) => {
                        out.push(v);
                        proof {
                            assert(hex_list(Seq::<Seq<char>>::empty()) == Some(
                                Seq::<u64>::empty(),
                            ));
                            assert(hex_list(parts) == Some(seq![v] + Seq::<u64>::empty()));
                            assert(old_out + (seq![v] + Seq::<u64>::empty()) =~= out@);
                        }
                        break ;
                    },
                }
            },
        }
    }
    Ok(out)
}

/// What one line of compositor event text means: the typed event it decodes to,
/// or the reason it is rejected.  This is the reference model that `parse_event`
/// is proved against, clause for clause.
pub open spec fn parse_named(name: Seq<char>, p: Seq<char>) -> Result<EventV, ParseError> {
    if name == "workspace"@ {
        Ok(EventV::Workspace { name: p })
    } else if name == "workspacev2"@ {
        match split_first_comma(p) {
            None => Err(ParseError::NotEnoughParams),
            Some(t) => match dec_i32(t.0) {
                None => Err(ParseError::InvalidInt),
                Some(id) => Ok(EventV::WorkspaceV2 { id, name: t.1 }),
            },
        }
    } else if name == "focusedmon"@ {
        match split_first_comma(p) {
            None => Err(ParseError::NotEnoughParams),
            Some(t) => Ok(EventV::FocusedMon { workspace_name: t.1, monitor_name: t.0 }),
        }
    } else if name == "focusedmonv2"@ {
        match split_first_comma(p) {
            None => Err(ParseError::NotEnoughParams),
            Some(t) => match dec_i32(t.1) {
                None => Err(ParseError::InvalidInt),
                Some(id) => Ok(EventV::FocusedMonV2 { workspace_id: id, monitor_name: t.0 }),
            },
        }
    } else if name == "activewindow"@ {
        match split_first_comma(p) {
            None => Err(ParseError::NotEnoughParams),
            Some(t) => if t.0.len() == 0 {
                Ok(EventV::ActiveWindow { window: None })
            } else {
                Ok(
                    EventV::ActiveWindow {
                        window: Some(ActiveWindowV { class: t.0, title: t.1 }),
                    },
                )
            },
        }
    } else if name == "activewindowv2"@ {
        if p.len() == 0 {
            Ok(EventV::ActiveWindowV2 { window_address: None })
        } else {
            match hex_u64(p) {
                None => Err(ParseError::InvalidInt),
                Some(a) => Ok(EventV::ActiveWindowV2 { window_address: Some(a) }),
            }
        }
    } else if name == "fullscreen"@ {
        Ok(EventV::Fullscreen { active: p == "1"@ })
    } else if name == "monitorremoved"@ {
        Ok(EventV::MonitorRemoved { name: p })
    } else if name == "monitorremovedv2"@ {
        match split3(p) {
            None => Err(ParseError::NotEnoughParams),
            Some(t) => match dec_i32(t.0) {
                None => Err(ParseError::InvalidInt),
                Some(id) => Ok(EventV::MonitorRemovedV2 { id, name: t.1, description: t.2 }),
            },
        }
    } else if name == "monitoradded"@ {
        Ok(EventV::MonitorAdded { name: p })
    } else if name == "monitoraddedv2"@ {
        match split3(p) {
            None => Err(ParseError::NotEnoughParams),
            Some(t) => match dec_i32(t.0) {
                None => Err(ParseError::InvalidInt),
                Some(id) => Ok(EventV::MonitorAddedV2 { id, name: t.1, description: t.2 }),
            },
        }
    } else if name == "createworkspace"@ {
        Ok(EventV::CreateWorkspace { name: p })
    } else if name == "createworkspacev2"@ {
        match split_first_comma(p) {
            None => Err(ParseError::NotEnoughParams),
            Some(t) => match dec_i32(t.0) {
                None => Err(ParseError::InvalidInt),
                Some(id) => Ok(EventV::CreateWorkspaceV2 { id, name: t.1 }),
            },
        }
    } else if name == "destroyworkspace"@ {
        Ok(EventV::DestroyWorkspace { name: p })
    } else if name == "destroyworkspacev2"@ {
        match split_first_comma(p) {
            None => Err(ParseError::NotEnoughParams),
            Some(t) => match dec_i32(t.0) {
                None => Err(ParseError::InvalidInt),
                Some(id) => Ok(EventV::DestroyWorkspaceV2 { id, name: t.1 }),
            },
        }
    } else if name == "moveworkspace"@ {
        match split_first_comma(p) {
            None => Err(ParseError::NotEnoughParams),
            Some(t) => Ok(EventV::MoveWorkspace { workspace_name: t.0, monitor_name: t.1 }),
        }
    } else if name == "moveworkspacev2"@ {
        match split3(p) {
            None => Err(ParseError::NotEnoughParams),
            Some(t) => match dec_i32(t.0) {
                None => Err(ParseError::InvalidInt),
                Some(id) => Ok(
                    EventV::MoveWorkspaceV2 {
                        workspace_id: id,
                        workspace_name: t.1,
                        monitor_name: t.2,
                    },
                ),
            },
        }
    } else if name == "renameworkspace"@ {
        match split_first_comma(p) {
            None => Err(ParseError::NotEnoughParams),
            Some(t) => match dec_i32(t.0) {
                None => Err(ParseError::InvalidInt),
                Some(id) => Ok(EventV::RenameWorkspace { id, new_name: t.1 }),
            },
        }
    } else if name == "activespecial"@ {
        match split_first_comma(p) {
            None => Err(ParseError::NotEnoughParams),
            Some(t) => Ok(
                EventV::ActiveSpecial {
                    workspace_name: if t.0.len() > 0 {
                        Some(t.0)
                    } else {
                        None
                    },
                    monitor_name: t.1,
                },
            ),
        }
    } else if name == "activespecialv2"@ {
        match split3(p) {
            None => Err(ParseError::NotEnoughParams),
            Some(t) => if t.0.len() == 0 {
                Ok(EventV::ActiveSpecialV2 { workspace: None, monitor_name: t.2 })
            } else {
                match dec_i32(t.0) {
                    None => Err(ParseError::InvalidInt),
                    Some(id) => Ok(
                        EventV::ActiveSpecialV2 {
                            workspace: Some(ActiveSpecialV { id, name: t.1 }),
                            monitor_name: t.2,
                        },
                    ),
                }
            },
        }
    } else if name == "activelayout"@ {
        match split_first_comma(p) {
            None => Err(ParseError::NotEnoughParams),
            Some(t) => Ok(EventV::ActiveLayout { keyboard_name: t.0, layout_name: t.1 }),
        }
    } else if name == "openwindow"@ {
        match split4(p) {
            None => Err(ParseError::NotEnoughParams),
            Some(t) => match hex_u64(t.0) {
                None => Err(ParseError::InvalidInt),
                Some(a) => Ok(
                    EventV::OpenWindow {
                        window_address: a,
                        workspace_name: t.1,
                        window_class: t.2,
                        window_title: t.3,
                    },
                ),
            },
        }
    } else if name == "closewindow"@ {
        match hex_u64(p) {
            None => Err(ParseError::InvalidInt),
            Some(a) => Ok(EventV::CloseWindow { window_address: a }),
        }
    } else if name == "movewindow"@ {
        match split_first_comma(p) {
            None => Err(ParseError::NotEnoughParams),
            Some(t) => match hex_u64(t.0) {
                None => Err(ParseError::InvalidInt),
                Some(a) => Ok(EventV::MoveWindow { window_address: a, workspace_name: t.1 }),
            },
        }
    } else if name == "movewindowv2"@ {
        match split3(p) {
            None => Err(ParseError::NotEnoughParams),
            Some(t) => match hex_u64(t.0) {
                None => Err(ParseError::InvalidInt),
                Some(a) => match dec_i32(t.1) {
                    None => Err(ParseError::InvalidInt),
                    Some(id) => Ok(
                        EventV::MoveWindowV2 {
                            window_address: a,
                            workspace_id: id,
                            workspace_name: t.2,
                        },
                    ),
                },
            },
        }
    } else if name == "openlayer"@ {
        Ok(EventV::OpenLayer { namespace: p })
    } else if name == "closelayer"@ {
        Ok(EventV::CloseLayer { namespace: p })
    } else if name == "submap"@ {
        Ok(
            EventV::Submap {
                name: if p.len() > 0 {
                    Some(p)
                } else {
                    None
                },
            },
        )
    } else if name == "changefloatingmode"@ {
        match split_first_comma(p) {
            None => Err(ParseError::NotEnoughParams),
            Some(t) => match hex_u64(t.0) {
                None => Err(ParseError::InvalidInt),
                Some(a) => Ok(
                    EventV::ChangeFloatingMode { window_address: a, floating: t.1 == "1"@ },
                ),
            },
        }
    } else if name == "urgent"@ {
        match hex_u64(p) {
            None => Err(ParseError::InvalidInt),
            Some(a) => Ok(EventV::Urgent { window_address: a }),
        }
    } else if name == "screencast"@ {
        match split_first_comma(p) {
            None => Err(ParseError::NotEnoughParams),
            Some(t) => Ok(
                EventV::ScreenCast {
                    active: t.0 == "1"@,
                    owner: if t.1 == "1"@ {
                        ScreenCastOwner::Window
                    } else {
                        ScreenCastOwner::Monitor
                    },
                },
            ),
        }
    } else if name == "windowtitle"@ {
        match hex_u64(p) {
            None => Err(ParseError::InvalidInt),
            Some(a) => Ok(EventV::WindowTitle { window_address: a }),
        }
    } else if name == "windowtitlev2"@ {
        match split_first_comma(p) {
            None => Err(ParseError::NotEnoughParams),
            Some(t) => match hex_u64(t.0) {
                None => Err(ParseError::InvalidInt),
                Some(a) => Ok(EventV::WindowTitleV2 { window_address: a, window_title: t.1 }),
            },
        }
    } else if name == "togglegroup"@ {
        match split_first_comma(p) {
            None => Err(ParseError::NotEnoughParams),
            Some(t) => match hex_list(split_commas(t.1)) {
                None => Err(ParseError::InvalidInt),
                Some(addrs) => Ok(
                    EventV::ToggleGroup { exists: t.0 == "1"@, window_addresses: addrs },
                ),
            },
        }
    } else if name == "moveintogroup"@ {
        match hex_u64(p) {
            None => Err(ParseError::InvalidInt),
            Some(a) => Ok(EventV::MoveIntoGroup { window_address: a }),
        }
    } else if name == "moveoutofgroup"@ {
        match hex_u64(p) {
            None => Err(ParseError::InvalidInt),
            Some(a) => Ok(EventV::MoveOutOfGroup { window_address: a }),
        }
    } else if name == "ignoregrouplock"@ {
        Ok(EventV::IgnoreGroupLock { active: p == "1"@ })
    } else if name == "lockgroups"@ {
        Ok(EventV::LockGroups { locked: p == "1"@ })
    } else if name == "configreloaded"@ {
        Ok(EventV::ConfigReloaded)
    } else if name == "pin"@ {
        match split_first_comma(p) {
            None => Err(ParseError::NotEnoughParams),
            Some(t) => match hex_u64(t.0) {
                None => Err(ParseError::InvalidInt),
                Some(a) => Ok(EventV::Pin { window_address: a, pinned: t.1 == "1"@ }),
            },
        }
    } else if name == "minimized"@ {
        match split_first_comma(p) {
            None => Err(ParseError::NotEnoughParams),
            Some(t) => match hex_u64(t.0) {
                None => Err(ParseError::InvalidInt),
                Some(a) => Ok(EventV::Minimized { window_address: a, state: t.1 == "1"@ }),
            },
        }
    } else if name == "bell"@ {
        match hex_u64(p) {
            None => Err(ParseError::InvalidInt),
            Some(a) => Ok(EventV::Bell { window_address: a }),
        }
    } else {
        Ok(EventV::Custom { name: name, params: split_commas(p) })
    }
}

/// The event names the parser decodes into dedicated variants.
pub open spec fn known_event_name(name: Seq<char>) -> bool {
    ||| name == "workspace"@
    ||| name == "workspacev2"@
    ||| name == "focusedmon"@
    ||| name == "focusedmonv2"@
    ||| name == "activewindow"@
    ||| name == "activewindowv2"@
    ||| name == "fullscreen"@
    ||| name == "monitorremoved"@
    ||| name == "monitorremovedv2"@
    ||| name == "monitoradded"@
    ||| name == "monitoraddedv2"@
    ||| name == "createworkspace"@
    ||| name == "createworkspacev2"@
    ||| name == "destroyworkspace"@
    ||| name == "destroyworkspacev2"@
    ||| name == "moveworkspace"@
    ||| name == "moveworkspacev2"@
    ||| name == "renameworkspace"@
    ||| name == "activespecial"@
    ||| name == "activespecialv2"@
    ||| name == "activelayout"@
    ||| name == "openwindow"@
    ||| name == "closewindow"@
    ||| name == "movewindow"@
    ||| name == "movewindowv2"@
    ||| name == "openlayer"@
    ||| name == "closelayer"@
    ||| name == "submap"@
    ||| name == "changefloatingmode"@
    ||| name == "urgent"@
    ||| name == "screencast"@
    ||| name == "windowtitle"@
    ||| name == "windowtitlev2"@
    ||| name == "togglegroup"@
    ||| name == "moveintogroup"@
    ||| name == "moveoutofgroup"@
    ||| name == "ignoregrouplock"@
    ||| name == "lockgroups"@
    ||| name == "configreloaded"@
    ||| name == "pin"@
    ||| name == "minimized"@
    ||| name == "bell"@
}

/// What a whole line means: split at the first `>>`, then decode by event name.
pub open spec fn parse_line(line: Seq<char>) -> Result<EventV, ParseError> {
    match find_sep_from(line, 0) {
        None => Err(ParseError::MissingSeparator),
        Some(i) => parse_named(line.take(i), line.skip(i + 2)),
    }
}

/// Decodes the parameter text of one event, chosen by its name.
#[verifier::rlimit(60)]
pub fn parse_event_named(name: &str, params: &str) -> (r: Result<Event, ParseError>)
    ensures
        match r {
            Ok(e) => parse_named(name@, params@) == Ok::<EventV, ParseError>(e.deep_view()),
            Err(pe) => parse_named(name@, params@) == Err::<EventV, ParseError>(pe),
        },
{
    if str_eq(name, "workspace") {
        Ok(Event::Workspace { name: String::from_str(params) })
    } else if str_eq(name, "workspacev2") {
        match split_comma(params) {
            None => Err(ParseError::NotEnoughParams),
            Some((a, rest)) => match parse_i32(a) {
                Err(e) => Err(e),
                Ok(id) => Ok(Event::WorkspaceV2 { id, name: String::from_str(rest) }),
            },
        }
    } else if str_eq(name, "focusedmon") {
        match split_comma(params) {
            None => Err(ParseError::NotEnoughParams),
            Some((a, rest)) => Ok(
                Event::FocusedMon {
                    workspace_name: String::from_str(rest),
                    monitor_name: String::from_str(a),
                },
            ),
        }
    } else if str_eq(name, "focusedmonv2") {
        match split_comma(params) {
            None => Err(ParseError::NotEnoughParams),
            Some((a, rest)) => match parse_i32(rest) {
                Err(e) => Err(e),
                Ok(id) => Ok(
                    Event::FocusedMonV2 { workspace_id: id, monitor_name: String::from_str(a) },
                ),
            },
        }
    } else if str_eq(name, "activewindow") {
        match split_comma(params) {
            None => Err(ParseError::NotEnoughParams),
            Some((a, rest)) => if a.is_empty() {
                Ok(Event::ActiveWindow { window: None })
            } else {
                Ok(
                    Event::ActiveWindow {
                        window: Some(
                            ActiveWindow {
                                class: String::from_str(a),
                                title: String::from_str(rest),
                            },
                        ),
                    },
                )
            },
        }
    } else if str_eq(name, "activewindowv2") {
        if params.is_empty() {
            Ok(Event::ActiveWindowV2 { window_address: None })
        } else {
            match parse_hex_u64(params) {
                Err(e) => Err(e),
                Ok(a) => Ok(Event::ActiveWindowV2 { window_address: Some(a) }),
            }
        }
    } else if str_eq(name, "fullscreen") {
        Ok(Event::Fullscreen { active: str_eq(params, "1") })
    } else if str_eq(name, "monitorremoved") {
        Ok(Event::MonitorRemoved { name: String::from_str(params) })
    } else if str_eq(name, "monitorremovedv2") {
        match split_comma3(params) {
            None => Err(ParseError::NotEnoughParams),
            Some((a, b, c)) => match parse_i32(a) {
                Err(e) => Err(e),
                Ok(id) => Ok(
                    Event::MonitorRemovedV2 {
                        id,
                        name: String::from_str(b),
                        description: String::from_str(c),
                    },
                ),
            },
        }
    } else if str_eq(name, "monitoradded") {
        Ok(Event::MonitorAdded { name: String::from_str(params) })
    } else if str_eq(name, "monitoraddedv2") {
        match split_comma3(params) {
            None => Err(ParseError::NotEnoughParams),
            Some((a, b, c)) => match parse_i32(a) {
                Err(e) => Err(e),
                Ok(id) => Ok(
                    Event::MonitorAddedV2 {
                        id,
                        name: String::from_str(b),
                        description: String::from_str(c),
                    },
                ),
            },
        }
    } else if str_eq(name, "createworkspace") {
        Ok(Event::CreateWorkspace { name: String::from_str(params) })
    } else if str_eq(name, "createworkspacev2") {
        match split_comma(params) {
            None => Err(ParseError::NotEnoughParams),
            Some((a, rest)) => match parse_i32(a) {
                Err(e) => Err(e),
                Ok(id) => Ok(Event::CreateWorkspaceV2 { id, name: String::from_str(rest) }),
            },
        }
    } else if str_eq(name, "destroyworkspace") {
        Ok(Event::DestroyWorkspace { name: String::from_str(params) })
    } else if str_eq(name, "destroyworkspacev2") {
        match split_comma(params) {
            None => Err(ParseError::NotEnoughParams),
            Some((a, rest)) => match parse_i32(a) {
                Err(e) => Err(e),
                Ok(id) => Ok(Event::DestroyWorkspaceV2 { id, name: String::from_str(rest) }),
            },
        }
    } else if str_eq(name, "moveworkspace") {
        match split_comma(params) {
            None => Err(ParseError::NotEnoughParams),
            Some((a, rest)) => Ok(
                Event::MoveWorkspace {
                    workspace_name: String::from_str(a),
                    monitor_name: String::from_str(rest),
                },
            ),
        }
    } else if str_eq(name, "moveworkspacev2") {
        match split_comma3(params) {
            None => Err(ParseError::NotEnoughParams),
            Some((a, b, c)) => match parse_i32(a) {
                Err(e) => Err(e),
                Ok(id) => Ok(
                    Event::MoveWorkspaceV2 {
                        workspace_id: id,
                        workspace_name: String::from_str(b),
                        monitor_name: String::from_str(c),
                    },
                ),
            },
        }
    } else if str_eq(name, "renameworkspace") {
        match split_comma(params) {
            None => Err(ParseError::NotEnoughParams),
            Some((a, rest)) => match parse_i32(a) {
                Err(e) => Err(e),
                Ok(id) => Ok(Event::RenameWorkspace { id, new_name: String::from_str(rest) }),
            },
        }
    } else if str_eq(name, "activespecial") {
        match split_comma(params) {
            None => Err(ParseError::NotEnoughParams),
            Some((a, rest)) => Ok(
                Event::ActiveSpecial {
                    workspace_name: if !a.is_empty() {
                        Some(String::from_str(a))
                    } else {
                        None
                    },
                    monitor_name: String::from_str(rest),
                },
            ),
        }
    } else if str_eq(name, "activespecialv2") {
        match split_comma3(params) {
            None => Err(ParseError::NotEnoughParams),
            Some((a, b, c)) => if a.is_empty() {
                Ok(
                    Event::ActiveSpecialV2 {
                        workspace: None,
                        monitor_name: String::from_str(c),
                    },
                )
            } else {
                match parse_i32(a) {
                    Err(e) => Err(e),
                    Ok(id) => Ok(
                        Event::ActiveSpecialV2 {
                            workspace: Some(ActiveSpecial { id, name: String::from_str(b) }),
                            monitor_name: String::from_str(c),
                        },
                    ),
                }
            },
        }
    } else if str_eq(name, "activelayout") {
        match split_comma(params) {
            None => Err(ParseError::NotEnoughParams),
            Some((a, rest)) => Ok(
                Event::ActiveLayout {
                    keyboard_name: String::from_str(a),
                    layout_name: String::from_str(rest),
                },
            ),
        }
    } else if str_eq(name, "openwindow") {
        match split_comma4(params) {
            None => Err(ParseError::NotEnoughParams),
            Some((a, b, c, d)) => match parse_hex_u64(a) {
                Err(e) => Err(e),
                Ok(addr) => Ok(
                    Event::OpenWindow {
                        window_address: addr,
                        workspace_name: String::from_str(b),
                        window_class: String::from_str(c),
                        window_title: String::from_str(d),
                    },
                ),
            },
        }
    } else if str_eq(name, "closewindow") {
        match parse_hex_u64(params) {
            Err(e) => Err(e),
            Ok(addr) => Ok(Event::CloseWindow { window_address: addr }),
        }
    } else if str_eq(name, "movewindow") {
        match split_comma(params) {
            None => Err(ParseError::NotEnoughParams),
            Some((a, rest)) => match parse_hex_u64(a) {
                Err(e) => Err(e),
                Ok(addr) => Ok(
                    Event::MoveWindow {
                        window_address: addr,
                        workspace_name: String::from_str(rest),
                    },
                ),
            },
        }
    } else if str_eq(name, "movewindowv2") {
        match split_comma3(params) {
            None => Err(ParseError::NotEnoughParams),
            Some((a, b, c)) => match parse_hex_u64(a) {
                Err(e) => Err(e),
                Ok(addr) => match parse_i32(b) {
                    Err(e) => Err(e),
                    Ok(id) => Ok(
                        Event::MoveWindowV2 {
                            window_address: addr,
                            workspace_id: id,
                            workspace_name: String::from_str(c),
                        },
                    ),
                },
            },
        }
    } else if str_eq(name, "openlayer") {
        Ok(Event::OpenLayer { namespace: String::from_str(params) })
    } else if str_eq(name, "closelayer") {
        Ok(Event::CloseLayer { namespace: String::from_str(params) })
    } else if str_eq(name, "submap") {
        Ok(
            Event::Submap {
                name: if !params.is_empty() {
                    Some(String::from_str(params))
                } else {
                    None
                },
            },
        )
    } else if str_eq(name, "changefloatingmode") {
        match split_comma(params) {
            None => Err(ParseError::NotEnoughParams),
            Some((a, rest)) => match parse_hex_u64(a) {
                Err(e) => Err(e),
                Ok(addr) => Ok(
                    Event::ChangeFloatingMode {
                        window_address: addr,
                        floating: str_eq(rest, "1"),
                    },
                ),
            },
        }
    } else if str_eq(name, "urgent") {
        match parse_hex_u64(params) {
            Err(e) => Err(e),
            Ok(addr) => Ok(Event::Urgent { window_address: addr }),
        }
    } else if str_eq(name, "screencast") {
        match split_comma(params) {
            None => Err(ParseError::NotEnoughParams),
            Some((a, rest)) => Ok(
                Event::ScreenCast {
                    active: str_eq(a, "1"),
                    owner: if str_eq(rest, "1") {
                        ScreenCastOwner::Window
                    } else {
                        ScreenCastOwner::Monitor
                    },
                },
            ),
        }
    } else if str_eq(name, "windowtitle") {
        match parse_hex_u64(params) {
            Err(e) => Err(e),
            Ok(addr) => Ok(Event::WindowTitle { window_address: addr }),
        }
    } else if str_eq(name, "windowtitlev2") {
        match split_comma(params) {
            None => Err(ParseError::NotEnoughParams),
            Some((a, rest)) => match parse_hex_u64(a) {
                Err(e) => Err(e),
                Ok(addr) => Ok(
                    Event::WindowTitleV2 {
                        window_address: addr,
                        window_title: String::from_str(rest),
                    },
                ),
            },
        }
    } else if str_eq(name, "togglegroup") {
        match split_comma(params) {
            None => Err(ParseError::NotEnoughParams),
            Some((a, rest)) => match parse_addr_list(rest) {
                Err(e) => Err(e),
                Ok(addrs) => Ok(
                    Event::ToggleGroup { exists: str_eq(a, "1"), window_addresses: addrs },
                ),
            },
        }
    } else if str_eq(name, "moveintogroup") {
        match parse_hex_u64(params) {
            Err(e) => Err(e),
            Ok(addr) => Ok(Event::MoveIntoGroup { window_address: addr }),
        }
    } else if str_eq(name, "moveoutofgroup") {
        match parse_hex_u64(params) {
            Err(e) => Err(e),
            Ok(addr) => Ok(Event::MoveOutOfGroup { window_address: addr }),
        }
    } else if str_eq(name, "ignoregrouplock") {
        Ok(Event::IgnoreGroupLock { active: str_eq(params, "1") })
    } else if str_eq(name, "lockgroups") {
        Ok(Event::LockGroups { locked: str_eq(params, "1") })
    } else if str_eq(name, "configreloaded") {
        Ok(Event::ConfigReloaded)
    } else if str_eq(name, "pin") {
        match split_comma(params) {
            None => Err(ParseError::NotEnoughParams),
            Some((a, rest)) => match parse_hex_u64(a) {
                Err(e) => Err(e),
                Ok(addr) => Ok(Event::Pin { window_address: addr, pinned: str_eq(rest, "1") }),
            },
        }
    } else if str_eq(name, "minimized") {
        match split_comma(params) {
            None => Err(ParseError::NotEnoughParams),
            Some((a, rest)) => match parse_hex_u64(a) {
                Err(e) => Err(e),
                Ok(addr) => Ok(
                    Event::Minimized { window_address: addr, state: str_eq(rest, "1") },
                ),
            },
        }
    } else if str_eq(name, "bell") {
        match parse_hex_u64(params) {
            Err(e) => Err(e),
            Ok(addr) => Ok(Event::Bell { window_address: addr }),
        }
    } else {
        Ok(
            Event::Custom {
                name: String::from_str(name),
                params: split_all_commas(params),
            },
        )
    }
}

/// Turns one line of compositor event text into exactly one typed `Event`,
/// or a typed failure; pure, and proved equal to `parse_line` on every input.
pub fn parse_event(line: &str) -> (r: Result<Event, ParseError>)
    ensures
        match r {
            Ok(e) => parse_line(line@) == Ok::<EventV, ParseError>(e.deep_view()),
            Err(pe) => parse_line(line@) == Err::<EventV, ParseError>(pe),
        },
{
    match split_at_sep(line) {
        None => Err(ParseError::MissingSeparator),
        Some((name, params)) => parse_event_named(name, params),
    }
}

/// An unknown event name never fails to parse: the line decodes to `Custom`
/// with the name as given and the parameter text split at every comma.
#[verifier::rlimit(30)]
pub proof fn lemma_unknown_name_preserved(line: Seq<char>, i: int)
    requires
        find_sep_from(line, 0) == Some(i),
        !known_event_name(line.take(i)),
    ensures
        parse_line(line) == Ok::<EventV, ParseError>(
            EventV::Custom { name: line.take(i), params: split_commas(line.skip(i + 2)) },
        ),
{
}

/// The known event names that need at least two comma-separated fields.
pub open spec fn two_field_event(name: Seq<char>) -> bool {
    ||| name == "workspacev2"@
    ||| name == "focusedmon"@
    ||| name == "focusedmonv2"@
    ||| name == "activewindow"@
    ||| name == "createworkspacev2"@
    ||| name == "destroyworkspacev2"@
    ||| name == "moveworkspace"@
    ||| name == "renameworkspace"@
    ||| name == "activespecial"@
    ||| name == "activelayout"@
    ||| name == "movewindow"@
    ||| name == "changefloatingmode"@
    ||| name == "screencast"@
    ||| name == "windowtitlev2"@
    ||| name == "togglegroup"@
    ||| name == "pin"@
    ||| name == "minimized"@
}

/// The known event names that need at least three comma-separated fields.
pub open spec fn three_field_event(name: Seq<char>) -> bool {
    ||| name == "monitorremovedv2"@
    ||| name == "monitoraddedv2"@
    ||| name == "moveworkspacev2"@
    ||| name == "movewindowv2"@
    ||| name == "activespecialv2"@
}

/// A known event name with too few comma-separated fields is rejected with
/// `NotEnoughParams`; the parser, being verified, returns the error rather
/// than panicking.
#[verifier::rlimit(100)]
pub proof fn lemma_missing_fields_rejected(name: Seq<char>, p: Seq<char>)
    ensures
        two_field_event(name) && split_first_comma(p) is None ==> parse_named(name, p)
            == Err::<EventV, ParseError>(ParseError::NotEnoughParams),
        three_field_event(name) && split3(p) is None ==> parse_named(name, p) == Err::<
            EventV,
            ParseError,
        >(ParseError::NotEnoughParams),
        name == "openwindow"@ && split4(p) is None ==> parse_named(name, p) == Err::<
            EventV,
            ParseError,
        >(ParseError::NotEnoughParams),
{
    reveal_strlit("workspace");
    reveal_strlit("workspacev2");
    reveal_strlit("focusedmon");
    reveal_strlit("focusedmonv2");
    reveal_strlit("activewindow");
    reveal_strlit("activewindowv2");
    reveal_strlit("fullscreen");
    reveal_strlit("monitorremoved");
    reveal_strlit("monitorremovedv2");
    reveal_strlit("monitoradded");
    reveal_strlit("monitoraddedv2");
    reveal_strlit("createworkspace");
    reveal_strlit("createworkspacev2");
    reveal_strlit("destroyworkspace");
    reveal_strlit("destroyworkspacev2");
    reveal_strlit("moveworkspace");
    reveal_strlit("moveworkspacev2");
    reveal_strlit("renameworkspace");
    reveal_strlit("activespecial");
    reveal_strlit("activespecialv2");
    reveal_strlit("activelayout");
    reveal_strlit("openwindow");
    reveal_strlit("closewindow");
    reveal_strlit("movewindow");
    reveal_strlit("movewindowv2");
    reveal_strlit("openlayer");
    reveal_strlit("closelayer");
    reveal_strlit("submap");
    reveal_strlit("changefloatingmode");
    reveal_strlit("urgent");
    reveal_strlit("screencast");
    reveal_strlit("windowtitle");
    reveal_strlit("windowtitlev2");
    reveal_strlit("togglegroup");
    reveal_strlit("moveintogroup");
    reveal_strlit("moveoutofgroup");
    reveal_strlit("ignoregrouplock");
    reveal_strlit("lockgroups");
    reveal_strlit("configreloaded");
    reveal_strlit("pin");
    reveal_strlit("minimized");
    reveal_strlit("bell");
    assert("workspace"@.len() == 9);
    assert("workspacev2"@.len() == 11);
    assert("focusedmon"@.len() == 10);
    assert("focusedmonv2"@.len() == 12);
    assert("activewindow"@.len() == 12);
    assert("activewindowv2"@.len() == 14);
    assert("fullscreen"@.len() == 10);
    assert("monitorremoved"@.len() == 14);
    assert("monitorremovedv2"@.len() == 16);
    assert("monitoradded"@.len() == 12);
    assert("monitoraddedv2"@.len() == 14);
    assert("createworkspace"@.len() == 15);
    assert("createworkspacev2"@.len() == 17);
    assert("destroyworkspace"@.len() == 16);
    assert("destroyworkspacev2"@.len() == 18);
    assert("moveworkspace"@.len() == 13);
    assert("moveworkspacev2"@.len() == 15);
    assert("renameworkspace"@.len() == 15);
    assert("activespecial"@.len() == 13);
    assert("activespecialv2"@.len() == 15);
    assert("activelayout"@.len() == 12);
    assert("openwindow"@.len() == 10);
    assert("closewindow"@.len() == 11);
    assert("movewindow"@.len() == 10);
    assert("movewindowv2"@.len() == 12);
    assert("openlayer"@.len() == 9);
    assert("closelayer"@.len() == 10);
    assert("submap"@.len() == 6);
    assert("changefloatingmode"@.len() == 18);
    assert("urgent"@.len() == 6);
    assert("screencast"@.len() == 10);
    assert("windowtitle"@.len() == 11);
    assert("windowtitlev2"@.len() == 13);
    assert("togglegroup"@.len() == 11);
    assert("moveintogroup"@.len() == 13);
    assert("moveoutofgroup"@.len() == 14);
    assert("ignoregrouplock"@.len() == 15);
    assert("lockgroups"@.len() == 10);
    assert("configreloaded"@.len() == 14);
    assert("pin"@.len() == 3);
    assert("minimized"@.len() == 9);
    assert("bell"@.len() == 4);
    assert("activelayout"@[0] != "movewindowv2"@[0]);
    assert("activespecial"@[0] != "windowtitlev2"@[0]);
    assert("activewindow"@[6] != "activelayout"@[6]);
    assert("activewindow"@[0] != "movewindowv2"@[0]);
    assert("activewindowv2"@[0] != "monitoraddedv2"@[0]);
    assert("closelayer"@[0] != "screencast"@[0]);
    assert("closewindow"@[0] != "togglegroup"@[0]);
    assert("createworkspace"@[0] != "activespecialv2"@[0]);
    assert("createworkspace"@[0] != "moveworkspacev2"@[0]);
    assert("createworkspace"@[0] != "renameworkspace"@[0]);
    assert("destroyworkspacev2"@[0] != "changefloatingmode"@[0]);
    assert("focusedmon"@[0] != "movewindow"@[0]);
    assert("focusedmon"@[0] != "openwindow"@[0]);
    assert("focusedmon"@[0] != "screencast"@[0]);
    assert("focusedmonv2"@[0] != "activelayout"@[0]);
    assert("focusedmonv2"@[0] != "activewindow"@[0]);
    assert("focusedmonv2"@[0] != "movewindowv2"@[0]);
    assert("fullscreen"@[0] != "movewindow"@[0]);
    assert("fullscreen"@[0] != "openwindow"@[0]);
    assert("fullscreen"@[0] != "screencast"@[0]);
    assert("monitoradded"@[0] != "activelayout"@[0]);
    assert("monitoradded"@[2] != "movewindowv2"@[2]);
    assert("monitorremoved"@[7] != "monitoraddedv2"@[7]);
    assert("movewindow"@[0] != "screencast"@[0]);
    assert("moveworkspace"@[0] != "activespecial"@[0]);
    assert("moveworkspace"@[0] != "windowtitlev2"@[0]);
    assert("moveworkspacev2"@[0] != "activespecialv2"@[0]);
    assert("moveworkspacev2"@[0] != "renameworkspace"@[0]);
    assert("openlayer"@[0] != "minimized"@[0]);
    assert("openwindow"@[0] != "movewindow"@[0]);
    assert("openwindow"@[0] != "screencast"@[0]);
    assert("renameworkspace"@[0] != "activespecialv2"@[0]);
    assert("windowtitle"@[0] != "togglegroup"@[0]);
    assert("workspace"@[0] != "minimized"@[0]);
    assert("workspacev2"@[0] != "togglegroup"@[0]);
}

} // verus!
