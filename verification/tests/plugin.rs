use zellij_cmd_k::commands::Command;
use zellij_cmd_k::input::HostCall;
use zellij_cmd_k::keys::{BareKey, InputMode, KeyPress};
use zellij_cmd_k::plugin::{maybe_follow_user_tab, update, Event};
use zellij_cmd_k::state::{
    ModeInfo, ModeKeybinds, PaneInfo, PaneManifest, SessionInfo, State, TabInfo, TabPanes,
};

fn tabs(active: usize) -> Vec<TabInfo> {
    (0..3)
        .map(|i| TabInfo { position: i, name: format!("t{}", i), active: i == active })
        .collect()
}

fn manifest(plugin_tab: usize, focused: bool) -> PaneManifest {
    PaneManifest {
        tabs: vec![
            TabPanes {
                tab_position: 0,
                panes: vec![PaneInfo { id: 1, is_plugin: false, is_focused: true }],
            },
            TabPanes {
                tab_position: plugin_tab,
                panes: vec![
                    PaneInfo { id: 7, is_plugin: false, is_focused: false },
                    PaneInfo { id: 7, is_plugin: true, is_focused: focused },
                ],
            },
        ],
    }
}

#[test]
fn tab_update_records_origin_and_rebuilds_list() {
    let mut s = State::default();
    let (redraw, calls) = update(&mut s, Event::TabUpdate(tabs(2)));
    assert!(redraw);
    assert!(calls.is_empty());
    assert_eq!(s.origin_tab_position, Some(2));
    assert_eq!(s.filtered_commands.len(), 6 + 6);
    assert_eq!(
        s.filtered_commands[6].command,
        Command::SwitchToTab { name: "t0".to_string(), position: 0 }
    );
}

#[test]
fn tab_update_without_active_tab_clears_origin() {
    let mut s = State::default();
    s.origin_tab_position = Some(4);
    let t: Vec<TabInfo> =
        vec![TabInfo { position: 0, name: "only".to_string(), active: false }];
    update(&mut s, Event::TabUpdate(t));
    assert_eq!(s.origin_tab_position, None);
}

#[test]
fn session_update_adds_session_commands() {
    let mut s = State::default();
    let sessions = vec![
        SessionInfo { name: "a".to_string(), is_current_session: true },
        SessionInfo { name: "b".to_string(), is_current_session: false },
    ];
    let (redraw, _) =
        update(&mut s, Event::SessionUpdate(sessions, vec!["b".to_string(), "c".to_string()]));
    assert!(redraw);
    let cmds: Vec<Command> = s.filtered_commands.iter().map(|c| c.command.duplicate()).collect();
    assert_eq!(cmds.len(), 8);
    assert_eq!(cmds[6], Command::SwitchSession { name: "b".to_string() });
    assert_eq!(cmds[7], Command::ResumeSession { name: "c".to_string() });
}

#[test]
fn refilter_clamps_selection() {
    let mut s = State::default();
    update(&mut s, Event::TabUpdate(tabs(0)));
    s.selected_index = 11;
    let (_, _) = update(&mut s, Event::TabUpdate(vec![]));
    assert_eq!(s.filtered_commands.len(), 6);
    assert_eq!(s.selected_index, 5);
}

#[test]
fn mode_update_is_stored_without_redraw() {
    let mut s = State::default();
    let info = ModeInfo { keybinds: vec![ModeKeybinds { mode: InputMode::Normal, bindings: vec![] }] };
    let (redraw, calls) = update(&mut s, Event::ModeUpdate(info));
    assert!(!redraw);
    assert!(calls.is_empty());
    assert!(s.mode_info.is_some());
}

#[test]
fn other_events_are_ignored() {
    let mut s = State::default();
    let (redraw, calls) = update(&mut s, Event::Other);
    assert!(!redraw);
    assert!(calls.is_empty());
}

#[test]
fn key_events_go_to_the_key_handler() {
    let mut s = State::default();
    update(&mut s, Event::TabUpdate(tabs(0)));
    let k = KeyPress { bare_key: BareKey::Char('?'), ctrl: false, alt: false, shift: false, super_key: false };
    let (redraw, _) = update(&mut s, Event::Key(k));
    assert!(redraw);
    assert_eq!(s.view, zellij_cmd_k::state::PaletteView::Keybindings { scroll: 0 });
}

#[test]
fn hidden_palette_remembers_user_tab() {
    let mut s = State::default();
    s.plugin_id = Some(7);
    s.tabs = tabs(2);
    s.pane_manifest = Some(manifest(0, false));
    let mut calls = Vec::new();
    maybe_follow_user_tab(&mut s, &mut calls);
    assert!(calls.is_empty());
    assert_eq!(s.last_user_tab, Some(2));
}

#[test]
fn visible_palette_moves_to_user_tab_once() {
    let mut s = State::default();
    s.plugin_id = Some(7);
    s.last_user_tab = Some(2);
    update(&mut s, Event::TabUpdate(tabs(0)));
    let (_, calls) = update(&mut s, Event::PaneUpdate(manifest(0, true)));
    assert_eq!(
        calls,
        vec![HostCall::BreakPaneToTab { plugin_id: 7, tab_index: 2, focus_new_tab: true }]
    );
    assert_eq!(s.last_user_tab, None);
    let (_, calls) = update(&mut s, Event::PaneUpdate(manifest(0, true)));
    assert!(calls.is_empty());
}

#[test]
fn visible_palette_on_user_tab_stays() {
    let mut s = State::default();
    s.plugin_id = Some(7);
    s.last_user_tab = Some(0);
    s.tabs = tabs(0);
    s.pane_manifest = Some(manifest(0, true));
    let mut calls = Vec::new();
    maybe_follow_user_tab(&mut s, &mut calls);
    assert!(calls.is_empty());
    assert_eq!(s.last_user_tab, Some(0));
}

#[test]
fn without_plugin_id_or_pane_nothing_happens() {
    let mut s = State::default();
    s.tabs = tabs(1);
    s.pane_manifest = Some(manifest(0, true));
    let mut calls = Vec::new();
    maybe_follow_user_tab(&mut s, &mut calls);
    assert_eq!(s.last_user_tab, None);
    s.plugin_id = Some(99);
    maybe_follow_user_tab(&mut s, &mut calls);
    assert_eq!(s.last_user_tab, None);
    assert!(calls.is_empty());
}
