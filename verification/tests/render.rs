use zellij_cmd_k::commands::{Command, ScoredCommand};
use zellij_cmd_k::keys::{BareKey, InputMode, KeyPress};
use zellij_cmd_k::render::{
    collect_keybindings, compute_scroll_offset, format_key, render, Coloring, Element,
    KeybindingEntry, StyledText,
};
use zellij_cmd_k::state::{Keybinding, ModeInfo, ModeKeybinds, PaletteView, State, TabInfo};

fn key(bare_key: BareKey, ctrl: bool, alt: bool, super_key: bool) -> KeyPress {
    KeyPress { bare_key, ctrl, alt, shift: false, super_key }
}

fn text_of(e: &Element) -> &str {
    match e {
        Element::Text { item, .. } => item.text.as_str(),
        Element::List { .. } => panic!("not a text element"),
    }
}

#[test]
fn scroll_offset_keeps_selection_visible() {
    assert_eq!(compute_scroll_offset(3, 10, 5), 0);
    assert_eq!(compute_scroll_offset(4, 10, 50), 0);
    assert_eq!(compute_scroll_offset(20, 10, 50), 15);
    assert_eq!(compute_scroll_offset(49, 10, 50), 40);
    assert_eq!(compute_scroll_offset(0, 0, 5), 0);
}

#[test]
fn keys_are_written_out() {
    assert_eq!(format_key(&key(BareKey::Char('a'), true, false, false)), "Ctrl+a");
    assert_eq!(format_key(&key(BareKey::Char(' '), false, true, false)), "Alt+Space");
    assert_eq!(format_key(&key(BareKey::F(5), true, true, true)), "Ctrl+Alt+Super+F(5)");
    assert_eq!(format_key(&key(BareKey::PageDown, false, false, false)), "PageDown");
    assert_eq!(format_key(&key(BareKey::Esc, false, false, true)), "Super+Esc");
}

#[test]
fn keybindings_before_mode_info_say_so() {
    assert_eq!(
        collect_keybindings(&None),
        vec![KeybindingEntry::Binding("  (keybinding info not available yet)".to_string())]
    );
}

#[test]
fn keybindings_list_preferred_modes_first() {
    let bind = |c: char, action: &str| Keybinding {
        key: key(BareKey::Char(c), true, false, false),
        actions: vec![action.to_string()],
    };
    let info = ModeInfo {
        keybinds: vec![
            ModeKeybinds { mode: InputMode::Tmux, bindings: vec![bind('b', "Detach")] },
            ModeKeybinds {
                mode: InputMode::Pane,
                bindings: vec![Keybinding {
                    key: key(BareKey::Char('p'), true, false, false),
                    actions: vec!["SwitchToMode(Normal)".to_string(), "NewPane".to_string()],
                }],
            },
            ModeKeybinds { mode: InputMode::Normal, bindings: vec![bind('g', "Lock")] },
            ModeKeybinds { mode: InputMode::Normal, bindings: vec![bind('x', "Ignored")] },
        ],
    };
    let entries = collect_keybindings(&Some(info));
    assert_eq!(
        entries,
        vec![
            KeybindingEntry::SectionHeader("┌ Normal mode".to_string()),
            KeybindingEntry::Binding("  Ctrl+g → Lock".to_string()),
            KeybindingEntry::SectionHeader("┌ Pane mode".to_string()),
            KeybindingEntry::Binding("  Ctrl+p → SwitchToMode(Normal), NewPane".to_string()),
            KeybindingEntry::SectionHeader("┌ Tmux mode".to_string()),
            KeybindingEntry::Binding("  Ctrl+b → Detach".to_string()),
        ]
    );
}

#[test]
fn list_view_frame() {
    let mut s = State::default();
    s.tabs = vec![TabInfo { position: 0, name: "main".to_string(), active: true }];
    s.refilter();
    s.selected_index = 1;
    let frame = render(&s, 5, 40);
    assert_eq!(frame.len(), 3);
    assert_eq!(
        frame[0],
        Element::Text {
            item: StyledText {
                text: " > Type to filter...".to_string(),
                colorings: vec![Coloring::Range { level: 3, start: 0, end: 2 }],
                selected: false,
            },
            x: 0,
            y: 0,
            width: 40,
            height: 1,
        }
    );
    match &frame[1] {
        Element::List { items, x, y, width, height } => {
            assert_eq!((*x, *y, *width, *height), (0, 1, 40, 3));
            assert_eq!(items.len(), 3);
            assert_eq!(items[0].text, "[Session] New session (auto-named)");
            assert_eq!(items[0].colorings, vec![Coloring::Range { level: 2, start: 0, end: 9 }]);
            assert!(!items[0].selected);
            assert!(items[1].selected);
            assert_eq!(items[2].text, "[Session] Rename current session...");
        },
        _ => panic!("expected the command list"),
    }
    assert_eq!(text_of(&frame[2]), " Enter select | Esc close | Up/Down navigate | ? keybindings");
}

#[test]
fn list_window_follows_selection() {
    let mut s = State::default();
    s.refilter();
    s.selected_index = 5;
    let frame = render(&s, 4, 40);
    match &frame[1] {
        Element::List { items, height, .. } => {
            assert_eq!(*height, 2);
            assert_eq!(items.len(), 2);
            assert_eq!(items[0].text, "[Mode] Enter search mode");
            assert!(items[1].selected);
            assert_eq!(items[1].text, "[Help] Show all keybindings");
        },
        _ => panic!("expected the command list"),
    }
}

#[test]
fn matched_characters_are_highlighted_after_the_category() {
    let mut s = State::default();
    s.filtered_commands = vec![ScoredCommand {
        command: Command::ShowKeybindings,
        score: 10,
        match_indices: vec![0, 1, 500],
    }];
    s.search_term = "sh".to_string();
    let frame = render(&s, 4, 40);
    assert_eq!(text_of(&frame[0]), " > sh|");
    match &frame[1] {
        Element::List { items, .. } => {
            assert_eq!(
                items[0].colorings,
                vec![
                    Coloring::Range { level: 2, start: 0, end: 6 },
                    Coloring::Index { level: 1, index: 7 },
                    Coloring::Index { level: 1, index: 8 },
                ]
            );
            assert!(items[0].selected);
        },
        _ => panic!("expected the command list"),
    }
}

#[test]
fn no_matches_frame() {
    let mut s = State::default();
    s.search_term = "zzz".to_string();
    let frame = render(&s, 6, 30);
    assert_eq!(frame.len(), 3);
    assert_eq!(text_of(&frame[1]), " No matches");
    assert_eq!(text_of(&frame[2]), " Esc close");
    match &frame[2] {
        Element::Text { y, .. } => assert_eq!(*y, 5),
        _ => unreachable!(),
    }
}

#[test]
fn tiny_screen_shows_only_search_and_hint() {
    let mut s = State::default();
    s.refilter();
    let frame = render(&s, 1, 30);
    assert_eq!(frame.len(), 2);
    assert_eq!(text_of(&frame[1]), " Esc close");
}

#[test]
fn keybindings_frame_clamps_scroll() {
    let mut s = State::default();
    s.view = PaletteView::Keybindings { scroll: 9 };
    let frame = render(&s, 5, 100);
    assert_eq!(frame.len(), 4);
    assert_eq!(text_of(&frame[0]), " ⌨  Zellij Keybindings");
    assert_eq!(text_of(&frame[1]), "─".repeat(60));
    match &frame[2] {
        Element::List { items, y, height, .. } => {
            assert_eq!((*y, *height), (2, 2));
            assert_eq!(items.len(), 1);
            assert_eq!(items[0].text, "  (keybinding info not available yet)");
        },
        _ => panic!("expected the reference list"),
    }
    assert_eq!(text_of(&frame[3]), " Esc back | Up/Down scroll");
}

#[test]
fn prompt_frames() {
    let mut s = State::default();
    s.view = PaletteView::NewSessionPrompt { input: "work".to_string() };
    let frame = render(&s, 10, 30);
    assert_eq!(frame.len(), 4);
    assert_eq!(text_of(&frame[0]), " 🆕 New session name:");
    assert_eq!(text_of(&frame[1]), " > work|");
    assert_eq!(text_of(&frame[3]), " Enter create | Esc back");
    s.view = PaletteView::RenameSessionPrompt { input: "main".to_string() };
    let frame = render(&s, 10, 30);
    assert_eq!(text_of(&frame[0]), " Rename session:");
    assert_eq!(text_of(&frame[3]), " Enter rename | Esc back");
}
