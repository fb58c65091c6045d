use zellij_cmd_k::commands::Command;
use zellij_cmd_k::input::{handle_key, HostCall};
use zellij_cmd_k::keys::{BareKey, InputMode, KeyPress};
use zellij_cmd_k::state::{PaletteView, SessionInfo, State, TabInfo};

fn key(bare_key: BareKey) -> KeyPress {
    KeyPress { bare_key, ctrl: false, alt: false, shift: false, super_key: false }
}

fn ctrl(c: char) -> KeyPress {
    KeyPress { bare_key: BareKey::Char(c), ctrl: true, alt: false, shift: false, super_key: false }
}

fn palette() -> State {
    let mut s = State::default();
    s.tabs = vec![
        TabInfo { position: 0, name: "code".to_string(), active: false },
        TabInfo { position: 1, name: "logs".to_string(), active: true },
    ];
    s.sessions = vec![
        SessionInfo { name: "main".to_string(), is_current_session: true },
        SessionInfo { name: "side".to_string(), is_current_session: false },
    ];
    s.origin_tab_position = Some(1);
    s.refilter();
    s
}

fn type_text(s: &mut State, text: &str) {
    for c in text.chars() {
        let (handled, calls) = handle_key(s, key(BareKey::Char(c)));
        assert!(handled);
        assert!(calls.is_empty());
    }
}

fn select(s: &mut State, command: &Command) {
    let pos = s.filtered_commands.iter().position(|c| &c.command == command).unwrap();
    s.selected_index = pos;
}

#[test]
fn list_holds_all_commands_with_empty_search() {
    let s = palette();
    // 6 fixed, 2 per tab, 1 other session.
    assert_eq!(s.filtered_commands.len(), 11);
    assert_eq!(s.selected_index, 0);
}

#[test]
fn question_mark_opens_keybindings_and_esc_returns() {
    let mut s = palette();
    let (h, calls) = handle_key(&mut s, key(BareKey::Char('?')));
    assert!(h);
    assert!(calls.is_empty());
    assert_eq!(s.view, PaletteView::Keybindings { scroll: 0 });
    let (h, calls) = handle_key(&mut s, key(BareKey::Esc));
    assert!(h);
    assert!(calls.is_empty());
    assert_eq!(s.view, PaletteView::List);
    assert_eq!(s.filtered_commands.len(), 11);
}

#[test]
fn question_mark_is_typed_when_search_is_not_empty() {
    let mut s = palette();
    type_text(&mut s, "s?");
    assert_eq!(s.search_term, "s?");
    assert_eq!(s.view, PaletteView::List);
}

#[test]
fn keybindings_view_scrolls_and_ignores_enter() {
    let mut s = palette();
    s.view = PaletteView::Keybindings { scroll: 0 };
    handle_key(&mut s, key(BareKey::Up));
    assert_eq!(s.view, PaletteView::Keybindings { scroll: 0 });
    handle_key(&mut s, key(BareKey::Down));
    handle_key(&mut s, key(BareKey::Down));
    assert_eq!(s.view, PaletteView::Keybindings { scroll: 2 });
    handle_key(&mut s, key(BareKey::Up));
    assert_eq!(s.view, PaletteView::Keybindings { scroll: 1 });
    let (h, calls) = handle_key(&mut s, key(BareKey::Enter));
    assert!(h);
    assert!(calls.is_empty());
    assert_eq!(s.view, PaletteView::Keybindings { scroll: 1 });
}

#[test]
fn up_and_down_wrap_around() {
    let mut s = palette();
    handle_key(&mut s, key(BareKey::Up));
    assert_eq!(s.selected_index, 10);
    handle_key(&mut s, key(BareKey::Down));
    assert_eq!(s.selected_index, 0);
    handle_key(&mut s, key(BareKey::Down));
    assert_eq!(s.selected_index, 1);
    handle_key(&mut s, key(BareKey::Up));
    assert_eq!(s.selected_index, 0);
}

#[test]
fn up_and_down_on_empty_list_do_nothing() {
    let mut s = palette();
    type_text(&mut s, "qqqqzzzz");
    assert!(s.filtered_commands.is_empty());
    let (h, _) = handle_key(&mut s, key(BareKey::Down));
    assert!(h);
    assert_eq!(s.selected_index, 0);
    let (h, calls) = handle_key(&mut s, key(BareKey::Enter));
    assert!(h);
    assert!(calls.is_empty());
}

#[test]
fn typing_filters_and_backspace_restores() {
    let mut s = palette();
    handle_key(&mut s, key(BareKey::Down));
    type_text(&mut s, "logs");
    assert_eq!(s.selected_index, 0);
    assert!(s.filtered_commands.len() < 11);
    assert!(!s.filtered_commands.is_empty());
    for _ in 0..4 {
        let (h, calls) = handle_key(&mut s, key(BareKey::Backspace));
        assert!(h);
        assert!(calls.is_empty());
    }
    assert_eq!(s.search_term, "");
    assert_eq!(s.filtered_commands.len(), 11);
    // Backspace on an empty search is harmless.
    handle_key(&mut s, key(BareKey::Backspace));
    assert_eq!(s.search_term, "");
}

#[test]
fn ctrl_characters_are_not_typed() {
    let mut s = palette();
    let (h, calls) = handle_key(&mut s, ctrl('k'));
    assert!(!h);
    assert!(calls.is_empty());
    assert_eq!(s.search_term, "");
}

#[test]
fn other_keys_are_not_used() {
    let mut s = palette();
    let (h, calls) = handle_key(&mut s, key(BareKey::PageDown));
    assert!(!h);
    assert!(calls.is_empty());
}

#[test]
fn esc_dismisses_back_to_origin_tab() {
    let mut s = palette();
    type_text(&mut s, "lo");
    let (h, calls) = handle_key(&mut s, key(BareKey::Esc));
    assert!(h);
    assert_eq!(calls, vec![HostCall::SwitchTabTo { tab: 2 }, HostCall::HideSelf]);
    assert_eq!(s.search_term, "");
    assert_eq!(s.selected_index, 0);
    assert_eq!(s.view, PaletteView::List);
}

#[test]
fn esc_without_origin_only_hides() {
    let mut s = palette();
    s.origin_tab_position = None;
    let (_, calls) = handle_key(&mut s, key(BareKey::Esc));
    assert_eq!(calls, vec![HostCall::HideSelf]);
}

#[test]
fn enter_switches_tab_one_based() {
    let mut s = palette();
    select(&mut s, &Command::SwitchToTab { name: "code".to_string(), position: 0 });
    let (h, calls) = handle_key(&mut s, key(BareKey::Enter));
    assert!(h);
    assert_eq!(calls, vec![HostCall::SwitchTabTo { tab: 1 }, HostCall::HideSelf]);
    assert_eq!(s.view, PaletteView::List);
}

#[test]
fn newline_char_acts_as_enter() {
    let mut s = palette();
    select(&mut s, &Command::CloseTab { name: "logs".to_string(), position: 1 });
    let (h, calls) = handle_key(&mut s, key(BareKey::Char('\n')));
    assert!(h);
    assert_eq!(calls, vec![HostCall::CloseTabWithIndex { index: 1 }, HostCall::HideSelf]);
}

#[test]
fn session_commands_switch_and_close() {
    let mut s = palette();
    select(&mut s, &Command::SwitchSession { name: "side".to_string() });
    let (_, calls) = handle_key(&mut s, key(BareKey::Enter));
    assert_eq!(
        calls,
        vec![HostCall::SwitchSession { name: Some("side".to_string()) }, HostCall::HideSelf]
    );
    let mut s = palette();
    select(&mut s, &Command::NewSession);
    let (_, calls) = handle_key(&mut s, key(BareKey::Enter));
    assert_eq!(calls, vec![HostCall::SwitchSession { name: None }, HostCall::HideSelf]);
}

#[test]
fn mode_commands_hide_then_switch_mode() {
    let mut s = palette();
    select(&mut s, &Command::EnterScrollMode);
    let (_, calls) = handle_key(&mut s, key(BareKey::Enter));
    assert_eq!(
        calls,
        vec![HostCall::HideSelf, HostCall::SwitchToInputMode { mode: InputMode::Scroll }]
    );
    let mut s = palette();
    select(&mut s, &Command::EnterSearchMode);
    let (_, calls) = handle_key(&mut s, key(BareKey::Enter));
    assert_eq!(
        calls,
        vec![HostCall::HideSelf, HostCall::SwitchToInputMode { mode: InputMode::EnterSearch }]
    );
}

#[test]
fn new_session_prompt_creates_named_session() {
    let mut s = palette();
    select(&mut s, &Command::NewSessionPrompt);
    let (_, calls) = handle_key(&mut s, key(BareKey::Enter));
    assert!(calls.is_empty());
    assert_eq!(s.view, PaletteView::NewSessionPrompt { input: String::new() });
    // '?' is typed, not a shortcut, inside the prompt.
    type_text(&mut s, "  scratch? ");
    handle_key(&mut s, key(BareKey::Backspace));
    handle_key(&mut s, key(BareKey::Backspace));
    assert_eq!(s.view, PaletteView::NewSessionPrompt { input: "  scratch".to_string() });
    let (h, calls) = handle_key(&mut s, key(BareKey::Enter));
    assert!(h);
    assert_eq!(
        calls,
        vec![HostCall::SwitchSession { name: Some("scratch".to_string()) }, HostCall::HideSelf]
    );
    assert_eq!(s.view, PaletteView::List);
    assert_eq!(s.search_term, "");
}

#[test]
fn new_session_prompt_with_blank_name_auto_names() {
    let mut s = palette();
    s.view = PaletteView::NewSessionPrompt { input: "   ".to_string() };
    let (_, calls) = handle_key(&mut s, key(BareKey::Char('\n')));
    assert_eq!(calls, vec![HostCall::SwitchSession { name: None }, HostCall::HideSelf]);
}

#[test]
fn prompt_esc_keeps_search_term() {
    let mut s = palette();
    type_text(&mut s, "new");
    let selected = s.selected_index;
    let filtered_len = s.filtered_commands.len();
    s.view = PaletteView::NewSessionPrompt { input: "abc".to_string() };
    let (h, calls) = handle_key(&mut s, key(BareKey::Esc));
    assert!(h);
    assert!(calls.is_empty());
    assert_eq!(s.view, PaletteView::List);
    assert_eq!(s.search_term, "new");
    assert_eq!(s.selected_index, selected);
    assert_eq!(s.filtered_commands.len(), filtered_len);
}

#[test]
fn prompt_ignores_modified_and_other_keys() {
    let mut s = palette();
    s.view = PaletteView::NewSessionPrompt { input: "a".to_string() };
    let (h, _) = handle_key(&mut s, ctrl('c'));
    assert!(!h);
    let (h, _) = handle_key(&mut s, key(BareKey::Up));
    assert!(!h);
    assert_eq!(s.view, PaletteView::NewSessionPrompt { input: "a".to_string() });
    handle_key(&mut s, key(BareKey::Backspace));
    handle_key(&mut s, key(BareKey::Backspace));
    assert_eq!(s.view, PaletteView::NewSessionPrompt { input: String::new() });
}

#[test]
fn rename_prompt_starts_with_current_name() {
    let mut s = palette();
    select(&mut s, &Command::RenameSessionPrompt);
    let (_, calls) = handle_key(&mut s, key(BareKey::Enter));
    assert!(calls.is_empty());
    assert_eq!(s.view, PaletteView::RenameSessionPrompt { input: "main".to_string() });
    type_text(&mut s, "-2 ");
    let (_, calls) = handle_key(&mut s, key(BareKey::Enter));
    assert_eq!(
        calls,
        vec![HostCall::RenameSession { new_name: "main-2".to_string() }, HostCall::HideSelf]
    );
}

#[test]
fn rename_prompt_without_current_session_is_empty() {
    let mut s = palette();
    s.sessions = vec![];
    s.refilter();
    select(&mut s, &Command::RenameSessionPrompt);
    handle_key(&mut s, key(BareKey::Enter));
    assert_eq!(s.view, PaletteView::RenameSessionPrompt { input: String::new() });
}

#[test]
fn rename_prompt_with_blank_name_only_hides() {
    let mut s = palette();
    s.view = PaletteView::RenameSessionPrompt { input: " \t".to_string() };
    let (_, calls) = handle_key(&mut s, key(BareKey::Enter));
    assert_eq!(calls, vec![HostCall::HideSelf]);
    assert_eq!(s.view, PaletteView::List);
}
