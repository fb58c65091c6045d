use zellij_cmd_k::commands::{build_commands, filter_commands, rank_matches, Command, ScoredCommand};
use zellij_cmd_k::state::{SessionInfo, TabInfo};

fn tab(position: usize, name: &str, active: bool) -> TabInfo {
    TabInfo { position, name: name.to_string(), active }
}

fn session(name: &str, current: bool) -> SessionInfo {
    SessionInfo { name: name.to_string(), is_current_session: current }
}

fn static_commands() -> Vec<Command> {
    vec![
        Command::NewSession,
        Command::NewSessionPrompt,
        Command::RenameSessionPrompt,
        Command::EnterScrollMode,
        Command::EnterSearchMode,
        Command::ShowKeybindings,
    ]
}

#[test]
fn labels_are_written_out() {
    let c = Command::SwitchToTab { name: "editor".to_string(), position: 0 };
    assert_eq!(c.label(), "Switch to tab: editor (1)");
    let c = Command::CloseTab { name: "logs".to_string(), position: 11 };
    assert_eq!(c.label(), "Close tab: logs (12)");
    assert_eq!(
        Command::SwitchSession { name: "work".to_string() }.label(),
        "Switch to session: work"
    );
    assert_eq!(Command::ResumeSession { name: "old".to_string() }.label(), "Resume session: old");
    assert_eq!(Command::NewSession.label(), "New session (auto-named)");
    assert_eq!(Command::NewSessionPrompt.label(), "New or switch to session (by name)...");
    assert_eq!(Command::RenameSessionPrompt.label(), "Rename current session...");
    assert_eq!(Command::EnterScrollMode.label(), "Enter scroll mode");
    assert_eq!(Command::EnterSearchMode.label(), "Enter search mode");
    assert_eq!(Command::ShowKeybindings.label(), "Show all keybindings");
}

#[test]
fn tab_numbers_wrap_like_the_release_build() {
    let c = Command::SwitchToTab { name: "x".to_string(), position: usize::MAX };
    assert_eq!(c.label(), "Switch to tab: x (0)");
}

#[test]
fn categories_group_commands() {
    assert_eq!(Command::SwitchToTab { name: "a".to_string(), position: 0 }.category(), "Tab");
    assert_eq!(Command::CloseTab { name: "a".to_string(), position: 0 }.category(), "Tab");
    assert_eq!(Command::SwitchSession { name: "a".to_string() }.category(), "Session");
    assert_eq!(Command::ResumeSession { name: "a".to_string() }.category(), "Session");
    assert_eq!(Command::NewSession.category(), "Session");
    assert_eq!(Command::NewSessionPrompt.category(), "Session");
    assert_eq!(Command::RenameSessionPrompt.category(), "Session");
    assert_eq!(Command::EnterScrollMode.category(), "Mode");
    assert_eq!(Command::EnterSearchMode.category(), "Mode");
    assert_eq!(Command::ShowKeybindings.category(), "Help");
}

#[test]
fn static_commands_come_first_even_with_nothing_else() {
    let cmds = build_commands(&[], &None, &[], &[]);
    assert_eq!(cmds, static_commands());
}

#[test]
fn build_lists_tabs_then_other_sessions_then_resumable() {
    let tabs = vec![tab(0, "one", true), tab(1, "two", false)];
    let sessions = vec![session("here", true), session("there", false)];
    let resurrectable = vec!["there".to_string(), "gone".to_string()];
    let cmds = build_commands(&tabs, &None, &sessions, &resurrectable);
    let mut expected = static_commands();
    expected.push(Command::SwitchToTab { name: "one".to_string(), position: 0 });
    expected.push(Command::CloseTab { name: "one".to_string(), position: 0 });
    expected.push(Command::SwitchToTab { name: "two".to_string(), position: 1 });
    expected.push(Command::CloseTab { name: "two".to_string(), position: 1 });
    // The current session is not offered.
    expected.push(Command::SwitchSession { name: "there".to_string() });
    // "there" is live, so it is not offered again for resuming.
    expected.push(Command::ResumeSession { name: "gone".to_string() });
    assert_eq!(cmds, expected);
}

#[test]
fn resurrectable_session_is_offered_when_only_one_live_session() {
    let sessions = vec![session("main", true)];
    let resurrectable = vec!["yesterday".to_string()];
    let cmds = build_commands(&[], &None, &sessions, &resurrectable);
    assert_eq!(cmds.len(), 7);
    assert_eq!(cmds[6], Command::ResumeSession { name: "yesterday".to_string() });
}

#[test]
fn empty_query_keeps_every_command_unscored() {
    let cmds = static_commands();
    let out = filter_commands(&cmds, "");
    assert_eq!(out.len(), cmds.len());
    for (i, s) in out.iter().enumerate() {
        assert_eq!(s.command, cmds[i]);
        assert_eq!(s.score, 0);
        assert!(s.match_indices.is_empty());
    }
}

#[test]
fn query_that_matches_nothing_gives_nothing() {
    let cmds = static_commands();
    assert!(filter_commands(&cmds, "qqqqzzzz").is_empty());
}

#[test]
fn query_keeps_only_matching_commands_best_first() {
    let mut cmds = static_commands();
    cmds.push(Command::SwitchToTab { name: "editor".to_string(), position: 0 });
    let out = filter_commands(&cmds, "scroll");
    assert!(!out.is_empty());
    assert_eq!(out[0].command, Command::EnterScrollMode);
    for w in out.windows(2) {
        assert!(w[0].score >= w[1].score);
    }
    for s in &out {
        let label = s.command.label();
        assert!(label.to_lowercase().contains('s'));
        let chars: Vec<char> = label.chars().collect();
        let picked: String = s.match_indices.iter().map(|&i| chars[i]).collect();
        assert_eq!(picked.to_lowercase(), "scroll");
    }
}

#[test]
fn ranking_is_stable_and_best_first() {
    let cmds = vec![
        Command::NewSession,
        Command::EnterScrollMode,
        Command::ShowKeybindings,
        Command::EnterSearchMode,
    ];
    let results = vec![Some((5, vec![0])), None, Some((9, vec![1, 2])), Some((5, vec![3]))];
    let out = rank_matches(&cmds, results);
    let expected = vec![
        ScoredCommand { command: Command::ShowKeybindings, score: 9, match_indices: vec![1, 2] },
        ScoredCommand { command: Command::NewSession, score: 5, match_indices: vec![0] },
        ScoredCommand { command: Command::EnterSearchMode, score: 5, match_indices: vec![3] },
    ];
    assert_eq!(out, expected);
}

#[test]
fn ranking_of_nothing_is_empty() {
    let out = rank_matches(&[], vec![]);
    assert!(out.is_empty());
}

#[test]
fn duplicate_is_equal() {
    let c = Command::CloseTab { name: "t".to_string(), position: 3 };
    assert_eq!(c.duplicate(), c);
}
