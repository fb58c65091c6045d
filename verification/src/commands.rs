//! The palette's commands: which ones are offered for the current tabs and
//! sessions, how each is labelled, and how a search term filters and ranks
//! them.

use vstd::prelude::*;
use vstd::string::*;
use fuzzy_matcher::skim::SkimMatcherV2;
use fuzzy_matcher::FuzzyMatcher;
use crate::ranking::{
    has_score, insert_ranked, lemma_sort_by_score_permutes, lemma_sort_by_score_sorted,
    lemma_sort_by_score_stable, sort_by_score, sorted_by_score,
};
use crate::state::{SessionInfo, SessionModel, TabInfo, TabModel, PaneManifest};
use crate::text::{decimal, push_decimal};

verus! {

broadcast use vstd::string::group_string_axioms;

/// A palette command.
#[derive(Debug, PartialEq, Eq)]
pub enum Command {
    SwitchToTab { name: String, position: usize },
    CloseTab { name: String, position: usize },
    SwitchSession { name: String },
    ResumeSession { name: String },
    NewSession,
    NewSessionPrompt,
    RenameSessionPrompt,
    EnterScrollMode,
    EnterSearchMode,
    ShowKeybindings,
}

pub enum CommandModel {
    SwitchToTab { name: Seq<char>, position: usize },
    CloseTab { name: Seq<char>, position: usize },
    SwitchSession { name: Seq<char> },
    ResumeSession { name: Seq<char> },
    NewSession,
    NewSessionPrompt,
    RenameSessionPrompt,
    EnterScrollMode,
    EnterSearchMode,
    ShowKeybindings,
}

impl View for Command {
    type V = CommandModel;

    open spec fn view(&self) -> CommandModel {
        match self {
            Command::SwitchToTab { name, position } => CommandModel::SwitchToTab {
                name: name@,
                position: *position,
            },
            Command::CloseTab { name, position } => CommandModel::CloseTab {
                name: name@,
                position: *position,
            },
            Command::SwitchSession { name } => CommandModel::SwitchSession { name: name@ },
            Command::ResumeSession { name } => CommandModel::ResumeSession { name: name@ },
            Command::NewSession => CommandModel::NewSession,
            Command::NewSessionPrompt => CommandModel::NewSessionPrompt,
            Command::RenameSessionPrompt => CommandModel::RenameSessionPrompt,
            Command::EnterScrollMode => CommandModel::EnterScrollMode,
            Command::EnterSearchMode => CommandModel::EnterSearchMode,
            Command::ShowKeybindings => CommandModel::ShowKeybindings,
        }
    }
}

impl DeepView for Command {
    type V = CommandModel;

    open spec fn deep_view(&self) -> CommandModel {
        self@
    }
}

/// A command that matched the search term, with its score and the positions
/// of the label's characters that matched.
#[derive(Debug, PartialEq, Eq)]
pub struct ScoredCommand {
    pub command: Command,
    pub score: i64,
    pub match_indices: Vec<usize>,
}

pub struct ScoredModel {
    pub command: CommandModel,
    pub score: i64,
    pub match_indices: Seq<usize>,
}

impl View for ScoredCommand {
    type V = ScoredModel;

    open spec fn view(&self) -> ScoredModel {
        ScoredModel { command: self.command@, score: self.score, match_indices: self.match_indices@ }
    }
}

impl DeepView for ScoredCommand {
    type V = ScoredModel;

    open spec fn deep_view(&self) -> ScoredModel {
        self@
    }
}

/// The 1-based number of the tab at 0-based `position`, as the shipped
/// (release) build computes `position + 1`.
pub open spec fn tab_number(position: usize) -> usize {
    if position == usize::MAX {
        0
    } else {
        (position + 1) as usize
    }
}

pub open spec fn label_spec(c: CommandModel) -> Seq<char> {
    match c {
        CommandModel::SwitchToTab { name, position } => "Switch to tab: "@ + name + " ("@
            + decimal(tab_number(position) as nat) + ")"@,
        CommandModel::CloseTab { name, position } => "Close tab: "@ + name + " ("@ + decimal(
            tab_number(position) as nat,
        ) + ")"@,
        CommandModel::SwitchSession { name } => "Switch to session: "@ + name,
        CommandModel::ResumeSession { name } => "Resume session: "@ + name,
        CommandModel::NewSession => "New session (auto-named)"@,
        CommandModel::NewSessionPrompt => "New or switch to session (by name)..."@,
        CommandModel::RenameSessionPrompt => "Rename current session..."@,
        CommandModel::EnterScrollMode => "Enter scroll mode"@,
        CommandModel::EnterSearchMode => "Enter search mode"@,
        CommandModel::ShowKeybindings => "Show all keybindings"@,
    }
}

pub open spec fn category_spec(c: CommandModel) -> Seq<char> {
    match c {
        CommandModel::SwitchToTab { .. } | CommandModel::CloseTab { .. } => "Tab"@,
        CommandModel::SwitchSession { .. }
        | CommandModel::ResumeSession { .. }
        | CommandModel::NewSession
        | CommandModel::NewSessionPrompt
        | CommandModel::RenameSessionPrompt => "Session"@,
        CommandModel::EnterScrollMode | CommandModel::EnterSearchMode => "Mode"@,
        CommandModel::ShowKeybindings => "Help"@,
    }
}

fn tab_number_exec(position: usize) -> (n: usize)
    ensures
        n == tab_number(position),
{
    if position == usize::MAX {
        0
    } else {
        position + 1
    }
}

impl Command {
    /// A copy of the command.
    pub fn duplicate(&self) -> (r: Command)
        ensures
            r == *self,
    {
        match self {
            Command::SwitchToTab { name, position } => Command::SwitchToTab {
                name: name.clone(),
                position: *position,
            },
            Command::CloseTab { name, position } => Command::CloseTab {
                name: name.clone(),
                position: *position,
            },
            Command::SwitchSession { name } => Command::SwitchSession { name: name.clone() },
            Command::ResumeSession { name } => Command::ResumeSession { name: name.clone() },
            Command::NewSession => Command::NewSession,
            Command::NewSessionPrompt => Command::NewSessionPrompt,
            Command::RenameSessionPrompt => Command::RenameSessionPrompt,
            Command::EnterScrollMode => Command::EnterScrollMode,
            Command::EnterSearchMode => Command::EnterSearchMode,
            Command::ShowKeybindings => Command::ShowKeybindings,
        }
    }

    /// The text the palette shows for the command, and matches searches
    /// against.
    pub fn label(&self) -> (r: String)
        ensures
            r@ == label_spec(self@),
    {
        match self {
            Command::SwitchToTab { name, position } => {
                let mut s = "Switch to tab: ".to_string();
                s.append(name.as_str());
                s.append(" (");
                push_decimal(&mut s, tab_number_exec(*position));
                s.append(")");
                s
            },
            Command::CloseTab { name, position } => {
                let mut s = "Close tab: ".to_string();
                s.append(name.as_str());
                s.append(" (");
                push_decimal(&mut s, tab_number_exec(*position));
                s.append(")");
                s
            },
            Command::SwitchSession { name } => {
                let mut s = "Switch to session: ".to_string();
                s.append(name.as_str());
                s
            },
            Command::ResumeSession { name } => {
                let mut s = "Resume session: ".to_string();
                s.append(name.as_str());
                s
            },
            Command::NewSession => "New session (auto-named)".to_string(),
            Command::NewSessionPrompt => "New or switch to session (by name)...".to_string(),
            Command::RenameSessionPrompt => "Rename current session...".to_string(),
            Command::EnterScrollMode => "Enter scroll mode".to_string(),
            Command::EnterSearchMode => "Enter search mode".to_string(),
            Command::ShowKeybindings => "Show all keybindings".to_string(),
        }
    }

    /// The group the command belongs to, shown in brackets before its label.
    pub fn category(&self) -> (r: &'static str)
        ensures
            r@ == category_spec(self@),
    {
        match self {
            Command::SwitchToTab { .. } | Command::CloseTab { .. } => "Tab",
            Command::SwitchSession { .. }
            | Command::ResumeSession { .. }
            | Command::NewSession
            | Command::NewSessionPrompt
            | Command::RenameSessionPrompt => "Session",
            Command::EnterScrollMode | Command::EnterSearchMode => "Mode",
            Command::ShowKeybindings => "Help",
        }
    }
}

/// The commands offered whatever the tabs and sessions are, in their order.
pub open spec fn static_commands() -> Seq<CommandModel> {
    seq![
        CommandModel::NewSession,
        CommandModel::NewSessionPrompt,
        CommandModel::RenameSessionPrompt,
        CommandModel::EnterScrollMode,
        CommandModel::EnterSearchMode,
        CommandModel::ShowKeybindings,
    ]
}

/// For each tab in order: switch to it, then close it.
pub open spec fn tab_commands(tabs: Seq<TabModel>) -> Seq<CommandModel>
    decreases tabs.len(),
{
    if tabs.len() == 0 {
        Seq::empty()
    } else {
        let t = tabs.last();
        tab_commands(tabs.drop_last()) + seq![
            CommandModel::SwitchToTab { name: t.name, position: t.position },
            CommandModel::CloseTab { name: t.name, position: t.position },
        ]
    }
}

/// A switch command for each live session other than the current one.
pub open spec fn session_commands(sessions: Seq<SessionModel>) -> Seq<CommandModel>
    decreases sessions.len(),
{
    if sessions.len() == 0 {
        Seq::empty()
    } else {
        let rest = session_commands(sessions.drop_last());
        if sessions.last().is_current_session {
            rest
        } else {
            rest.push(CommandModel::SwitchSession { name: sessions.last().name })
        }
    }
}

/// Some live session has this name.
pub open spec fn is_live(sessions: Seq<SessionModel>, name: Seq<char>) -> bool {
    exists|i: int| 0 <= i < sessions.len() && #[trigger] sessions[i].name == name
}

/// A resume command for each resurrectable session that is not also live.
pub open spec fn resume_commands(
    resurrectable: Seq<Seq<char>>,
    sessions: Seq<SessionModel>,
) -> Seq<CommandModel>
    decreases resurrectable.len(),
{
    if resurrectable.len() == 0 {
        Seq::empty()
    } else {
        let rest = resume_commands(resurrectable.drop_last(), sessions);
        if is_live(sessions, resurrectable.last()) {
            rest
        } else {
            rest.push(CommandModel::ResumeSession { name: resurrectable.last() })
        }
    }
}

/// Every command the palette offers: the fixed ones, then per tab, then per
/// live session, then per resurrectable session.
pub open spec fn all_commands(
    tabs: Seq<TabModel>,
    sessions: Seq<SessionModel>,
    resurrectable: Seq<Seq<char>>,
) -> Seq<CommandModel> {
    static_commands() + tab_commands(tabs) + session_commands(sessions) + resume_commands(
        resurrectable,
        sessions,
    )
}

/// Each tab gives two commands, in tab order: switch to it, then close it.
pub proof fn law_tab_commands(tabs: Seq<TabModel>)
    ensures
        tab_commands(tabs).len() == 2 * tabs.len(),
        forall|i: int|
            0 <= i < tabs.len() ==> #[trigger] tab_commands(tabs)[2 * i] == (
            CommandModel::SwitchToTab { name: tabs[i].name, position: tabs[i].position })
                && tab_commands(tabs)[2 * i + 1] == (CommandModel::CloseTab {
                name: tabs[i].name,
                position: tabs[i].position,
            }),
    decreases tabs.len(),
{
    if tabs.len() > 0 {
        law_tab_commands(tabs.drop_last());
        assert forall|i: int| 0 <= i < tabs.len() implies #[trigger] tab_commands(tabs)[2 * i] == (
        CommandModel::SwitchToTab { name: tabs[i].name, position: tabs[i].position })
            && tab_commands(tabs)[2 * i + 1] == (CommandModel::CloseTab {
            name: tabs[i].name,
            position: tabs[i].position,
        }) by {
            if i < tabs.len() - 1 {
                assert(tabs.drop_last()[i] == tabs[i]);
                assert(tab_commands(tabs.drop_last())[2 * i] == tab_commands(tabs)[2 * i]);
                assert(tab_commands(tabs.drop_last())[2 * i + 1] == tab_commands(tabs)[2 * i + 1]);
            }
        }
    }
}

/// The session switches offered are exactly those to sessions other than
/// the current one: each names a non-current session, and each non-current
/// session is offered.
pub proof fn law_session_commands(sessions: Seq<SessionModel>)
    ensures
        forall|k: int|
            0 <= k < session_commands(sessions).len() ==> exists|j: int|
                0 <= j < sessions.len() && !sessions[j].is_current_session
                    && #[trigger] session_commands(sessions)[k] == (CommandModel::SwitchSession {
                    name: sessions[j].name,
                }),
        forall|j: int|
            0 <= j < sessions.len() && !sessions[j].is_current_session ==> #[trigger] session_commands(
                sessions,
            ).contains(CommandModel::SwitchSession { name: sessions[j].name }),
    decreases sessions.len(),
{
    if sessions.len() > 0 {
        let rest = sessions.drop_last();
        law_session_commands(rest);
        let sc = session_commands(sessions);
        let rc = session_commands(rest);
        assert forall|k: int| 0 <= k < sc.len() implies exists|j: int|
            0 <= j < sessions.len() && !sessions[j].is_current_session && #[trigger] sc[k] == (
            CommandModel::SwitchSession { name: sessions[j].name }) by {
            if k < rc.len() {
                assert(sc[k] == rc[k]);
                let j = choose|j: int|
                    0 <= j < rest.len() && !rest[j].is_current_session && #[trigger] rc[k] == (
                    CommandModel::SwitchSession { name: rest[j].name });
                assert(rest[j] == sessions[j]);
            } else {
                assert(sc[k] == CommandModel::SwitchSession {
                    name: sessions[sessions.len() - 1].name,
                });
            }
        }
        assert forall|j: int| 0 <= j < sessions.len() && !sessions[j].is_current_session implies #[trigger] sc.contains(
            CommandModel::SwitchSession { name: sessions[j].name },
        ) by {
            if j < rest.len() {
                assert(rest[j] == sessions[j]);
                assert(rc.contains(CommandModel::SwitchSession { name: rest[j].name }));
                let k = choose|k: int|
                    0 <= k < rc.len() && rc[k] == CommandModel::SwitchSession { name: rest[j].name };
                assert(sc[k] == rc[k]);
            } else {
                assert(sc[sc.len() - 1] == CommandModel::SwitchSession { name: sessions[j].name });
            }
        }
    }
}

/// The resume commands offered are exactly those for resurrectable sessions
/// that are not also live: each names such a session, and each such session
/// is offered.
pub proof fn law_resume_commands(resurrectable: Seq<Seq<char>>, sessions: Seq<SessionModel>)
    ensures
        forall|k: int|
            0 <= k < resume_commands(resurrectable, sessions).len() ==> exists|j: int|
                0 <= j < resurrectable.len() && !is_live(sessions, resurrectable[j])
                    && #[trigger] resume_commands(resurrectable, sessions)[k] == (
                CommandModel::ResumeSession { name: resurrectable[j] }),
        forall|j: int|
            0 <= j < resurrectable.len() && !is_live(sessions, resurrectable[j]) ==> #[trigger] resume_commands(
                resurrectable,
                sessions,
            ).contains(CommandModel::ResumeSession { name: resurrectable[j] }),
    decreases resurrectable.len(),
{
    if resurrectable.len() > 0 {
        let rest = resurrectable.drop_last();
        law_resume_commands(rest, sessions);
        let sc = resume_commands(resurrectable, sessions);
        let rc = resume_commands(rest, sessions);
        assert forall|k: int| 0 <= k < sc.len() implies exists|j: int|
            0 <= j < resurrectable.len() && !is_live(sessions, resurrectable[j]) && #[trigger] sc[k]
                == (CommandModel::ResumeSession { name: resurrectable[j] }) by {
            if k < rc.len() {
                assert(sc[k] == rc[k]);
                let j = choose|j: int|
                    0 <= j < rest.len() && !is_live(sessions, rest[j]) && #[trigger] rc[k] == (
                    CommandModel::ResumeSession { name: rest[j] });
                assert(rest[j] == resurrectable[j]);
            } else {
                assert(sc[k] == CommandModel::ResumeSession {
                    name: resurrectable[resurrectable.len() - 1],
                });
            }
        }
        assert forall|j: int| 0 <= j < resurrectable.len() && !is_live(sessions, resurrectable[j]) implies #[trigger] sc.contains(
            CommandModel::ResumeSession { name: resurrectable[j] },
        ) by {
            if j < rest.len() {
                assert(rest[j] == resurrectable[j]);
                assert(rc.contains(CommandModel::ResumeSession { name: rest[j] }));
                let k = choose|k: int|
                    0 <= k < rc.len() && rc[k] == CommandModel::ResumeSession { name: rest[j] };
                assert(sc[k] == rc[k]);
            } else {
                assert(sc[sc.len() - 1] == CommandModel::ResumeSession { name: resurrectable[j] });
            }
        }
    }
}

fn has_live_session(sessions: &[SessionInfo], name: &String) -> (b: bool)
    ensures
        b == is_live(sessions.deep_view(), name@),
{
    let mut i: usize = 0;
    while i < sessions.len()
        invariant
            i <= sessions.len(),
            forall|j: int| 0 <= j < i ==> sessions.deep_view()[j].name != name@,
        decreases sessions.len() - i,
    {
        if sessions[i].name == *name {
            assert(sessions.deep_view()[i as int].name == name@);
            return true;
        }
        i = i + 1;
    }
    false
}

/// Builds the palette's commands from the host's tabs and sessions; the pane
/// manifest plays no part.
pub fn build_commands(
    tabs: &[TabInfo],
    pane_manifest: &Option<PaneManifest>,
    sessions: &[SessionInfo],
    resurrectable_sessions: &[String],
) -> (commands: Vec<Command>)
    ensures
        commands.deep_view() == all_commands(
            tabs.deep_view(),
            sessions.deep_view(),
            resurrectable_sessions.deep_view(),
        ),
{
    let mut commands: Vec<Command> = Vec::new();
    commands.push(Command::NewSession);
    commands.push(Command::NewSessionPrompt);
    commands.push(Command::RenameSessionPrompt);
    commands.push(Command::EnterScrollMode);
    commands.push(Command::EnterSearchMode);
    commands.push(Command::ShowKeybindings);
    assert(commands.deep_view() =~= static_commands());
    let ghost tv = tabs.deep_view();
    let mut i: usize = 0;
    while i < tabs.len()
        invariant
            i <= tabs.len(),
            tv == tabs.deep_view(),
            commands.deep_view() =~= static_commands() + tab_commands(tv.take(i as int)),
        decreases tabs.len() - i,
    {
        let ghost before = commands.deep_view();
        commands.push(
            Command::SwitchToTab { name: tabs[i].name.clone(), position: tabs[i].position },
        );
        commands.push(Command::CloseTab { name: tabs[i].name.clone(), position: tabs[i].position });
        assert(tv.take(i + 1).drop_last() =~= tv.take(i as int));
        assert(tv.take(i + 1).last() == tv[i as int]);
        assert(commands.deep_view() =~= before + seq![
            CommandModel::SwitchToTab { name: tv[i as int].name, position: tv[i as int].position },
            CommandModel::CloseTab { name: tv[i as int].name, position: tv[i as int].position },
        ]);
        i = i + 1;
    }
    assert(tv.take(tabs.len() as int) =~= tv);
    let ghost sv = sessions.deep_view();
    let ghost base = commands.deep_view();
    let mut i: usize = 0;
    while i < sessions.len()
        invariant
            i <= sessions.len(),
            sv == sessions.deep_view(),
            commands.deep_view() =~= base + session_commands(sv.take(i as int)),
        decreases sessions.len() - i,
    {
        assert(sv.take(i + 1).drop_last() =~= sv.take(i as int));
        assert(sv.take(i + 1).last() == sv[i as int]);
        if !sessions[i].is_current_session {
            let ghost before = commands.deep_view();
            commands.push(Command::SwitchSession { name: sessions[i].name.clone() });
            assert(commands.deep_view() =~= before.push(
                CommandModel::SwitchSession { name: sv[i as int].name },
            ));
        }
        i = i + 1;
    }
    assert(sv.take(sessions.len() as int) =~= sv);
    let ghost rv = resurrectable_sessions.deep_view();
    let ghost base = commands.deep_view();
    let mut i: usize = 0;
    while i < resurrectable_sessions.len()
        invariant
            i <= resurrectable_sessions.len(),
            rv == resurrectable_sessions.deep_view(),
            sv == sessions.deep_view(),
            commands.deep_view() =~= base + resume_commands(rv.take(i as int), sv),
        decreases resurrectable_sessions.len() - i,
    {
        assert(rv.take(i + 1).drop_last() =~= rv.take(i as int));
        assert(rv.take(i + 1).last() == rv[i as int]);
        if !has_live_session(sessions, &resurrectable_sessions[i]) {
            let ghost before = commands.deep_view();
            commands.push(Command::ResumeSession { name: resurrectable_sessions[i].clone() });
            assert(commands.deep_view() =~= before.push(
                CommandModel::ResumeSession { name: rv[i as int] },
            ));
        }
        i = i + 1;
    }
    assert(rv.take(resurrectable_sessions.len() as int) =~= rv);
    commands
}

/// What fuzzy-matcher's `SkimMatcherV2`, in its default configuration, gives
/// for a label (`choice`) and a search term (`pattern`): `None` when the term
/// does not match, else the score and the matched character positions.
pub uninterp spec fn skim_fuzzy_indices(choice: Seq<char>, pattern: Seq<char>) -> Option<
    (i64, Seq<usize>),
>;

/// `SkimMatcherV2::default().fuzzy_indices(choice, pattern)` from fuzzy-matcher.
/// The contract claims only that the result is the one `skim_fuzzy_indices`
/// names for these two strings: the matcher's scoring is a function of its
/// arguments (its caches change no result). What the score and positions are
/// is left unsaid.
#[verifier::external_body]
fn fuzzy_indices(choice: &str, pattern: &str) -> (r: Option<(i64, Vec<usize>)>)
    ensures
        r.deep_view() == skim_fuzzy_indices(choice@, pattern@),
{
    SkimMatcherV2::default().fuzzy_indices(choice, pattern)
}

/// The commands for which the matcher gave a result, in order, each with its
/// score and positions.
pub open spec fn matched(
    commands: Seq<CommandModel>,
    results: Seq<Option<(i64, Seq<usize>)>>,
) -> Seq<ScoredModel>
    decreases commands.len(),
{
    if commands.len() == 0 {
        Seq::empty()
    } else {
        let rest = matched(commands.drop_last(), results.drop_last());
        match results.last() {
            Some(r) => rest.push(
                ScoredModel { command: commands.last(), score: r.0, match_indices: r.1 },
            ),
            None => rest,
        }
    }
}

/// All commands unranked: score 0 and no matched positions.
pub open spec fn unscored(commands: Seq<CommandModel>) -> Seq<ScoredModel> {
    Seq::new(
        commands.len(),
        |i: int| ScoredModel { command: commands[i], score: 0, match_indices: Seq::empty() },
    )
}

/// The matcher's result for each command's label against `query`.
pub open spec fn match_results(commands: Seq<CommandModel>, query: Seq<char>) -> Seq<
    Option<(i64, Seq<usize>)>,
> {
    Seq::new(commands.len(), |i: int| skim_fuzzy_indices(label_spec(commands[i]), query))
}

/// The search result for `query`: with no query every command, unscored, in
/// order; otherwise the matching commands, best score first, ties in their
/// original order.
pub open spec fn filtered(commands: Seq<CommandModel>, query: Seq<char>) -> Seq<ScoredModel> {
    if query.len() == 0 {
        unscored(commands)
    } else {
        sort_by_score(matched(commands, match_results(commands, query)))
    }
}

/// Each entry of `matched` is a command of the list carrying exactly the
/// result the matcher gave for that command.
proof fn lemma_matched_entries(
    commands: Seq<CommandModel>,
    results: Seq<Option<(i64, Seq<usize>)>>,
    query: Seq<char>,
)
    requires
        results.len() == commands.len(),
        forall|i: int|
            0 <= i < commands.len() ==> #[trigger] results[i] == skim_fuzzy_indices(
                label_spec(commands[i]),
                query,
            ),
    ensures
        forall|k: int|
            0 <= k < matched(commands, results).len() ==> skim_fuzzy_indices(
                label_spec(#[trigger] matched(commands, results)[k].command),
                query,
            ) == Some((matched(commands, results)[k].score, matched(commands, results)[k].match_indices)),
    decreases commands.len(),
{
    if commands.len() > 0 {
        let cs = commands.drop_last();
        let rs = results.drop_last();
        assert forall|i: int| 0 <= i < cs.len() implies #[trigger] rs[i] == skim_fuzzy_indices(
            label_spec(cs[i]),
            query,
        ) by {
            assert(rs[i] == results[i]);
            assert(cs[i] == commands[i]);
        }
        lemma_matched_entries(cs, rs, query);
        assert(results.last() == results[commands.len() - 1]);
    }
}

/// For a non-empty search term, every entry of the result carries exactly the
/// score and matched positions that the matcher gives for that command's label
/// and the term; with the ranking being sorted, the best match by the
/// matcher's score comes first.
pub proof fn law_search_scores_are_the_matchers(commands: Seq<CommandModel>, query: Seq<char>)
    requires
        query.len() > 0,
    ensures
        forall|k: int|
            0 <= k < filtered(commands, query).len() ==> skim_fuzzy_indices(
                label_spec(#[trigger] filtered(commands, query)[k].command),
                query,
            ) == Some(
                (filtered(commands, query)[k].score, filtered(commands, query)[k].match_indices),
            ),
        sorted_by_score(filtered(commands, query)),
        forall|k: int|
            0 <= k < filtered(commands, query).len() ==> commands.contains(
                #[trigger] filtered(commands, query)[k].command,
            ),
        // Every command the matcher accepts is in the result, with its score
        // and positions.
        forall|i: int|
            0 <= i < commands.len() && (#[trigger] skim_fuzzy_indices(
                label_spec(commands[i]),
                query,
            )) is Some ==> filtered(commands, query).contains(
                ScoredModel {
                    command: commands[i],
                    score: skim_fuzzy_indices(label_spec(commands[i]), query).unwrap().0,
                    match_indices: skim_fuzzy_indices(label_spec(commands[i]), query).unwrap().1,
                },
            ),
{
    let rs = match_results(commands, query);
    let m = matched(commands, rs);
    let r = filtered(commands, query);
    lemma_matched_entries(commands, rs, query);
    lemma_matched_from_commands(commands, rs);
    lemma_matched_complete(commands, rs);
    lemma_sort_by_score_sorted(m);
    lemma_sort_by_score_permutes(m);
    assert forall|k: int| 0 <= k < r.len() implies m.contains(#[trigger] r[k]) by {
        r.to_multiset_ensures();
        m.to_multiset_ensures();
        assert(r == sort_by_score(m));
        assert(r.to_multiset() == m.to_multiset());
        assert(r.contains(r[k]));
        assert(r.to_multiset().count(r[k]) > 0);
        assert(m.to_multiset().count(r[k]) > 0);
    }
    assert forall|k: int| 0 <= k < r.len() implies skim_fuzzy_indices(
        label_spec(#[trigger] r[k].command),
        query,
    ) == Some((r[k].score, r[k].match_indices)) && commands.contains(r[k].command) by {
        assert(m.contains(r[k]));
        let j = choose|j: int| 0 <= j < m.len() && m[j] == r[k];
        assert(m[j].command == r[k].command);
    }
    assert forall|i: int|
        0 <= i < commands.len() && (#[trigger] skim_fuzzy_indices(
            label_spec(commands[i]),
            query,
        )) is Some implies r.contains(
        ScoredModel {
            command: commands[i],
            score: skim_fuzzy_indices(label_spec(commands[i]), query).unwrap().0,
            match_indices: skim_fuzzy_indices(label_spec(commands[i]), query).unwrap().1,
        },
    ) by {
        let x = ScoredModel {
            command: commands[i],
            score: rs[i].unwrap().0,
            match_indices: rs[i].unwrap().1,
        };
        assert(m.contains(x));
        r.to_multiset_ensures();
        m.to_multiset_ensures();
        assert(r.to_multiset() == m.to_multiset());
        assert(m.to_multiset().count(x) > 0);
        assert(r.to_multiset().count(x) > 0);
    }
}

proof fn lemma_matched_complete(
    commands: Seq<CommandModel>,
    results: Seq<Option<(i64, Seq<usize>)>>,
)
    requires
        results.len() == commands.len(),
    ensures
        forall|i: int|
            0 <= i < commands.len() && (#[trigger] results[i]) is Some ==> matched(
                commands,
                results,
            ).contains(
                ScoredModel {
                    command: commands[i],
                    score: results[i].unwrap().0,
                    match_indices: results[i].unwrap().1,
                },
            ),
    decreases commands.len(),
{
    if commands.len() > 0 {
        let cs = commands.drop_last();
        let rs = results.drop_last();
        lemma_matched_complete(cs, rs);
        let m = matched(commands, results);
        let mr = matched(cs, rs);
        assert forall|i: int| 0 <= i < commands.len() && (#[trigger] results[i]) is Some implies m.contains(
            ScoredModel {
                command: commands[i],
                score: results[i].unwrap().0,
                match_indices: results[i].unwrap().1,
            },
        ) by {
            let x = ScoredModel {
                command: commands[i],
                score: results[i].unwrap().0,
                match_indices: results[i].unwrap().1,
            };
            if i < cs.len() {
                assert(rs[i] == results[i]);
                assert(cs[i] == commands[i]);
                assert(mr.contains(x));
                let j = choose|j: int| 0 <= j < mr.len() && mr[j] == x;
                assert(m[j] == mr[j]);
            } else {
                assert(results.last() == results[i]);
                assert(m[m.len() - 1] == x);
            }
        }
    }
}

proof fn lemma_matched_from_commands(
    commands: Seq<CommandModel>,
    results: Seq<Option<(i64, Seq<usize>)>>,
)
    requires
        results.len() == commands.len(),
    ensures
        forall|k: int|
            0 <= k < matched(commands, results).len() ==> commands.contains(
                (#[trigger] matched(commands, results)[k]).command,
            ),
    decreases commands.len(),
{
    if commands.len() > 0 {
        let cs = commands.drop_last();
        lemma_matched_from_commands(cs, results.drop_last());
        let m = matched(commands, results);
        assert forall|k: int| 0 <= k < m.len() implies commands.contains(
            (#[trigger] m[k]).command,
        ) by {
            let mr = matched(cs, results.drop_last());
            if k < mr.len() {
                assert(m[k] == mr[k]);
                let j = choose|j: int| 0 <= j < cs.len() && cs[j] == mr[k].command;
                assert(commands[j] == cs[j]);
            } else {
                assert(m[k].command == commands[commands.len() - 1]);
            }
        }
    }
}

/// With no search term every command is listed, in order, unscored. With a
/// term, the result is sorted best score first, holds exactly the commands
/// that matched (each with the matcher's score and positions), and keeps
/// commands of equal score in their original order.
pub proof fn law_search_ranking(commands: Seq<CommandModel>, query: Seq<char>, v: i64)
    ensures
        query.len() == 0 ==> filtered(commands, query).len() == commands.len() && forall|i: int|
            0 <= i < commands.len() ==> (#[trigger] filtered(commands, query)[i]).command
                == commands[i] && filtered(commands, query)[i].score == 0
                && filtered(commands, query)[i].match_indices.len() == 0,
        query.len() > 0 ==> {
            let m = matched(commands, match_results(commands, query));
            &&& sorted_by_score(filtered(commands, query))
            &&& filtered(commands, query).to_multiset() == m.to_multiset()
            &&& filtered(commands, query).filter(has_score(v)) == m.filter(has_score(v))
        },
{
    let m = matched(commands, match_results(commands, query));
    lemma_sort_by_score_sorted(m);
    lemma_sort_by_score_permutes(m);
    lemma_sort_by_score_stable(m, v);
}

/// Keeps the commands that matched (a `Some` in `results`, one entry per
/// command), best score first, ties in their original order.
pub fn rank_matches(commands: &[Command], results: Vec<Option<(i64, Vec<usize>)>>) -> (ranked: Vec<
    ScoredCommand,
>)
    requires
        results.len() == commands.len(),
    ensures
        ranked.deep_view() == sort_by_score(matched(commands.deep_view(), results.deep_view())),
{
    let mut results = results;
    let ghost rv = results.deep_view();
    let ghost cv = commands.deep_view();
    let mut out: Vec<ScoredCommand> = Vec::new();
    let mut i: usize = 0;
    while i < commands.len()
        invariant
            i <= commands.len(),
            results.len() == commands.len(),
            cv == commands.deep_view(),
            rv.len() == cv.len(),
            forall|j: int| i <= j < results.len() ==> #[trigger] results@[j].deep_view() == rv[j],
            out.deep_view() == sort_by_score(matched(cv.take(i as int), rv.take(i as int))),
        decreases commands.len() - i,
    {
        assert(cv.take(i + 1).drop_last() =~= cv.take(i as int));
        assert(rv.take(i + 1).drop_last() =~= rv.take(i as int));
        assert(cv.take(i + 1).last() == cv[i as int]);
        assert(rv.take(i + 1).last() == rv[i as int]);
        let mut taken: Option<(i64, Vec<usize>)> = None;
        results.set_and_swap(i, &mut taken);
        assert(taken.deep_view() == rv[i as int]);
        let ghost m = matched(cv.take(i as int), rv.take(i as int));
        match taken {
            Some((score, indices)) => {
                assert(indices.deep_view() =~= indices@);
                assert(commands@[i as int]@ == cv[i as int]);
                let item = ScoredCommand {
                    command: commands[i].duplicate(),
                    score: score,
                    match_indices: indices,
                };
                assert(matched(cv.take(i + 1), rv.take(i + 1)) == m.push(item@));
                assert(m.push(item@).drop_last() =~= m);
                insert_ranked(&mut out, item);
            },
            None => {
                assert(matched(cv.take(i + 1), rv.take(i + 1)) == m);
            },
        }
        i = i + 1;
    }
    assert(cv.take(commands.len() as int) =~= cv);
    assert(rv.take(commands.len() as int) =~= rv);
    out
}

/// Filters and ranks `commands` by `query`.
pub fn filter_commands(commands: &[Command], query: &str) -> (r: Vec<ScoredCommand>)
    ensures
        r.deep_view() == filtered(commands.deep_view(), query@),
{
    let ghost cv = commands.deep_view();
    if query.is_empty() {
        let mut out: Vec<ScoredCommand> = Vec::new();
        let mut i: usize = 0;
        while i < commands.len()
            invariant
                i <= commands.len(),
                cv == commands.deep_view(),
                out.deep_view() =~= unscored(cv).take(i as int),
            decreases commands.len() - i,
        {
            let item = ScoredCommand {
                command: commands[i].duplicate(),
                score: 0,
                match_indices: Vec::new(),
            };
            let ghost before = out.deep_view();
            out.push(item);
            assert(out.deep_view() =~= before.push(item@));
            i = i + 1;
        }
        assert(unscored(cv).take(commands.len() as int) =~= unscored(cv));
        return out;
    }
    let mut results: Vec<Option<(i64, Vec<usize>)>> = Vec::new();
    let mut i: usize = 0;
    while i < commands.len()
        invariant
            i <= commands.len(),
            cv == commands.deep_view(),
            results.deep_view() =~= match_results(cv, query@).take(i as int),
        decreases commands.len() - i,
    {
        let label = commands[i].label();
        let r = fuzzy_indices(label.as_str(), query);
        let ghost before = results.deep_view();
        results.push(r);
        assert(results.deep_view() =~= before.push(r.deep_view()));
        i = i + 1;
    }
    assert(match_results(cv, query@).take(commands.len() as int) =~= match_results(cv, query@));
    rank_matches(commands, results)
}

} // verus!
