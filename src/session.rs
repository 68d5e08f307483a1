use vstd::prelude::*;
use crate::args::{
    project_dir, resolve_dir, AddArgs, AnalyzeArgs, DependencyArgs, DependencyCommands,
    RemoveArgs, UpdateArgs,
};
use crate::catalog::{catalog, suggested_features};
use crate::error::{DepError, DepErrorView, Op};
use crate::invocation::{
    add_args, add_invocation, copy_all, chosen_features, feature_choice, pair_args, pick, picked, single_arg,
    verb_with_name,
};
use crate::manifest::{declared_dependencies, declared_names, manifest_parses};
use crate::names::{name_tokens, parse_name_list};

verus! {

/// Which command a session carries out.
#[derive(Debug, Clone, Copy, PartialEq, Eq, Structural)]
pub enum Kind {
    Add,
    Remove,
    Update,
    Analyze,
}

/// Where a session stands.
#[derive(Debug, Clone, Copy, PartialEq, Eq, Structural)]
pub enum Stage {
    /// The project directory is to be checked for a manifest.
    Locate,
    /// Dependency names are to be asked for on one line.
    AskNames,
    /// The manifest text is to be read.
    ReadManifest,
    /// The dependencies to remove are to be chosen among the declared ones.
    ChooseRemovals,
    /// The named dependencies are worked through one at a time.
    Items,
    /// Everything is to be updated by one invocation.
    UpdateAll,
    /// The audit helper is probed for.
    Probe,
    /// The user is asked whether to install the missing audit helper.
    OfferInstall,
    /// The audit helper is being installed.
    Install,
    /// The dependency tree is printed.
    Tree,
    /// The audit helper is probed for once more.
    Reprobe,
    /// The security audit runs.
    Audit,
    /// The session has finished.
    Done,
}

/// How the external tool's output streams are handled for one invocation.
#[derive(Debug, Clone, Copy, PartialEq, Eq, Structural)]
pub enum Output {
    /// Captured and handed back with the exit status.
    Captured,
    /// Discarded; only the exit status counts.
    Quiet,
    /// Passed straight through to the user's terminal.
    Streamed,
}

/// How a line for the user is coloured.
#[derive(Debug, Clone, Copy, PartialEq, Eq, Structural)]
pub enum Tone {
    Plain,
    Info,
    Success,
    Warning,
    Failure,
}

/// One line for the user: a coloured label, then an uncoloured subject.
#[derive(Debug, Clone)]
pub struct Note {
    pub tone: Tone,
    pub label: String,
    pub subject: String,
}

pub struct NoteView {
    pub tone: Tone,
    pub label: Seq<char>,
    pub subject: Seq<char>,
}

impl View for Note {
    type V = NoteView;

    open spec fn view(&self) -> NoteView {
        NoteView { tone: self.tone, label: self.label@, subject: self.subject@ }
    }
}

/// What the session needs done next.
#[derive(Debug)]
pub enum Action {
    /// Check that `dir` holds a manifest; answer with `ProjectChecked`.
    CheckProject { dir: String },
    /// Ask for a comma-separated line of names; answer with `Line`.
    AskNames,
    /// Read the manifest in `dir`; answer with `ManifestText` or `ManifestUnreadable`.
    ReadManifest { dir: String },
    /// Offer `options` as features of `dependency`; answer with `Chosen`.
    ChooseFeatures { dependency: String, options: Vec<String> },
    /// Offer `candidates` for removal; answer with `Chosen`.
    ChooseRemovals { candidates: Vec<String> },
    /// Ask whether to install the audit helper; answer with `Confirmed`.
    ConfirmInstall,
    /// Run the external tool with `args`, in `dir` when given; answer with
    /// `Exited` or `LaunchFailed`.
    Run { args: Vec<String>, output: Output, dir: Option<String> },
    /// The session is over, with this outcome.
    Finished(Result<(), DepError>),
}

pub enum ActionView {
    CheckProject { dir: Seq<char> },
    AskNames,
    ReadManifest { dir: Seq<char> },
    ChooseFeatures { dependency: Seq<char>, options: Seq<Seq<char>> },
    ChooseRemovals { candidates: Seq<Seq<char>> },
    ConfirmInstall,
    Run { args: Seq<Seq<char>>, output: Output, dir: Option<Seq<char>> },
    Finished(Option<DepErrorView>),
}

pub open spec fn failure_view(r: Result<(), DepError>) -> Option<DepErrorView> {
    match r {
        Ok(_) => None,
        Err(e) => Some(e@),
    }
}

impl View for Action {
    type V = ActionView;

    open spec fn view(&self) -> ActionView {
        match self {
            Action::CheckProject { dir } => ActionView::CheckProject { dir: dir@ },
            Action::AskNames => ActionView::AskNames,
            Action::ReadManifest { dir } => ActionView::ReadManifest { dir: dir@ },
            Action::ChooseFeatures { dependency, options } => ActionView::ChooseFeatures {
                dependency: dependency@,
                options: options.deep_view(),
            },
            Action::ChooseRemovals { candidates } => ActionView::ChooseRemovals {
                candidates: candidates.deep_view(),
            },
            Action::ConfirmInstall => ActionView::ConfirmInstall,
            Action::Run { args, output, dir } => ActionView::Run {
                args: args.deep_view(),
                output: *output,
                dir: dir.deep_view(),
            },
            Action::Finished(r) => ActionView::Finished(failure_view(*r)),
        }
    }
}

/// What the outside world reports back after an action.
#[derive(Debug, Clone)]
pub enum Event {
    /// Whether the project directory holds a manifest.
    ProjectChecked(bool),
    /// The line the user entered.
    Line(String),
    /// The manifest's text.
    ManifestText(String),
    /// The manifest could not be read.
    ManifestUnreadable,
    /// The positions the user checked in the offered list.
    Chosen(Vec<usize>),
    /// The user's yes or no.
    Confirmed(bool),
    /// The prompt could not be completed.
    PromptFailed,
    /// The tool ran and exited; the streams are empty unless captured.
    Exited { success: bool, stdout: String, stderr: String },
    /// The tool could not be launched.
    LaunchFailed,
}

/// The abstract state of a session.
pub struct SessionView {
    pub stage: Stage,
    pub kind: Kind,
    pub dir: Seq<char>,
    /// The dependencies being worked through, or the removal candidates.
    pub names: Seq<Seq<char>>,
    pub dev: bool,
    pub features: Option<Seq<char>>,
    pub version: Option<Seq<char>>,
    /// Position in `names` of the dependency being worked on.
    pub next: nat,
    /// The feature choice made for that dependency, once made.
    pub chosen: Option<Option<Seq<char>>>,
    /// Whether the audit helper answered the first probe.
    pub audit_ready: bool,
    /// Why the session failed, once done.
    pub failure: Option<DepErrorView>,
}

/// A dependency-command session: the decisions of one command, from locating
/// the project to the last tool invocation.
pub struct Session {
    stage: Stage,
    kind: Kind,
    dir: String,
    names: Vec<String>,
    dev: bool,
    features: Option<String>,
    version: Option<String>,
    next: usize,
    chosen: Option<Option<String>>,
    audit_ready: bool,
    failure: Option<DepError>,
}

impl View for Session {
    type V = SessionView;

    closed spec fn view(&self) -> SessionView {
        SessionView {
            stage: self.stage,
            kind: self.kind,
            dir: self.dir@,
            names: self.names.deep_view(),
            dev: self.dev,
            features: self.features.deep_view(),
            version: self.version.deep_view(),
            next: self.next as nat,
            chosen: self.chosen.deep_view(),
            audit_ready: self.audit_ready,
            failure: match self.failure {
                Some(e) => Some(e@),
                None => None,
            },
        }
    }
}

/// The session's invariant: before the project is located no item has been
/// worked on, and while it works through items, the position points at one.
pub open spec fn well_formed(s: SessionView) -> bool {
    &&& s.stage == Stage::Locate ==> s.next == 0
    &&& s.stage == Stage::Items ==> s.next < s.names.len()
}

/// A fresh session of command `kind`, before the project is located.
pub open spec fn start(
    kind: Kind,
    path: Option<Seq<char>>,
    names: Seq<Seq<char>>,
    dev: bool,
    features: Option<Seq<char>>,
    version: Option<Seq<char>>,
) -> SessionView {
    SessionView {
        stage: Stage::Locate,
        kind,
        dir: project_dir(path),
        names,
        dev,
        features,
        version,
        next: 0,
        chosen: None,
        audit_ready: false,
        failure: None,
    }
}

/// `s` finished, successfully when `failure` is `None`.
pub open spec fn finish(s: SessionView, failure: Option<DepErrorView>) -> SessionView {
    SessionView { stage: Stage::Done, failure, ..s }
}

/// `s` moved on to `stage`.
pub open spec fn enter(s: SessionView, stage: Stage) -> SessionView {
    SessionView { stage, ..s }
}

/// `s` working through `names` from the first.
pub open spec fn work_on(s: SessionView, names: Seq<Seq<char>>) -> SessionView {
    SessionView { stage: Stage::Items, names, next: 0, chosen: None, ..s }
}

/// The stage a located project leads to.
pub open spec fn first_stage(s: SessionView) -> Stage {
    match s.kind {
        Kind::Add => if s.names.len() == 0 { Stage::AskNames } else { Stage::Items },
        Kind::Remove => if s.names.len() == 0 { Stage::ReadManifest } else { Stage::Items },
        Kind::Update => if s.names.len() == 0 { Stage::UpdateAll } else { Stage::Items },
        Kind::Analyze => Stage::Probe,
    }
}

/// The operation that the items of a command of `kind` go through.
pub open spec fn item_op(kind: Kind) -> Op {
    match kind {
        Kind::Add => Op::Add,
        Kind::Remove => Op::Remove,
        _ => Op::Update,
    }
}

/// The features an add invocation carries: the explicit ones, else the ones chosen.
pub open spec fn effective_features(s: SessionView) -> Option<Seq<char>> {
    match s.features {
        Some(f) => Some(f),
        None => match s.chosen {
            Some(c) => c,
            None => None,
        },
    }
}

/// Whether the current add item waits for a feature choice.
pub open spec fn needs_choice(s: SessionView) -> bool {
    s.kind == Kind::Add && s.features is None && s.chosen is None && catalog(
        s.names[s.next as int],
    ) is Some
}

/// The invocation for the current item.
pub open spec fn item_invocation(s: SessionView) -> Seq<Seq<char>> {
    let name = s.names[s.next as int];
    match s.kind {
        Kind::Add => add_invocation(name, s.dev, effective_features(s), s.version),
        Kind::Remove => seq!["remove"@, name],
        _ => seq!["update"@, name],
    }
}

/// The action a session in state `s` asks for.
pub open spec fn action_of(s: SessionView) -> ActionView {
    match s.stage {
        Stage::Locate => ActionView::CheckProject { dir: s.dir },
        Stage::AskNames => ActionView::AskNames,
        Stage::ReadManifest => ActionView::ReadManifest { dir: s.dir },
        Stage::ChooseRemovals => ActionView::ChooseRemovals { candidates: s.names },
        Stage::Items => if s.next >= s.names.len() {
            ActionView::Finished(None)
        } else if needs_choice(s) {
            ActionView::ChooseFeatures {
                dependency: s.names[s.next as int],
                options: catalog(s.names[s.next as int])->Some_0,
            }
        } else {
            ActionView::Run { args: item_invocation(s), output: Output::Captured, dir: Some(s.dir) }
        },
        Stage::UpdateAll => ActionView::Run {
            args: seq!["update"@],
            output: Output::Captured,
            dir: Some(s.dir),
        },
        Stage::Probe | Stage::Reprobe => ActionView::Run {
            args: seq!["audit"@, "--version"@],
            output: Output::Quiet,
            dir: None,
        },
        Stage::OfferInstall => ActionView::ConfirmInstall,
        Stage::Install => ActionView::Run {
            args: seq!["install"@, "cargo-audit"@],
            output: Output::Streamed,
            dir: None,
        },
        Stage::Tree => ActionView::Run { args: seq!["tree"@], output: Output::Captured, dir: Some(s.dir) },
        Stage::Audit => ActionView::Run { args: seq!["audit"@], output: Output::Streamed, dir: Some(s.dir) },
        Stage::Done => ActionView::Finished(s.failure),
    }
}

/// Whether every position in `picks` is below `n`.
pub open spec fn picks_in_range(picks: Seq<usize>, n: nat) -> bool {
    forall|k: int| 0 <= k < picks.len() ==> (#[trigger] picks[k]) < n
}

/// The state after the current item succeeded.
pub open spec fn advance(s: SessionView) -> SessionView {
    if s.next + 1 >= s.names.len() {
        finish(s, None)
    } else {
        SessionView { next: s.next + 1, chosen: None, ..s }
    }
}

/// The state that event `e` leads `s` to; an event that does not answer the
/// pending action leaves the state as it is.
pub open spec fn step(s: SessionView, e: Event) -> SessionView {
    match (s.stage, e) {
        (Stage::Locate, Event::ProjectChecked(found)) => if found {
            enter(s, first_stage(s))
        } else {
            finish(s, Some(DepErrorView::NotAProject))
        },
        (Stage::AskNames, Event::Line(line)) => if name_tokens(line@).len() == 0 {
            finish(s, Some(DepErrorView::NoDependenciesSpecified))
        } else {
            work_on(s, name_tokens(line@))
        },
        (Stage::ReadManifest, Event::ManifestUnreadable) => finish(s, Some(DepErrorView::ManifestUnreadable)),
        (Stage::ReadManifest, Event::ManifestText(text)) => if !manifest_parses(text@) {
            finish(s, Some(DepErrorView::ManifestMalformed))
        } else if declared_names(text@).len() == 0 {
            finish(s, Some(DepErrorView::NoDependenciesFound))
        } else {
            SessionView { stage: Stage::ChooseRemovals, names: declared_names(text@), ..s }
        },
        (Stage::ChooseRemovals, Event::Chosen(picks)) => if !picks_in_range(picks@, s.names.len()) {
            finish(s, Some(DepErrorView::PromptFailed))
        } else if picks.len() == 0 {
            finish(s, None)
        } else {
            work_on(s, picked(s.names, picks@))
        },
        (Stage::Items, e) => if s.next >= s.names.len() {
            s
        } else if needs_choice(s) {
            match e {
                Event::Chosen(picks) => if picks_in_range(
                    picks@,
                    catalog(s.names[s.next as int])->Some_0.len(),
                ) {
                    SessionView {
                        chosen: Some(
                            chosen_features(catalog(s.names[s.next as int])->Some_0, picks@),
                        ),
                        ..s
                    }
                } else {
                    finish(s, Some(DepErrorView::PromptFailed))
                },
                Event::PromptFailed => finish(s, Some(DepErrorView::PromptFailed)),
                _ => s,
            }
        } else {
            match e {
                Event::Exited { success, stdout, stderr } => if success {
                    advance(s)
                } else {
                    finish(
                        s,
                        Some(
                            DepErrorView::ToolFailed {
                                op: item_op(s.kind),
                                name: s.names[s.next as int],
                                stderr: stderr@,
                            },
                        ),
                    )
                },
                Event::LaunchFailed => finish(
                    s,
                    Some(DepErrorView::LaunchFailed { op: item_op(s.kind), name: s.names[s.next as int] }),
                ),
                _ => s,
            }
        },
        (Stage::UpdateAll, Event::Exited { success, stdout, stderr }) => if success {
            finish(s, None)
        } else {
            finish(s, Some(DepErrorView::ToolFailed { op: Op::UpdateAll, name: Seq::empty(), stderr: stderr@ }))
        },
        (Stage::UpdateAll, Event::LaunchFailed) => finish(
            s,
            Some(DepErrorView::LaunchFailed { op: Op::UpdateAll, name: Seq::empty() }),
        ),
        (Stage::Probe, Event::Exited { success, stdout, stderr }) => if success {
            SessionView { stage: Stage::Tree, audit_ready: true, ..s }
        } else {
            enter(s, Stage::OfferInstall)
        },
        (Stage::Probe, Event::LaunchFailed) => enter(s, Stage::OfferInstall),
        (Stage::OfferInstall, Event::Confirmed(yes)) => if yes {
            enter(s, Stage::Install)
        } else {
            enter(s, Stage::Tree)
        },
        (Stage::Install, Event::Exited { success, stdout, stderr }) => enter(s, Stage::Tree),
        (Stage::Install, Event::LaunchFailed) => finish(
            s,
            Some(DepErrorView::LaunchFailed { op: Op::Install, name: Seq::empty() }),
        ),
        (Stage::Tree, Event::Exited { success, stdout, stderr }) => if s.audit_ready {
            enter(s, Stage::Audit)
        } else {
            enter(s, Stage::Reprobe)
        },
        (Stage::Tree, Event::LaunchFailed) => finish(
            s,
            Some(DepErrorView::LaunchFailed { op: Op::Tree, name: Seq::empty() }),
        ),
        (Stage::Reprobe, Event::Exited { success, stdout, stderr }) => if success {
            enter(s, Stage::Audit)
        } else {
            finish(s, None)
        },
        (Stage::Reprobe, Event::LaunchFailed) => finish(s, None),
        (Stage::Audit, Event::Exited { success, stdout, stderr }) => finish(s, None),
        (Stage::Audit, Event::LaunchFailed) => finish(
            s,
            Some(DepErrorView::LaunchFailed { op: Op::Audit, name: Seq::empty() }),
        ),
        (Stage::AskNames, Event::PromptFailed) => finish(s, Some(DepErrorView::PromptFailed)),
        (Stage::ChooseRemovals, Event::PromptFailed) => finish(s, Some(DepErrorView::PromptFailed)),
        (Stage::OfferInstall, Event::PromptFailed) => finish(s, Some(DepErrorView::PromptFailed)),
        _ => s,
    }
}


pub open spec fn note_view(r: Option<Note>) -> Option<NoteView> {
    match r {
        Some(n) => Some(n@),
        None => None,
    }
}

/// A line for the user.
pub open spec fn note(tone: Tone, label: Seq<char>, subject: Seq<char>) -> NoteView {
    NoteView { tone, label, subject }
}

/// The line shown before the pending action of `s` is carried out.
pub open spec fn announcement_of(s: SessionView) -> Option<NoteView> {
    match s.stage {
        Stage::Items => if s.next >= s.names.len() {
            None
        } else if needs_choice(s) {
            Some(note(Tone::Plain, "Suggested features for"@, s.names[s.next as int]))
        } else {
            match s.kind {
                Kind::Add => Some(note(Tone::Success, "Adding dependency:"@, s.names[s.next as int])),
                Kind::Remove => Some(note(Tone::Warning, "Removing dependency:"@, s.names[s.next as int])),
                _ => Some(note(Tone::Info, "Updating dependency:"@, s.names[s.next as int])),
            }
        },
        Stage::UpdateAll => Some(note(Tone::Info, "Updating all dependencies..."@, Seq::empty())),
        Stage::Probe => Some(note(Tone::Info, "Analyzing dependencies..."@, Seq::empty())),
        Stage::OfferInstall => Some(
            note(
                Tone::Warning,
                "cargo-audit is not installed. It's recommended for security analysis."@,
                Seq::empty(),
            ),
        ),
        Stage::Install => Some(note(Tone::Info, "Installing cargo-audit..."@, Seq::empty())),
        Stage::Tree => Some(note(Tone::Info, "Dependency tree:"@, Seq::empty())),
        Stage::Audit => Some(note(Tone::Info, "Security audit:"@, Seq::empty())),
        _ => None,
    }
}

/// The line shown when event `e` answers the pending action of `s`.
pub open spec fn report_of(s: SessionView, e: Event) -> Option<NoteView> {
    match (s.stage, e) {
        (Stage::Items, Event::Exited { success, stdout, stderr }) => if s.next < s.names.len()
            && !needs_choice(s) && success {
            match s.kind {
                Kind::Add => Some(note(Tone::Success, "Successfully added:"@, s.names[s.next as int])),
                Kind::Remove => Some(note(Tone::Success, "Successfully removed:"@, s.names[s.next as int])),
                _ => Some(note(Tone::Success, "Successfully updated:"@, s.names[s.next as int])),
            }
        } else {
            None
        },
        (Stage::UpdateAll, Event::Exited { success, stdout, stderr }) => if success {
            Some(note(Tone::Success, "Successfully updated all dependencies"@, Seq::empty()))
        } else {
            None
        },
        (Stage::Install, Event::Exited { success, stdout, stderr }) => if success {
            Some(note(Tone::Success, "Successfully installed cargo-audit"@, Seq::empty()))
        } else {
            Some(
                note(
                    Tone::Failure,
                    "Failed to install cargo-audit:"@,
                    "Check your internet connection and try again"@,
                ),
            )
        },
        (Stage::Tree, Event::Exited { success, stdout, stderr }) => Some(note(Tone::Plain, stdout@, Seq::empty())),
        (Stage::Audit, Event::Exited { success, stdout, stderr }) => if success {
            None
        } else {
            Some(
                note(
                    Tone::Warning,
                    "Security vulnerabilities found in your dependencies. Please review and update."@,
                    Seq::empty(),
                ),
            )
        },
        _ => None,
    }
}

} // verus!


verus! {

fn make_note(tone: Tone, label: &str, subject: String) -> (r: Note)
    ensures
        r@ == note(tone, label@, subject@),
{
    Note { tone, label: label.to_owned(), subject }
}

impl Session {
    fn new(
        kind: Kind,
        path: &Option<String>,
        names: Vec<String>,
        dev: bool,
        features: Option<String>,
        version: Option<String>,
    ) -> (s: Session)
        ensures
            s@ == start(kind, path.deep_view(), names.deep_view(), dev, features.deep_view(), version.deep_view()),
    {
        Session {
            stage: Stage::Locate,
            kind,
            dir: resolve_dir(path),
            names,
            dev,
            features,
            version,
            next: 0,
            chosen: None,
            audit_ready: false,
            failure: None,
        }
    }

    fn finish(&mut self, failure: Option<DepError>)
        ensures
            final(self)@ == finish(
                old(self)@,
                match failure {
                    Some(e) => Some(e@),
                    None => None,
                },
            ),
    {
        self.stage = Stage::Done;
        self.failure = failure;
    }

    fn item_action(&self) -> (r: Action)
        requires
            self.stage == Stage::Items,
        ensures
            r@ == action_of(self@),
    {
        if self.next >= self.names.len() {
            return Action::Finished(Ok(()));
        }
        let name = &self.names[self.next];
        let dir = Some(self.dir.clone());
        match self.kind {
            Kind::Add => {
                if self.features.is_none() && self.chosen.is_none() {
                    if let Some(options) = suggested_features(name) {
                        return Action::ChooseFeatures { dependency: name.clone(), options };
                    }
                }
                let features = match &self.features {
                    Some(f) => Some(f.clone()),
                    None => match &self.chosen {
                        Some(Some(c)) => Some(c.clone()),
                        _ => None,
                    },
                };
                let args = add_args(name, self.dev, &features, &self.version);
                Action::Run { args, output: Output::Captured, dir }
            },
            Kind::Remove => Action::Run {
                args: verb_with_name("remove", name),
                output: Output::Captured,
                dir,
            },
            _ => Action::Run { args: verb_with_name("update", name), output: Output::Captured, dir },
        }
    }

    /// The action the session asks for in its present state.
    pub fn action(&self) -> (r: Action)
        ensures
            r@ == action_of(self@),
    {
        match self.stage {
            Stage::Locate => Action::CheckProject { dir: self.dir.clone() },
            Stage::AskNames => Action::AskNames,
            Stage::ReadManifest => Action::ReadManifest { dir: self.dir.clone() },
            Stage::ChooseRemovals => Action::ChooseRemovals { candidates: copy_all(&self.names) },
            Stage::Items => self.item_action(),
            Stage::UpdateAll => Action::Run {
                args: single_arg("update"),
                output: Output::Captured,
                dir: Some(self.dir.clone()),
            },
            Stage::Probe | Stage::Reprobe => Action::Run {
                args: pair_args("audit", "--version"),
                output: Output::Quiet,
                dir: None,
            },
            Stage::OfferInstall => Action::ConfirmInstall,
            Stage::Install => Action::Run {
                args: pair_args("install", "cargo-audit"),
                output: Output::Streamed,
                dir: None,
            },
            Stage::Tree => Action::Run {
                args: single_arg("tree"),
                output: Output::Captured,
                dir: Some(self.dir.clone()),
            },
            Stage::Audit => Action::Run {
                args: single_arg("audit"),
                output: Output::Streamed,
                dir: Some(self.dir.clone()),
            },
            Stage::Done => match &self.failure {
                None => Action::Finished(Ok(())),
                Some(e) => Action::Finished(Err(e.duplicate())),
            },
        }
    }

    fn on_item_event(&mut self, e: Event)
        requires
            old(self).stage == Stage::Items,
        ensures
            final(self)@ == step(old(self)@, e),
    {
        if self.next >= self.names.len() {
            return;
        }
        let name = self.names[self.next].clone();
        let op = match self.kind {
            Kind::Add => Op::Add,
            Kind::Remove => Op::Remove,
            _ => Op::Update,
        };
        if self.kind == Kind::Add && self.features.is_none() && self.chosen.is_none() {
            if let Some(options) = suggested_features(&name) {
                match e {
                    Event::Chosen(picks) => {
                        let mut ok = true;
                        let mut k: usize = 0;
                        while k < picks.len()
                            invariant
                                k <= picks.len(),
                                ok == picks_in_range(picks@.take(k as int), options.len() as nat),
                            decreases picks.len() - k,
                        {
                            assert(picks@.take(k + 1).last() == picks[k as int]);
                            assert(forall|j: int| 0 <= j < k ==> picks@.take(k + 1)[j] == picks@.take(k as int)[j]);
                            if picks[k] >= options.len() {
                                ok = false;
                            }
                            k += 1;
                        }
                        assert(picks@.take(picks.len() as int) =~= picks@);
                        if ok {
                            self.chosen = Some(feature_choice(&options, &picks));
                        } else {
                            self.finish(Some(DepError::PromptFailed));
                        }
                    },
                    Event::PromptFailed => self.finish(Some(DepError::PromptFailed)),
                    _ => {},
                }
                return;
            }
        }
        match e {
            Event::Exited { success, stdout, stderr } => {
                if success {
                    if self.next + 1 >= self.names.len() {
                        self.finish(None);
                    } else {
                        self.next = self.next + 1;
                        self.chosen = None;
                    }
                } else {
                    self.finish(Some(DepError::ToolFailed { op, name, stderr }));
                }
            },
            Event::LaunchFailed => self.finish(Some(DepError::LaunchFailed { op, name })),
            _ => {},
        }
    }

    /// Moves the session on by the outcome `e` of its pending action.
    pub fn on_event(&mut self, e: Event)
        ensures
            final(self)@ == step(old(self)@, e),
    {
        match self.stage {
            Stage::Items => {
                self.on_item_event(e);
                return;
            },
            _ => {},
        }
        match (self.stage, e) {
            (Stage::Locate, Event::ProjectChecked(found)) => {
                if found {
                    self.stage = match self.kind {
                        Kind::Add => if self.names.len() == 0 { Stage::AskNames } else { Stage::Items },
                        Kind::Remove => if self.names.len() == 0 {
                            Stage::ReadManifest
                        } else {
                            Stage::Items
                        },
                        Kind::Update => if self.names.len() == 0 {
                            Stage::UpdateAll
                        } else {
                            Stage::Items
                        },
                        Kind::Analyze => Stage::Probe,
                    };
                } else {
                    self.finish(Some(DepError::NotAProject));
                }
            },
            (Stage::AskNames, Event::Line(line)) => {
                let names = parse_name_list(line.as_str());
                if names.len() == 0 {
                    self.finish(Some(DepError::NoDependenciesSpecified));
                } else {
                    self.stage = Stage::Items;
                    self.names = names;
                    self.next = 0;
                    self.chosen = None;
                }
            },
            (Stage::ReadManifest, Event::ManifestUnreadable) => {
                self.finish(Some(DepError::ManifestUnreadable));
            },
            (Stage::ReadManifest, Event::ManifestText(text)) => {
                match declared_dependencies(text.as_str()) {
                    Err(err) => self.finish(Some(err)),
                    Ok(names) => {
                        if names.len() == 0 {
                            self.finish(Some(DepError::NoDependenciesFound));
                        } else {
                            self.stage = Stage::ChooseRemovals;
                            self.names = names;
                        }
                    },
                }
            },
            (Stage::ChooseRemovals, Event::Chosen(picks)) => {
                let mut ok = true;
                let mut k: usize = 0;
                while k < picks.len()
                    invariant
                        k <= picks.len(),
                        ok == picks_in_range(picks@.take(k as int), self.names.len() as nat),
                    decreases picks.len() - k,
                {
                    assert(picks@.take(k + 1).last() == picks[k as int]);
                    assert(forall|j: int| 0 <= j < k ==> picks@.take(k + 1)[j] == picks@.take(k as int)[j]);
                    if picks[k] >= self.names.len() {
                        ok = false;
                    }
                    k += 1;
                }
                assert(picks@.take(picks.len() as int) =~= picks@);
                if !ok {
                    self.finish(Some(DepError::PromptFailed));
                } else if picks.len() == 0 {
                    self.finish(None);
                } else {
                    let names = pick(&self.names, &picks);
                    self.stage = Stage::Items;
                    self.names = names;
                    self.next = 0;
                    self.chosen = None;
                }
            },
            (Stage::UpdateAll, Event::Exited { success, stdout, stderr }) => {
                if success {
                    self.finish(None);
                } else {
                    self.finish(Some(DepError::ToolFailed { op: Op::UpdateAll, name: String::new(), stderr }));
                }
            },
            (Stage::UpdateAll, Event::LaunchFailed) => {
                self.finish(Some(DepError::LaunchFailed { op: Op::UpdateAll, name: String::new() }));
            },
            (Stage::Probe, Event::Exited { success, stdout, stderr }) => {
                if success {
                    self.stage = Stage::Tree;
                    self.audit_ready = true;
                } else {
                    self.stage = Stage::OfferInstall;
                }
            },
            (Stage::Probe, Event::LaunchFailed) => {
                self.stage = Stage::OfferInstall;
            },
            (Stage::OfferInstall, Event::Confirmed(yes)) => {
                self.stage = if yes { Stage::Install } else { Stage::Tree };
            },
            (Stage::Install, Event::Exited { success, stdout, stderr }) => {
                self.stage = Stage::Tree;
            },
            (Stage::Install, Event::LaunchFailed) => {
                self.finish(Some(DepError::LaunchFailed { op: Op::Install, name: String::new() }));
            },
            (Stage::Tree, Event::Exited { success, stdout, stderr }) => {
                self.stage = if self.audit_ready { Stage::Audit } else { Stage::Reprobe };
            },
            (Stage::Tree, Event::LaunchFailed) => {
                self.finish(Some(DepError::LaunchFailed { op: Op::Tree, name: String::new() }));
            },
            (Stage::Reprobe, Event::Exited { success, stdout, stderr }) => {
                if success {
                    self.stage = Stage::Audit;
                } else {
                    self.finish(None);
                }
            },
            (Stage::Reprobe, Event::LaunchFailed) => {
                self.finish(None);
            },
            (Stage::Audit, Event::Exited { success, stdout, stderr }) => {
                self.finish(None);
            },
            (Stage::Audit, Event::LaunchFailed) => {
                self.finish(Some(DepError::LaunchFailed { op: Op::Audit, name: String::new() }));
            },
            (Stage::AskNames, Event::PromptFailed)
            | (Stage::ChooseRemovals, Event::PromptFailed)
            | (Stage::OfferInstall, Event::PromptFailed) => {
                self.finish(Some(DepError::PromptFailed));
            },
            _ => {},
        }
    }

    /// The line to show before the pending action is carried out.
    pub fn announcement(&self) -> (r: Option<Note>)
        ensures
            note_view(r) == announcement_of(self@),
    {
        match self.stage {
            Stage::Items => {
                if self.next >= self.names.len() {
                    return None;
                }
                let name = self.names[self.next].clone();
                if self.kind == Kind::Add && self.features.is_none() && self.chosen.is_none() {
                    if suggested_features(&name).is_some() {
                        return Some(make_note(Tone::Plain, "Suggested features for", name));
                    }
                }
                match self.kind {
                    Kind::Add => Some(make_note(Tone::Success, "Adding dependency:", name)),
                    Kind::Remove => Some(make_note(Tone::Warning, "Removing dependency:", name)),
                    _ => Some(make_note(Tone::Info, "Updating dependency:", name)),
                }
            },
            Stage::UpdateAll => Some(make_note(Tone::Info, "Updating all dependencies...", String::new())),
            Stage::Probe => Some(make_note(Tone::Info, "Analyzing dependencies...", String::new())),
            Stage::OfferInstall => Some(
                make_note(
                    Tone::Warning,
                    "cargo-audit is not installed. It's recommended for security analysis.",
                    String::new(),
                ),
            ),
            Stage::Install => Some(make_note(Tone::Info, "Installing cargo-audit...", String::new())),
            Stage::Tree => Some(make_note(Tone::Info, "Dependency tree:", String::new())),
            Stage::Audit => Some(make_note(Tone::Info, "Security audit:", String::new())),
            _ => None,
        }
    }

    /// The line to show when `e` answers the pending action.
    pub fn report(&self, e: &Event) -> (r: Option<Note>)
        ensures
            note_view(r) == report_of(self@, *e),
    {
        match (self.stage, e) {
            (Stage::Items, Event::Exited { success, stdout, stderr }) => {
                if self.next >= self.names.len() || !*success {
                    return None;
                }
                let name = self.names[self.next].clone();
                if self.kind == Kind::Add && self.features.is_none() && self.chosen.is_none() {
                    if suggested_features(&name).is_some() {
                        return None;
                    }
                }
                match self.kind {
                    Kind::Add => Some(make_note(Tone::Success, "Successfully added:", name)),
                    Kind::Remove => Some(make_note(Tone::Success, "Successfully removed:", name)),
                    _ => Some(make_note(Tone::Success, "Successfully updated:", name)),
                }
            },
            (Stage::UpdateAll, Event::Exited { success, stdout, stderr }) => {
                if *success {
                    Some(make_note(Tone::Success, "Successfully updated all dependencies", String::new()))
                } else {
                    None
                }
            },
            (Stage::Install, Event::Exited { success, stdout, stderr }) => {
                if *success {
                    Some(make_note(Tone::Success, "Successfully installed cargo-audit", String::new()))
                } else {
                    Some(
                        make_note(
                            Tone::Failure,
                            "Failed to install cargo-audit:",
                            "Check your internet connection and try again".to_owned(),
                        ),
                    )
                }
            },
            (Stage::Tree, Event::Exited { success, stdout, stderr }) => Some(
                Note { tone: Tone::Plain, label: stdout.clone(), subject: String::new() },
            ),
            (Stage::Audit, Event::Exited { success, stdout, stderr }) => {
                if *success {
                    None
                } else {
                    Some(
                        make_note(
                            Tone::Warning,
                            "Security vulnerabilities found in your dependencies. Please review and update.",
                            String::new(),
                        ),
                    )
                }
            },
            _ => None,
        }
    }
}

} // verus!

verus! {

/// The session that an `add` command starts.
pub open spec fn add_start(a: AddArgs) -> SessionView {
    start(Kind::Add, a.path.deep_view(), a.dependencies.deep_view(), a.dev, a.features.deep_view(), a.version.deep_view())
}

/// The session that a `remove` command starts.
pub open spec fn remove_start(a: RemoveArgs) -> SessionView {
    start(Kind::Remove, a.path.deep_view(), a.dependencies.deep_view(), false, None, None)
}

/// The session that an `update` command starts.
pub open spec fn update_start(a: UpdateArgs) -> SessionView {
    start(Kind::Update, a.path.deep_view(), a.dependencies.deep_view(), false, None, None)
}

/// The session that an `analyze` command starts.
pub open spec fn analyze_start(a: AnalyzeArgs) -> SessionView {
    start(Kind::Analyze, a.path.deep_view(), Seq::empty(), false, None, None)
}

/// The session that a dependency command starts.
pub open spec fn command_start(c: DependencyCommands) -> SessionView {
    match c {
        DependencyCommands::Add(a) => add_start(a),
        DependencyCommands::Remove(a) => remove_start(a),
        DependencyCommands::Update(a) => update_start(a),
        DependencyCommands::Analyze(a) => analyze_start(a),
    }
}

/// Starts adding dependencies: the named ones, or those entered at a prompt,
/// each with its explicit features or the ones chosen among the suggestions.
pub fn add_dependencies(args: AddArgs) -> (s: Session)
    ensures
        s@ == add_start(args),
{
    let path = args.path;
    Session::new(Kind::Add, &path, args.dependencies, args.dev, args.features, args.version)
}

/// Starts removing dependencies: the named ones, or those chosen among the
/// manifest's declared dependencies.
pub fn remove_dependencies(args: RemoveArgs) -> (s: Session)
    ensures
        s@ == remove_start(args),
{
    let path = args.path;
    Session::new(Kind::Remove, &path, args.dependencies, false, None, None)
}

/// Starts updating dependencies: the named ones one by one, or all at once.
pub fn update_dependencies(args: UpdateArgs) -> (s: Session)
    ensures
        s@ == update_start(args),
{
    let path = args.path;
    Session::new(Kind::Update, &path, args.dependencies, false, None, None)
}

/// Starts analysing dependencies: audit-helper probe, dependency tree, audit.
pub fn analyze_dependencies(args: AnalyzeArgs) -> (s: Session)
    ensures
        s@ == analyze_start(args),
{
    let path = args.path;
    let none: Vec<String> = Vec::new();
    assert(none.deep_view() =~= Seq::<Seq<char>>::empty());
    Session::new(Kind::Analyze, &path, none, false, None, None)
}

/// Starts the session of a dependency command.
pub fn execute(args: DependencyArgs) -> (s: Session)
    ensures
        s@ == command_start(args.command),
{
    match args.command {
        DependencyCommands::Add(a) => add_dependencies(a),
        DependencyCommands::Remove(a) => remove_dependencies(a),
        DependencyCommands::Update(a) => update_dependencies(a),
        DependencyCommands::Analyze(a) => analyze_dependencies(a),
    }
}

} // verus!
