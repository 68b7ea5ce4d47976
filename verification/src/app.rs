//! The state of the interface and how keys and worker messages change it.
//!
//! `App` holds plain data: the package list, what the current view shows,
//! the selection, the pending confirmation, the status texts, and the jobs
//! waiting to be handed to the worker (`outbox`). Each operation is stated
//! over `AppModel`, the same state with strings taken as character sequences.
use vstd::prelude::*;
use vstd::string::*;

use crate::brew::{Job, JobView, Msg};
use crate::model::{Kind, Package};
use crate::text::{decimal, new_string, push_str, push_usize, trim, trim_str, views};

verus! {

/// The views of the package list.
#[derive(Debug, Clone, Copy, PartialEq, Eq, Structural)]
pub enum Tab {
    All,
    Formula,
    Cask,
    Outdated,
}

impl Tab {
    pub open spec fn index_spec(self) -> usize {
        match self {
            Tab::All => 0,
            Tab::Formula => 1,
            Tab::Cask => 2,
            Tab::Outdated => 3,
        }
    }

    pub open spec fn next_spec(self) -> Tab {
        match self {
            Tab::All => Tab::Formula,
            Tab::Formula => Tab::Cask,
            Tab::Cask => Tab::Outdated,
            Tab::Outdated => Tab::All,
        }
    }

    pub open spec fn prev_spec(self) -> Tab {
        match self {
            Tab::All => Tab::Outdated,
            Tab::Formula => Tab::All,
            Tab::Cask => Tab::Formula,
            Tab::Outdated => Tab::Cask,
        }
    }

    /// The position of the view among the tabs.
    pub fn index(&self) -> (i: usize)
        ensures
            i == self.index_spec(),
    {
        match self {
            Tab::All => 0,
            Tab::Formula => 1,
            Tab::Cask => 2,
            Tab::Outdated => 3,
        }
    }

    /// The view to the right, wrapping around.
    pub fn next(&self) -> (t: Tab)
        ensures
            t == self.next_spec(),
    {
        match self {
            Tab::All => Tab::Formula,
            Tab::Formula => Tab::Cask,
            Tab::Cask => Tab::Outdated,
            Tab::Outdated => Tab::All,
        }
    }

    /// The view to the left, wrapping around.
    pub fn prev(&self) -> (t: Tab)
        ensures
            t == self.prev_spec(),
    {
        match self {
            Tab::All => Tab::Outdated,
            Tab::Formula => Tab::All,
            Tab::Cask => Tab::Formula,
            Tab::Outdated => Tab::Cask,
        }
    }
}

/// An action that waits for the user's confirmation.
#[derive(Debug, Clone, Copy, PartialEq, Eq, Structural)]
pub enum PendingAction {
    /// Upgrade the package at this position of the current view.
    Upgrade(usize),
    /// Uninstall the package at this position of the current view.
    Uninstall(usize),
    /// Upgrade every outdated package.
    UpgradeAll,
    /// Upgrade the marked packages.
    UpgradeSelected,
}

/// A confirmation prompt: what it asks, and what a yes does.
pub struct Confirm {
    pub desc: String,
    pub action: PendingAction,
}

/// How a finished activity ended.
#[derive(Debug, Clone, Copy, PartialEq, Eq, Structural)]
pub enum ActivityKind {
    Done,
    Failed,
    Error,
}

/// One line of the activity history.
pub struct Activity {
    pub kind: ActivityKind,
    pub text: String,
}

/// A key, as the interface tells keys apart.
#[derive(Debug, Clone, Copy, PartialEq, Eq, Structural)]
pub enum Key {
    Char(char),
    Enter,
    Esc,
    Up,
    Down,
    PageUp,
    PageDown,
    Tab,
    BackTab,
    Other,
}

/// A key press, with whether Control was held.
#[derive(Debug, Clone, Copy, PartialEq, Eq, Structural)]
pub struct KeyPress {
    pub key: Key,
    pub ctrl: bool,
}

/// The state of the interface.
pub struct App {
    /// Every package, formulae and casks.
    pub packages: Vec<Package>,
    /// The positions in `packages` of the packages that the current view shows.
    pub filtered: Vec<usize>,
    pub tab: Tab,
    /// The position in `filtered` of the highlighted package.
    pub selected: usize,
    pub detail_scroll: u16,
    /// What is running (`None` when idle).
    pub busy: Option<String>,
    pub status: String,
    pub confirm: Option<Confirm>,
    pub outdated_count: usize,
    pub should_quit: bool,
    /// The error output of the last failed command.
    pub last_error: Option<String>,
    /// A summary of the output of the last command that succeeded.
    pub last_output: Option<String>,
    /// The positions in `packages` of the packages marked for a batch upgrade.
    pub selected_set: Vec<usize>,
    /// The output lines of the running command.
    pub progress: Vec<String>,
    /// The history of finished activities, oldest first.
    pub activities: Vec<Activity>,
    /// Jobs waiting to be handed to the worker, oldest first.
    pub outbox: Vec<Job>,
}

/// The state of the interface, with strings taken as character sequences.
#[verifier::ext_equal]
pub struct AppModel {
    pub packages: Seq<Package>,
    pub filtered: Seq<usize>,
    pub tab: Tab,
    pub selected: usize,
    pub detail_scroll: u16,
    pub busy: Option<Seq<char>>,
    pub status: Seq<char>,
    pub confirm: Option<(Seq<char>, PendingAction)>,
    pub outdated_count: usize,
    pub should_quit: bool,
    pub last_error: Option<Seq<char>>,
    pub last_output: Option<Seq<char>>,
    pub selected_set: Seq<usize>,
    pub progress: Seq<Seq<char>>,
    pub activities: Seq<(ActivityKind, Seq<char>)>,
    pub outbox: Seq<JobView>,
}

pub open spec fn opt_view(o: Option<String>) -> Option<Seq<char>> {
    match o {
        Some(s) => Some(s@),
        None => None,
    }
}

impl View for App {
    type V = AppModel;

    open spec fn view(&self) -> AppModel {
        AppModel {
            packages: self.packages@,
            filtered: self.filtered@,
            tab: self.tab,
            selected: self.selected,
            detail_scroll: self.detail_scroll,
            busy: opt_view(self.busy),
            status: self.status@,
            confirm: match self.confirm {
                Some(c) => Some((c.desc@, c.action)),
                None => None,
            },
            outdated_count: self.outdated_count,
            should_quit: self.should_quit,
            last_error: opt_view(self.last_error),
            last_output: opt_view(self.last_output),
            selected_set: self.selected_set@,
            progress: views(self.progress@),
            activities: self.activities@.map_values(|a: Activity| (a.kind, a.text@)),
            outbox: self.outbox@.map_values(|j: Job| j@),
        }
    }
}

/// Whether a view shows a package.
pub open spec fn shows(tab: Tab, p: Package) -> bool {
    match tab {
        Tab::All => true,
        Tab::Formula => p.kind == Kind::Formula,
        Tab::Cask => p.kind == Kind::Cask,
        Tab::Outdated => p.outdated,
    }
}

/// The positions `0, 1, ..., n - 1`.
pub open spec fn positions(n: nat) -> Seq<usize> {
    Seq::new(n, |i: int| i as usize)
}

pub open spec fn shows_at(packages: Seq<Package>, tab: Tab) -> spec_fn(usize) -> bool {
    |i: usize| shows(tab, packages[i as int])
}

/// The positions of the packages that a view shows, in list order.
pub open spec fn visible(packages: Seq<Package>, tab: Tab) -> Seq<usize> {
    positions(packages.len()).filter(shows_at(packages, tab))
}

/// The label of a package's version: the version, or `?`.
pub open spec fn or_question(v: Option<String>) -> Seq<char> {
    match v {
        Some(s) => s@,
        None => "?"@,
    }
}

/// The question asked before upgrading one package.
pub open spec fn upgrade_desc(p: Package) -> Seq<char> {
    if p.outdated {
        "Upgrade "@ + p.name@ + ": "@ + or_question(p.current_version) + " → "@ + or_question(
            p.latest_version,
        )
    } else {
        "Upgrade "@ + p.name@ + " (already up to date)"@
    }
}

/// The question asked before uninstalling a package.
pub open spec fn uninstall_desc(p: Package) -> Seq<char> {
    "Uninstall "@ + p.name@ + " ("@ + or_question(p.current_version) + " "@ + p.kind.label_spec()
        + ")"@
}

/// The question asked before upgrading every outdated package.
pub open spec fn upgrade_all_desc(n: usize) -> Seq<char> {
    "Upgrade all "@ + decimal(n as nat) + " outdated packages"@
}

/// The question asked before upgrading the marked packages.
pub open spec fn upgrade_selected_desc(n: nat) -> Seq<char> {
    "Upgrade "@ + decimal(n) + " selected packages"@
}

pub open spec fn marked_of_kind(packages: Seq<Package>, marked: Seq<usize>, kind: Kind) -> spec_fn(
    usize,
) -> bool {
    |i: usize| marked.contains(i) && packages[i as int].kind == kind
}

pub open spec fn name_at(packages: Seq<Package>) -> spec_fn(usize) -> Seq<char> {
    |i: usize| packages[i as int].name@
}

/// The names of the marked packages of one kind, in list order.
pub open spec fn marked_names(packages: Seq<Package>, marked: Seq<usize>, kind: Kind) -> Seq<
    Seq<char>,
> {
    positions(packages.len()).filter(marked_of_kind(packages, marked, kind)).map_values(
        name_at(packages),
    )
}

pub open spec fn kind_is(kind: Kind) -> spec_fn(Package) -> bool {
    |p: Package| p.kind == kind
}

/// How many packages of the list are of one kind.
pub open spec fn count_kind(packages: Seq<Package>, kind: Kind) -> nat {
    packages.filter(kind_is(kind)).len()
}

/// `i` is the first position of a package named `name`.
pub open spec fn is_first_named(packages: Seq<Package>, name: Seq<char>, i: int) -> bool {
    &&& 0 <= i < packages.len()
    &&& packages[i].name@ == name
    &&& forall|j: int| 0 <= j < i ==> (#[trigger] packages[j]).name@ != name
}

/// The first package named like the entry is marked outdated, with the entry's
/// version as its latest; the list is unchanged when no package has that name.
pub open spec fn mark_one(packages: Seq<Package>, entry: (String, String)) -> Seq<Package> {
    if exists|i: int| is_first_named(packages, entry.0@, i) {
        let i = choose|i: int| is_first_named(packages, entry.0@, i);
        packages.update(
            i,
            Package { outdated: true, latest_version: Some(entry.1), ..packages[i] },
        )
    } else {
        packages
    }
}

/// The entries of `brew outdated`, applied in order.
pub open spec fn mark_all(packages: Seq<Package>, entries: Seq<(String, String)>) -> Seq<Package>
    decreases entries.len(),
{
    if entries.len() == 0 {
        packages
    } else {
        mark_one(mark_all(packages, entries.drop_last()), entries.last())
    }
}

/// The output of a command can be cut for display: its trimmed text is short
/// enough, or its first `max` bytes end on a character boundary. (Its length
/// in bytes fits in `usize`, as that of every string in memory does.)
pub open spec fn summarizable(s: Seq<char>, max: nat) -> bool {
    let b = vstd::utf8::encode_utf8(trim(s));
    &&& b.len() <= usize::MAX
    &&& b.len() <= max || vstd::utf8::is_char_boundary(b, max as int)
}

/// The output of a command as the details panel shows it: trimmed, and when
/// longer than `max` bytes, its first `max` bytes and its length in bytes.
pub open spec fn summarize_spec(s: Seq<char>, max: nat) -> Seq<char> {
    let t = trim(s);
    let b = vstd::utf8::encode_utf8(t);
    if b.len() <= max {
        t
    } else {
        vstd::utf8::decode_utf8(b.subrange(0, max as int)) + "... ("@ + decimal(b.len())
            + " chars total)"@
    }
}

/// The status line after a package list arrived.
pub open spec fn loaded_status(packages: Seq<Package>, outdated_count: usize) -> Seq<char> {
    "Loaded "@ + decimal(packages.len()) + " packages ("@ + decimal(
        count_kind(packages, Kind::Formula),
    ) + " formulae/"@ + decimal(count_kind(packages, Kind::Cask)) + " casks), "@ + decimal(
        outdated_count as nat,
    ) + " outdated"@
}

/// A message can be shown: the output of a finished command can be cut for display.
pub open spec fn message_ok(msg: Msg) -> bool {
    match msg {
        Msg::Done { label, ok, output } => summarizable(output@, if ok {
            300
        } else {
            500
        }),
        _ => true,
    }
}

/// Every message of the list can be shown.
pub open spec fn messages_ok(msgs: Seq<Msg>) -> bool {
    forall|k: int| 0 <= k < msgs.len() ==> message_ok(#[trigger] msgs[k])
}

impl AppModel {
    /// The state is consistent: the view lists exactly the packages that its
    /// tab shows, the highlight is on one of them (or at 0 when none is shown),
    /// and the marks name distinct packages of the list.
    pub open spec fn wf(self) -> bool {
        &&& self.filtered == visible(self.packages, self.tab)
        &&& forall|k: int| 0 <= k < self.filtered.len() ==> #[trigger] self.filtered[k] < self.packages.len()
        &&& self.filtered.len() == 0 ==> self.selected == 0
        &&& self.filtered.len() > 0 ==> self.selected < self.filtered.len()
        &&& forall|k: int| 0 <= k < self.selected_set.len() ==> #[trigger] self.selected_set[k] < self.packages.len()
        &&& self.selected_set.no_duplicates()
    }

    /// The highlighted package.
    pub open spec fn current(self) -> Option<Package> {
        if self.selected < self.filtered.len() {
            Some(self.packages[self.filtered[self.selected as int] as int])
        } else {
            None
        }
    }

    /// Lists again what the tab shows, keeping the highlight in range.
    pub open spec fn refilter(self) -> AppModel {
        let f = visible(self.packages, self.tab);
        AppModel {
            filtered: f,
            selected: if f.len() == 0 {
                0
            } else if self.selected >= f.len() {
                (f.len() - 1) as usize
            } else {
                self.selected
            },
            ..self
        }
    }

    /// Asks the worker to load the packages.
    pub open spec fn request_load(self) -> AppModel {
        AppModel { outbox: self.outbox.push(JobView::Load), ..self }
    }

    /// Switches to another view: the highlight goes to the top, the details
    /// to their start, and the marks are cleared.
    pub open spec fn set_tab(self, tab: Tab) -> AppModel {
        AppModel {
            tab,
            selected: 0,
            detail_scroll: 0,
            selected_set: Seq::empty(),
            ..self
        }.refilter()
    }

    /// What a message of the worker does to the state.
    pub open spec fn after_message(self, msg: Msg) -> AppModel {
        match msg {
            Msg::Loading => AppModel {
                busy: if self.busy is None {
                    Some("Running brew command..."@)
                } else {
                    self.busy
                },
                progress: Seq::empty(),
                ..self
            },
            Msg::Progress(line) => AppModel { progress: self.progress.push(line@), ..self },
            Msg::Packages(pkgs) => {
                let s = AppModel {
                    packages: pkgs@,
                    busy: None,
                    selected_set: Seq::empty(),
                    ..self
                }.refilter();
                AppModel { status: loaded_status(s.packages, s.outdated_count), ..s }
            },
            Msg::Outdated(entries) => {
                let s = AppModel {
                    outdated_count: entries@.len() as usize,
                    packages: mark_all(self.packages, entries@),
                    ..self
                }.refilter();
                AppModel {
                    status: decimal(entries@.len()) + " package(s) outdated"@,
                    ..s
                }
            },
            Msg::Done { label, ok, output } => if ok {
                AppModel {
                    busy: None,
                    progress: Seq::empty(),
                    last_output: Some(summarize_spec(output@, 300)),
                    status: label@ + " completed successfully"@,
                    activities: self.activities.push((ActivityKind::Done, label@ + " completed"@)),
                    ..self
                }
            } else {
                AppModel {
                    busy: None,
                    progress: Seq::empty(),
                    last_error: Some(summarize_spec(output@, 500)),
                    status: label@ + " failed (see right panel for details)"@,
                    activities: self.activities.push((ActivityKind::Failed, label@ + " failed"@)),
                    ..self
                }
            },
            Msg::Reload => self.request_load(),
            Msg::Error(e) => AppModel {
                busy: None,
                last_error: Some(e@),
                status: "Error: "@ + e@,
                activities: self.activities.push((ActivityKind::Error, "Error: "@ + e@)),
                ..self
            },
        }
    }

    /// What a list of messages does to the state, in order.
    pub open spec fn after_messages(self, msgs: Seq<Msg>) -> AppModel
        decreases msgs.len(),
    {
        if msgs.len() == 0 {
            self
        } else {
            self.after_messages(msgs.drop_last()).after_message(msgs.last())
        }
    }

    /// Marks the highlighted package for a batch upgrade, or unmarks it.
    pub open spec fn toggle_mark(self) -> AppModel {
        if self.selected < self.filtered.len() {
            let i = self.filtered[self.selected as int];
            AppModel {
                selected_set: if self.selected_set.contains(i) {
                    self.selected_set.remove_value(i)
                } else {
                    self.selected_set.push(i)
                },
                ..self
            }
        } else {
            self
        }
    }

    /// What a key does while no confirmation is asked, apart from quitting.
    pub open spec fn key_action(self, key: Key) -> AppModel {
        match key {
            Key::Char('j') | Key::Down => self.move_selection(1),
            Key::Char('k') | Key::Up => self.move_selection(-1),
            Key::Char('g') => AppModel { selected: 0, ..self },
            Key::Char('G') => AppModel {
                selected: if self.filtered.len() == 0 {
                    0
                } else {
                    (self.filtered.len() - 1) as usize
                },
                ..self
            },
            Key::PageDown => AppModel {
                detail_scroll: if self.detail_scroll + 5 > u16::MAX {
                    u16::MAX
                } else {
                    (self.detail_scroll + 5) as u16
                },
                ..self
            },
            Key::PageUp => AppModel {
                detail_scroll: if self.detail_scroll < 5 {
                    0
                } else {
                    (self.detail_scroll - 5) as u16
                },
                ..self
            },
            Key::Tab => self.set_tab(self.tab.next_spec()),
            Key::BackTab => self.set_tab(self.tab.prev_spec()),
            Key::Char('1') => self.set_tab(Tab::All),
            Key::Char('2') => self.set_tab(Tab::Formula),
            Key::Char('3') => self.set_tab(Tab::Cask),
            Key::Char('4') | Key::Char('o') => self.set_tab(Tab::Outdated),
            Key::Char(' ') => self.toggle_mark(),
            Key::Char('u') | Key::Char('U') => if self.selected_set.len() > 0 {
                self.confirm_action(
                    upgrade_selected_desc(self.selected_set.len()),
                    PendingAction::UpgradeSelected,
                )
            } else {
                match self.current() {
                    Some(p) => self.confirm_action(
                        upgrade_desc(p),
                        PendingAction::Upgrade(self.selected),
                    ),
                    None => self,
                }
            },
            Key::Char('x') | Key::Char('X') | Key::Char('d') | Key::Char('D') => match self.current() {
                Some(p) => self.confirm_action(uninstall_desc(p), PendingAction::Uninstall(self.selected)),
                None => self,
            },
            Key::Char('a') | Key::Char('A') => if self.outdated_count > 0 {
                self.confirm_action(upgrade_all_desc(self.outdated_count), PendingAction::UpgradeAll)
            } else {
                self
            },
            Key::Char('r') | Key::Char('R') => if self.busy is None {
                AppModel {
                    busy: Some("Updating software sources (brew update)..."@),
                    status: "Syncing Homebrew software sources..."@,
                    outbox: self.outbox.push(JobView::Update),
                    ..self
                }
            } else {
                self
            },
            Key::Char('l') | Key::Char('L') => if self.busy is None {
                AppModel { status: "Reloading package list..."@, ..self.request_load() }
            } else {
                self
            },
            _ => self,
        }
    }

    /// What a key press does, and whether it asks to quit: Control-C always
    /// quits; while a confirmation is asked, y/Y/Enter carries the action out
    /// and n/N/Esc cancels it, and other keys do nothing; otherwise q/Q quits
    /// and the other keys act as `key_action` says.
    pub open spec fn on_key(self, k: KeyPress) -> (AppModel, bool) {
        if k.ctrl && (k.key == Key::Char('c') || k.key == Key::Char('C')) {
            (AppModel { should_quit: true, ..self }, true)
        } else if self.confirm is Some {
            (
                if k.key == Key::Char('y') || k.key == Key::Char('Y') || k.key == Key::Enter {
                    self.execute_confirm()
                } else if k.key == Key::Char('n') || k.key == Key::Char('N') || k.key == Key::Esc {
                    AppModel { confirm: None, ..self }
                } else {
                    self
                },
                false,
            )
        } else if k.key == Key::Char('q') || k.key == Key::Char('Q') {
            (AppModel { should_quit: true, ..self }, true)
        } else {
            (self.key_action(k.key), false)
        }
    }

    /// Starts a job: the interface is busy with `desc` and the job waits for the worker.
    pub open spec fn start_job(self, desc: Seq<char>, job: JobView) -> AppModel {
        AppModel { busy: Some(desc), status: "Working..."@, outbox: self.outbox.push(job), ..self }
    }

    /// Asks for confirmation of `action`, unless a command is running or the view is empty.
    pub open spec fn confirm_action(self, desc: Seq<char>, action: PendingAction) -> AppModel {
        if self.busy is Some || self.filtered.len() == 0 {
            self
        } else {
            AppModel { confirm: Some((desc, action)), ..self }
        }
    }

    /// Carries out the confirmed action and closes the prompt.
    pub open spec fn execute_confirm(self) -> AppModel {
        match self.confirm {
            None => self,
            Some((_, action)) => {
                let s = AppModel { confirm: None, ..self };
                match action {
                    PendingAction::Upgrade(i) => if i < s.filtered.len() {
                        let p = s.packages[s.filtered[i as int] as int];
                        s.start_job(
                            "Upgrading "@ + p.name@ + "..."@,
                            JobView::Upgrade { names: seq![p.name@], kind: p.kind },
                        )
                    } else {
                        s
                    },
                    PendingAction::Uninstall(i) => if i < s.filtered.len() {
                        let p = s.packages[s.filtered[i as int] as int];
                        s.start_job(
                            "Uninstalling "@ + p.name@ + "..."@,
                            JobView::Uninstall { name: p.name@, kind: p.kind },
                        )
                    } else {
                        s
                    },
                    PendingAction::UpgradeAll => s.start_job(
                        "Upgrading all outdated packages..."@,
                        JobView::UpgradeAll,
                    ),
                    PendingAction::UpgradeSelected => {
                        let f = marked_names(s.packages, s.selected_set, Kind::Formula);
                        let c = marked_names(s.packages, s.selected_set, Kind::Cask);
                        if f.len() + c.len() == 0 {
                            s
                        } else {
                            AppModel {
                                busy: Some(
                                    "Upgrading "@ + decimal(f.len() + c.len()) + " selected packages..."@,
                                ),
                                status: "Working..."@,
                                outbox: s.outbox + (if f.len() > 0 {
                                    seq![JobView::Upgrade { names: f, kind: Kind::Formula }]
                                } else {
                                    Seq::empty()
                                }) + (if c.len() > 0 {
                                    seq![JobView::Upgrade { names: c, kind: Kind::Cask }]
                                } else {
                                    Seq::empty()
                                }),
                                ..s
                            }
                        }
                    },
                }
            },
        }
    }

    /// Moves the highlight by `delta` places, wrapping around; the details go
    /// back to their start. Nothing changes when the view is empty.
    pub open spec fn move_selection(self, delta: int) -> AppModel {
        if self.filtered.len() == 0 {
            self
        } else {
            AppModel {
                selected: ((self.selected + delta) % (self.filtered.len() as int)) as usize,
                detail_scroll: 0,
                ..self
            }
        }
    }
}

impl App {
    /// A new, empty interface state.
    pub fn new() -> (app: App)
        ensures
            app@.wf(),
            app@.packages.len() == 0,
            app@.filtered.len() == 0,
            app@.tab == Tab::All,
            app@.selected == 0,
            app@.detail_scroll == 0,
            app@.busy is None,
            app@.status == "Starting..."@,
            app@.confirm is None,
            app@.outdated_count == 0,
            !app@.should_quit,
            app@.last_error is None,
            app@.last_output is None,
            app@.selected_set.len() == 0,
            app@.progress.len() == 0,
            app@.activities.len() == 0,
            app@.outbox.len() == 0,
    {
        let app = App {
            packages: Vec::new(),
            filtered: Vec::new(),
            tab: Tab::All,
            selected: 0,
            detail_scroll: 0,
            busy: None,
            status: new_string("Starting..."),
            confirm: None,
            outdated_count: 0,
            should_quit: false,
            last_error: None,
            last_output: None,
            selected_set: Vec::new(),
            progress: Vec::new(),
            activities: Vec::new(),
            outbox: Vec::new(),
        };
        proof {
            reveal_with_fuel(Seq::filter, 1);
            assert(positions(0) =~= Seq::<usize>::empty());
            assert(app@.filtered =~= visible(app@.packages, app@.tab));
            assert(app@.progress =~= Seq::<Seq<char>>::empty());
            assert(app@.activities =~= Seq::<(ActivityKind, Seq<char>)>::empty());
            assert(app@.outbox =~= Seq::<JobView>::empty());
        }
        app
    }

    /// Asks the worker to load the packages.
    pub fn request_load(&mut self)
        ensures
            final(self)@ == old(self)@.request_load(),
    {
        self.outbox.push(Job::Load);
        proof {
            assert(self@.outbox =~= old(self)@.outbox.push(JobView::Load));
            assert(self@ =~= old(self)@.request_load());
        }
    }

    /// The highlighted package.
    pub fn current(&self) -> (r: Option<&Package>)
        requires
            self@.wf(),
        ensures
            match r {
                Some(p) => self@.current() == Some(*p),
                None => self@.current() is None,
            },
    {
        if self.selected < self.filtered.len() {
            let i = self.filtered[self.selected];
            Some(&self.packages[i])
        } else {
            None
        }
    }

    /// Lists again what the tab shows, keeping the highlight in range.
    fn apply_filter(&mut self)
        ensures
            final(self)@ == old(self)@.refilter(),
            forall|k: int| 0 <= k < final(self)@.filtered.len() ==> #[trigger] final(self)@.filtered[k] < final(self)@.packages.len(),
    {
        let mut filtered: Vec<usize> = Vec::new();
        let n = self.packages.len();
        let ghost pred = shows_at(self.packages@, self.tab);
        for i in 0..n
            invariant
                n == self.packages.len(),
                pred == shows_at(self.packages@, self.tab),
                filtered@ == positions(i as nat).filter(pred),
                forall|k: int| 0 <= k < filtered.len() ==> #[trigger] filtered@[k] < i,
        {
            proof {
                reveal_with_fuel(Seq::filter, 1);
                assert(positions((i + 1) as nat).drop_last() == positions(i as nat));
            }
            let keep = match self.tab {
                Tab::All => true,
                Tab::Formula => self.packages[i].kind == Kind::Formula,
                Tab::Cask => self.packages[i].kind == Kind::Cask,
                Tab::Outdated => self.packages[i].outdated,
            };
            if keep {
                filtered.push(i);
            }
        }
        self.filtered = filtered;
        if self.filtered.len() == 0 {
            self.selected = 0;
        } else if self.selected >= self.filtered.len() {
            self.selected = self.filtered.len() - 1;
        }
        proof {
            assert(self@ =~= old(self)@.refilter());
        }
    }

    /// Switches to another view; see `AppModel::set_tab`.
    pub fn set_tab(&mut self, tab: Tab)
        requires
            old(self)@.wf(),
        ensures
            final(self)@ == old(self)@.set_tab(tab),
            final(self)@.wf(),
    {
        self.tab = tab;
        self.selected = 0;
        self.detail_scroll = 0;
        self.selected_set = Vec::new();
        self.apply_filter();
        proof {
            assert(self@ =~= old(self)@.set_tab(tab));
        }
    }

    /// Moves the highlight by `delta` places; see `AppModel::move_selection`.
    pub fn move_selection(&mut self, delta: isize)
        requires
            old(self)@.wf(),
        ensures
            final(self)@ == old(self)@.move_selection(delta as int),
            final(self)@.wf(),
    {
        if self.filtered.len() == 0 {
            return;
        }
        let len = self.filtered.len();
        let sel = self.selected;
        let new_sel: usize;
        if delta >= 0 {
            let du = delta as usize;
            let d = du % len;
            if d >= len - sel {
                new_sel = d - (len - sel);
            } else {
                new_sel = sel + d;
            }
            proof {
                let q = (du as int) / (len as int);
                vstd::arithmetic::div_mod::lemma_fundamental_div_mod(du as int, len as int);
                let x = sel + delta;
                if d >= len - sel {
                    assert(x == (q + 1) * len + new_sel) by (nonlinear_arith)
                        requires
                            du == len * q + d,
                            x == sel + du,
                            new_sel == d - (len - sel),
                    ;
                    vstd::arithmetic::div_mod::lemma_fundamental_div_mod_converse(
                        x,
                        len as int,
                        q + 1,
                        new_sel as int,
                    );
                } else {
                    assert(x == q * len + new_sel) by (nonlinear_arith)
                        requires
                            du == len * q + d,
                            x == sel + du,
                            new_sel == sel + d,
                    ;
                    vstd::arithmetic::div_mod::lemma_fundamental_div_mod_converse(
                        x,
                        len as int,
                        q,
                        new_sel as int,
                    );
                }
            }
        } else {
            let a = (-(delta + 1)) as usize;
            let m = a % len;
            let back = m + 1;
            if back <= sel {
                new_sel = sel - back;
            } else {
                new_sel = sel + (len - back);
            }
            proof {
                let q = (a as int) / (len as int);
                vstd::arithmetic::div_mod::lemma_fundamental_div_mod(a as int, len as int);
                let x = sel + delta;
                if back <= sel {
                    assert(x == (-q) * len + new_sel) by (nonlinear_arith)
                        requires
                            a == len * q + m,
                            a == -(delta + 1),
                            x == sel + delta,
                            back == m + 1,
                            new_sel == sel - back,
                    ;
                    vstd::arithmetic::div_mod::lemma_fundamental_div_mod_converse(
                        x,
                        len as int,
                        -q,
                        new_sel as int,
                    );
                } else {
                    assert(x == (-q - 1) * len + new_sel) by (nonlinear_arith)
                        requires
                            a == len * q + m,
                            a == -(delta + 1),
                            x == sel + delta,
                            back == m + 1,
                            new_sel == sel + (len - back),
                    ;
                    vstd::arithmetic::div_mod::lemma_fundamental_div_mod_converse(
                        x,
                        len as int,
                        -q - 1,
                        new_sel as int,
                    );
                }
            }
        }
        self.selected = new_sel;
        self.detail_scroll = 0;
        proof {
            assert(self@ =~= old(self)@.move_selection(delta as int));
        }
    }

    /// Starts a job; see `AppModel::start_job`.
    fn start_job(&mut self, desc: String, job: Job)
        ensures
            final(self)@ == old(self)@.start_job(desc@, job@),
    {
        self.busy = Some(desc);
        self.status = new_string("Working...");
        self.outbox.push(job);
        proof {
            assert(self@.outbox =~= old(self)@.outbox.push(job@));
            assert(self@ =~= old(self)@.start_job(desc@, job@));
        }
    }

    /// Asks for confirmation; see `AppModel::confirm_action`.
    fn confirm_action(&mut self, desc: String, action: PendingAction)
        ensures
            final(self)@ == old(self)@.confirm_action(desc@, action),
    {
        if self.busy.is_some() || self.filtered.len() == 0 {
            return;
        }
        self.confirm = Some(Confirm { desc, action });
        proof {
            assert(self@ =~= old(self)@.confirm_action(desc@, action));
        }
    }

    /// The names of the marked formulae and the marked casks, each in list order.
    fn marked_names_by_kind(&self) -> (r: (Vec<String>, Vec<String>))
        ensures
            views(r.0@) == marked_names(self@.packages, self@.selected_set, Kind::Formula),
            views(r.1@) == marked_names(self@.packages, self@.selected_set, Kind::Cask),
            r.0.len() + r.1.len() <= self.packages.len(),
    {
        let mut formulae: Vec<String> = Vec::new();
        let mut casks: Vec<String> = Vec::new();
        let n = self.packages.len();
        let ghost pf = marked_of_kind(self@.packages, self@.selected_set, Kind::Formula);
        let ghost pc = marked_of_kind(self@.packages, self@.selected_set, Kind::Cask);
        let ghost nm = name_at(self@.packages);
        for i in 0..n
            invariant
                n == self.packages.len(),
                pf == marked_of_kind(self@.packages, self@.selected_set, Kind::Formula),
                pc == marked_of_kind(self@.packages, self@.selected_set, Kind::Cask),
                nm == name_at(self@.packages),
                views(formulae@) == positions(i as nat).filter(pf).map_values(nm),
                views(casks@) == positions(i as nat).filter(pc).map_values(nm),
                formulae.len() + casks.len() <= i,
        {
            proof {
                reveal_with_fuel(Seq::filter, 1);
                assert(positions((i + 1) as nat).drop_last() == positions(i as nat));
                assert(positions((i + 1) as nat).last() == i);
            }
            let marked = vec_contains(&self.selected_set, i);
            let ghost ff = formulae@;
            let ghost cc = casks@;
            if marked {
                match self.packages[i].kind {
                    Kind::Formula => {
                        formulae.push(self.packages[i].name.clone());
                        proof {
                            assert(views(formulae@) =~= views(ff).push(self.packages@[i as int].name@));
                        }
                    },
                    Kind::Cask => {
                        casks.push(self.packages[i].name.clone());
                        proof {
                            assert(views(casks@) =~= views(cc).push(self.packages@[i as int].name@));
                        }
                    },
                }
            }
        }
        (formulae, casks)
    }

    /// Carries out the confirmed action; see `AppModel::execute_confirm`.
    fn execute_confirm(&mut self)
        requires
            old(self)@.wf(),
        ensures
            final(self)@ == old(self)@.execute_confirm(),
            final(self)@.wf(),
    {
        let confirm = match self.confirm.take() {
            Some(c) => c,
            None => {
                return;
            },
        };
        let ghost s = AppModel { confirm: None, ..old(self)@ };
        assert(self@ =~= s);
        match confirm.action {
            PendingAction::Upgrade(i) => {
                if i < self.filtered.len() {
                    let idx = self.filtered[i];
                    let name = self.packages[idx].name.clone();
                    let kind = self.packages[idx].kind;
                    let mut desc = new_string("Upgrading ");
                    push_str(&mut desc, name.as_str());
                    push_str(&mut desc, "...");
                    let mut names: Vec<String> = Vec::new();
                    names.push(name);
                    let job = Job::Upgrade { names, kind };
                    assert(job@ == JobView::Upgrade { names: seq![s.packages[idx as int].name@], kind }) by {
                        assert(views(names@) =~= seq![s.packages[idx as int].name@]);
                    }
                    self.start_job(desc, job);
                }
            },
            PendingAction::Uninstall(i) => {
                if i < self.filtered.len() {
                    let idx = self.filtered[i];
                    let name = self.packages[idx].name.clone();
                    let kind = self.packages[idx].kind;
                    let mut desc = new_string("Uninstalling ");
                    push_str(&mut desc, name.as_str());
                    push_str(&mut desc, "...");
                    self.start_job(desc, Job::Uninstall { name, kind });
                }
            },
            PendingAction::UpgradeAll => {
                self.start_job(new_string("Upgrading all outdated packages..."), Job::UpgradeAll);
            },
            PendingAction::UpgradeSelected => {
                let (formulae, casks) = self.marked_names_by_kind();
                let nf = formulae.len();
                let nc = casks.len();
                if nf + nc > 0 {
                    let mut desc = new_string("Upgrading ");
                    push_usize(&mut desc, nf + nc);
                    push_str(&mut desc, " selected packages...");
                    self.busy = Some(desc);
                    self.status = new_string("Working...");
                    let ghost ob = self@.outbox;
                    if nf > 0 {
                        self.outbox.push(Job::Upgrade { names: formulae, kind: Kind::Formula });
                    }
                    let ghost ob2 = self@.outbox;
                    if nc > 0 {
                        self.outbox.push(Job::Upgrade { names: casks, kind: Kind::Cask });
                    }
                    proof {
                        let f = marked_names(s.packages, s.selected_set, Kind::Formula);
                        let c = marked_names(s.packages, s.selected_set, Kind::Cask);
                        assert(ob2 =~= ob + (if f.len() > 0 {
                            seq![JobView::Upgrade { names: f, kind: Kind::Formula }]
                        } else {
                            Seq::empty()
                        }));
                        assert(self@.outbox =~= ob2 + (if c.len() > 0 {
                            seq![JobView::Upgrade { names: c, kind: Kind::Cask }]
                        } else {
                            Seq::empty()
                        }));
                    }
                }
            },
        }
        proof {
            assert(self@ =~= old(self)@.execute_confirm());
        }
    }
}

/// Whether `x` is among the items of `v`.
pub fn vec_contains(v: &Vec<usize>, x: usize) -> (r: bool)
    ensures
        r == v@.contains(x),
{
    let n = v.len();
    for i in 0..n
        invariant
            n == v.len(),
            forall|k: int| 0 <= k < i ==> v@[k] != x,
    {
        if v[i] == x {
            return true;
        }
    }
    false
}

/// Cuts the output of a command for display; see `summarize_spec`.
pub fn summarize(s: &str, max: usize) -> (r: String)
    requires
        summarizable(s@, max as nat),
    ensures
        r@ == summarize_spec(s@, max as nat),
{
    let t = trim_str(s);
    if t.len() <= max {
        new_string(t)
    } else {
        let (head, _) = t.split_at(max);
        proof {
            vstd::utf8::encode_utf8_decode_utf8(head@);
            assert(head.spec_bytes() == vstd::utf8::encode_utf8(head@));
            assert(head.spec_bytes() =~= vstd::utf8::encode_utf8(t@).subrange(0, max as int));
            assert(head@ == vstd::utf8::decode_utf8(
                vstd::utf8::encode_utf8(t@).subrange(0, max as int),
            ));
        }
        let mut r = new_string(head);
        push_str(&mut r, "... (");
        push_usize(&mut r, t.len());
        push_str(&mut r, " chars total)");
        assert(t.spec_bytes() == vstd::utf8::encode_utf8(t@));
        r
    }
}

/// Counts the packages of one kind.
fn count_of_kind(packages: &Vec<Package>, kind: Kind) -> (n: usize)
    ensures
        n == count_kind(packages@, kind),
{
    let mut n: usize = 0;
    let len = packages.len();
    for i in 0..len
        invariant
            len == packages.len(),
            n == packages@.take(i as int).filter(kind_is(kind)).len(),
            n <= i,
    {
        proof {
            reveal_with_fuel(Seq::filter, 1);
            assert(packages@.take(i + 1).drop_last() == packages@.take(i as int));
        }
        if packages[i].kind == kind {
            n = n + 1;
        }
    }
    assert(packages@.take(len as int) == packages@);
    n
}

/// `p` with another outdated flag and latest version.
pub open spec fn with_status(p: Package, outdated: bool, latest: Option<String>) -> Package {
    Package { outdated, latest_version: latest, ..p }
}

/// Marking outdated packages keeps the list's length, and changes no field of
/// a package but its outdated flag and its latest version.
pub proof fn lemma_mark_all_shape(packages: Seq<Package>, entries: Seq<(String, String)>)
    ensures
        mark_all(packages, entries).len() == packages.len(),
        forall|i: int|
            0 <= i < packages.len() ==> (#[trigger] mark_all(packages, entries)[i]).kind
                == packages[i].kind && mark_all(packages, entries)[i].name == packages[i].name,
        forall|i: int|
            0 <= i < packages.len() ==> #[trigger] mark_all(packages, entries)[i] == with_status(
                packages[i],
                mark_all(packages, entries)[i].outdated,
                mark_all(packages, entries)[i].latest_version,
            ),
    decreases entries.len(),
{
    if entries.len() > 0 {
        lemma_mark_all_shape(packages, entries.drop_last());
    }
}

/// The entry at position `k` is the last one that names the first package
/// called `entries[k].0`, at position `i`: after all entries are applied, that
/// package is outdated, has the entry's version as its latest, and keeps every
/// other field.
pub proof fn lemma_mark_all_entry(
    packages: Seq<Package>,
    entries: Seq<(String, String)>,
    k: int,
    i: int,
)
    requires
        0 <= k < entries.len(),
        is_first_named(packages, entries[k].0@, i),
        forall|k2: int| k < k2 < entries.len() ==> (#[trigger] entries[k2]).0@ != entries[k].0@,
    ensures
        mark_all(packages, entries)[i] == with_status(packages[i], true, Some(entries[k].1)),
    decreases entries.len(),
{
    let n = entries.len();
    let prev = entries.drop_last();
    let mid = mark_all(packages, prev);
    lemma_mark_all_shape(packages, prev);
    let last = entries.last();
    if k == n - 1 {
        assert(is_first_named(mid, last.0@, i)) by {
            assert forall|j: int| 0 <= j < i implies (#[trigger] mid[j]).name@ != last.0@ by {
                assert(mid[j].name == packages[j].name);
            }
            assert(mid[i].name == packages[i].name);
        }
        let c = choose|c: int| is_first_named(mid, last.0@, c);
        lemma_first_named_unique(mid, last.0@, c, i);
        assert(mid[i] == with_status(packages[i], mid[i].outdated, mid[i].latest_version));
    } else {
        assert forall|k2: int| k < k2 < prev.len() implies (#[trigger] prev[k2]).0@ != prev[k].0@ by {
            assert(prev[k2] == entries[k2]);
        }
        lemma_mark_all_entry(packages, prev, k, i);
        assert(last.0@ != entries[k].0@) by {
            assert(entries[n - 1] == last);
        }
        if exists|c: int| is_first_named(mid, last.0@, c) {
            let c = choose|c: int| is_first_named(mid, last.0@, c);
            assert(mid[c].name@ == last.0@);
            assert(mid[i].name == packages[i].name);
            assert(c != i);
        }
    }
}

proof fn lemma_first_named_unique(packages: Seq<Package>, name: Seq<char>, i: int, j: int)
    requires
        is_first_named(packages, name, i),
        is_first_named(packages, name, j),
    ensures
        i == j,
{
    if i < j {
        assert(packages[i].name@ != name);
    } else if j < i {
        assert(packages[j].name@ != name);
    }
}

/// Marks the first package named like the entry; see `mark_one`.
fn mark_entry(packages: &mut Vec<Package>, name: &String, latest: &String)
    ensures
        final(packages)@ == mark_one(old(packages)@, (*name, *latest)),
{
    let n = packages.len();
    let mut j: usize = 0;
    while j < n && packages[j].name != *name
        invariant
            n == packages.len(),
            j <= n,
            forall|k: int| 0 <= k < j ==> (#[trigger] packages@[k]).name@ != name@,
        decreases n - j,
    {
        j = j + 1;
    }
    if j == n {
        proof {
            assert(!exists|i: int| is_first_named(old(packages)@, name@, i));
        }
        return;
    }
    let ghost pkgs = packages@;
    proof {
        assert(is_first_named(pkgs, name@, j as int));
        let c = choose|i: int| is_first_named(pkgs, name@, i);
        lemma_first_named_unique(pkgs, name@, c, j as int);
    }
    let mut p = packages.remove(j);
    p.outdated = true;
    p.latest_version = Some(latest.clone());
    packages.insert(j, p);
    proof {
        assert(packages@ =~= mark_one(pkgs, (*name, *latest)));
    }
}

impl App {
    /// Applies one message of the worker; see `AppModel::after_message`.
    pub fn handle_message(&mut self, msg: Msg)
        requires
            old(self)@.wf(),
            message_ok(msg),
        ensures
            final(self)@ == old(self)@.after_message(msg),
            final(self)@.wf(),
    {
        let ghost m = msg;
        match msg {
            Msg::Loading => {
                if self.busy.is_none() {
                    self.busy = Some(new_string("Running brew command..."));
                }
                self.progress = Vec::new();
                proof {
                    assert(self@ =~= old(self)@.after_message(m));
                }
            },
            Msg::Progress(line) => {
                self.progress.push(line);
                proof {
                    assert(self@.progress =~= old(self)@.progress.push(line@));
                    assert(self@ =~= old(self)@.after_message(m));
                }
            },
            Msg::Packages(pkgs) => {
                self.packages = pkgs;
                self.busy = None;
                self.selected_set = Vec::new();
                self.apply_filter();
                let nf = count_of_kind(&self.packages, Kind::Formula);
                let nc = count_of_kind(&self.packages, Kind::Cask);
                let mut status = new_string("Loaded ");
                push_usize(&mut status, self.packages.len());
                push_str(&mut status, " packages (");
                push_usize(&mut status, nf);
                push_str(&mut status, " formulae/");
                push_usize(&mut status, nc);
                push_str(&mut status, " casks), ");
                push_usize(&mut status, self.outdated_count);
                push_str(&mut status, " outdated");
                self.status = status;
                proof {
                    assert(self@ =~= old(self)@.after_message(m));
                }
            },
            Msg::Outdated(entries) => {
                let n = entries.len();
                self.outdated_count = n;
                let ghost p0 = self@.packages;
                let mut packages: Vec<Package> = Vec::new();
                std::mem::swap(&mut packages, &mut self.packages);
                for i in 0..n
                    invariant
                        n == entries.len(),
                        packages@ == mark_all(p0, entries@.take(i as int)),
                {
                    proof {
                        assert(entries@.take(i + 1).drop_last() == entries@.take(i as int));
                    }
                    mark_entry(&mut packages, &entries[i].0, &entries[i].1);
                }
                assert(entries@.take(n as int) == entries@);
                std::mem::swap(&mut packages, &mut self.packages);
                proof {
                    lemma_mark_all_shape(p0, entries@);
                }
                self.apply_filter();
                let mut status = String::new();
                push_usize(&mut status, n);
                push_str(&mut status, " package(s) outdated");
                self.status = status;
                proof {
                    assert(self@ =~= old(self)@.after_message(m));
                }
            },
            Msg::Done { label, ok, output } => {
                self.busy = None;
                self.progress = Vec::new();
                if ok {
                    self.last_output = Some(summarize(output.as_str(), 300));
                    let mut status = new_string(label.as_str());
                    push_str(&mut status, " completed successfully");
                    self.status = status;
                    let mut text = new_string(label.as_str());
                    push_str(&mut text, " completed");
                    self.activities.push(Activity { kind: ActivityKind::Done, text });
                } else {
                    self.last_error = Some(summarize(output.as_str(), 500));
                    let mut status = new_string(label.as_str());
                    push_str(&mut status, " failed (see right panel for details)");
                    self.status = status;
                    let mut text = new_string(label.as_str());
                    push_str(&mut text, " failed");
                    self.activities.push(Activity { kind: ActivityKind::Failed, text });
                }
                proof {
                    assert(self@ =~= old(self)@.after_message(m));
                }
            },
            Msg::Reload => {
                self.request_load();
            },
            Msg::Error(e) => {
                self.busy = None;
                let mut status = new_string("Error: ");
                push_str(&mut status, e.as_str());
                let mut text = new_string("Error: ");
                push_str(&mut text, e.as_str());
                self.status = status;
                self.last_error = Some(e);
                self.activities.push(Activity { kind: ActivityKind::Error, text });
                proof {
                    assert(self@ =~= old(self)@.after_message(m));
                }
            },
        }
    }

    /// Applies the messages of the worker in order; see `AppModel::after_messages`.
    pub fn poll_messages(&mut self, msgs: Vec<Msg>)
        requires
            old(self)@.wf(),
            messages_ok(msgs@),
        ensures
            final(self)@ == old(self)@.after_messages(msgs@),
            final(self)@.wf(),
    {
        let ghost all = msgs@;
        let ghost start = self@;
        let mut msgs = msgs;
        let n = msgs.len();
        assert(all.skip(0) == all);
        for done in 0..n
            invariant
                n == all.len(),
                self@.wf(),
                messages_ok(all),
                msgs@ == all.skip(done as int),
                self@ == start.after_messages(all.take(done as int)),
        {
            let msg = msgs.remove(0);
            assert(msg == all[done as int]);
            assert(all.take(done + 1).drop_last() == all.take(done as int));
            self.handle_message(msg);
            assert(msgs@ == all.skip(done + 1));
        }
        assert(all.take(n as int) == all);
    }

    /// Marks or unmarks the highlighted package; see `AppModel::toggle_mark`.
    pub fn toggle_mark(&mut self)
        requires
            old(self)@.wf(),
        ensures
            final(self)@ == old(self)@.toggle_mark(),
            final(self)@.wf(),
    {
        if self.selected >= self.filtered.len() {
            return;
        }
        let i = self.filtered[self.selected];
        let n = self.selected_set.len();
        let mut pos: usize = 0;
        while pos < n && self.selected_set[pos] != i
            invariant
                n == self.selected_set.len(),
                pos <= n,
                forall|k: int| 0 <= k < pos ==> self.selected_set@[k] != i,
            decreases n - pos,
        {
            pos = pos + 1;
        }
        let ghost set = self.selected_set@;
        if pos < n {
            proof {
                assert(set[pos as int] == i);
                set.index_of_first_ensures(i);
                let c = set.index_of_first(i).unwrap();
                if c < pos {
                    assert(set[c] != i);
                } else if c > pos {
                    assert(set[pos as int] != i);
                }
            }
            self.selected_set.remove(pos);
            proof {
                assert(self.selected_set@ == set.remove_value(i));
                assert forall|a: int, b: int|
                    0 <= a < self.selected_set@.len() && 0 <= b < self.selected_set@.len() && a
                        != b implies self.selected_set@[a] != self.selected_set@[b] by {
                    let a2 = if a < pos { a } else { a + 1 };
                    let b2 = if b < pos { b } else { b + 1 };
                    assert(self.selected_set@[a] == set[a2]);
                    assert(self.selected_set@[b] == set[b2]);
                }
            }
        } else {
            proof {
                assert(!set.contains(i));
            }
            self.selected_set.push(i);
        }
        proof {
            assert(self@ =~= old(self)@.toggle_mark());
        }
    }

    /// Handles a key press; returns whether it asks to quit. See `AppModel::on_key`.
    pub fn on_key(&mut self, key: KeyPress) -> (quit: bool)
        requires
            old(self)@.wf(),
        ensures
            (final(self)@, quit) == old(self)@.on_key(key),
            final(self)@.wf(),
    {
        if key.ctrl && (key.key == Key::Char('c') || key.key == Key::Char('C')) {
            self.should_quit = true;
            proof {
                assert(self@ =~= old(self)@.on_key(key).0);
            }
            return true;
        }
        if self.confirm.is_some() {
            if key.key == Key::Char('y') || key.key == Key::Char('Y') || key.key == Key::Enter {
                self.execute_confirm();
            } else if key.key == Key::Char('n') || key.key == Key::Char('N') || key.key == Key::Esc {
                self.confirm = None;
                proof {
                    assert(self@ =~= old(self)@.on_key(key).0);
                }
            }
            return false;
        }
        if key.key == Key::Char('q') || key.key == Key::Char('Q') {
            self.should_quit = true;
            proof {
                assert(self@ =~= old(self)@.on_key(key).0);
            }
            return true;
        }
        self.key_action(key.key);
        false
    }

    fn key_action(&mut self, key: Key)
        requires
            old(self)@.wf(),
        ensures
            final(self)@ == old(self)@.key_action(key),
            final(self)@.wf(),
    {
        match key {
            Key::Char('j') | Key::Down => self.move_selection(1),
            Key::Char('k') | Key::Up => self.move_selection(-1),
            Key::Char('g') => {
                self.selected = 0;
                proof {
                    assert(self@ =~= old(self)@.key_action(key));
                }
            },
            Key::Char('G') => {
                self.selected = self.filtered.len().saturating_sub(1);
                proof {
                    assert(self@ =~= old(self)@.key_action(key));
                }
            },
            Key::PageDown => {
                self.detail_scroll = self.detail_scroll.saturating_add(5);
                proof {
                    assert(self@ =~= old(self)@.key_action(key));
                }
            },
            Key::PageUp => {
                self.detail_scroll = self.detail_scroll.saturating_sub(5);
                proof {
                    assert(self@ =~= old(self)@.key_action(key));
                }
            },
            Key::Tab => {
                let t = self.tab.next();
                self.set_tab(t);
            },
            Key::BackTab => {
                let t = self.tab.prev();
                self.set_tab(t);
            },
            Key::Char('1') => self.set_tab(Tab::All),
            Key::Char('2') => self.set_tab(Tab::Formula),
            Key::Char('3') => self.set_tab(Tab::Cask),
            Key::Char('4') | Key::Char('o') => self.set_tab(Tab::Outdated),
            Key::Char(' ') => self.toggle_mark(),
            Key::Char('u') | Key::Char('U') => {
                if self.selected_set.len() > 0 {
                    let mut desc = new_string("Upgrade ");
                    push_usize(&mut desc, self.selected_set.len());
                    push_str(&mut desc, " selected packages");
                    self.confirm_action(desc, PendingAction::UpgradeSelected);
                } else {
                    let desc = match self.current() {
                        Some(p) => Some(upgrade_text(p)),
                        None => None,
                    };
                    match desc {
                        Some(d) => {
                            let i = self.selected;
                            self.confirm_action(d, PendingAction::Upgrade(i));
                        },
                        None => {},
                    }
                }
            },
            Key::Char('x') | Key::Char('X') | Key::Char('d') | Key::Char('D') => {
                let desc = match self.current() {
                    Some(p) => Some(uninstall_text(p)),
                    None => None,
                };
                match desc {
                    Some(d) => {
                        let i = self.selected;
                        self.confirm_action(d, PendingAction::Uninstall(i));
                    },
                    None => {},
                }
            },
            Key::Char('a') | Key::Char('A') => {
                if self.outdated_count > 0 {
                    let mut desc = new_string("Upgrade all ");
                    push_usize(&mut desc, self.outdated_count);
                    push_str(&mut desc, " outdated packages");
                    self.confirm_action(desc, PendingAction::UpgradeAll);
                }
            },
            Key::Char('r') | Key::Char('R') => {
                if self.busy.is_none() {
                    self.busy = Some(new_string("Updating software sources (brew update)..."));
                    self.status = new_string("Syncing Homebrew software sources...");
                    self.outbox.push(Job::Update);
                    proof {
                        assert(self@.outbox =~= old(self)@.outbox.push(JobView::Update));
                        assert(self@ =~= old(self)@.key_action(key));
                    }
                }
            },
            Key::Char('l') | Key::Char('L') => {
                if self.busy.is_none() {
                    self.request_load();
                    self.status = new_string("Reloading package list...");
                    proof {
                        assert(self@ =~= old(self)@.key_action(key));
                    }
                }
            },
            _ => {},
        }
    }

    /// Hands over the jobs that wait for the worker, oldest first.
    pub fn take_jobs(&mut self) -> (jobs: Vec<Job>)
        ensures
            jobs@.map_values(|j: Job| j@) == old(self)@.outbox,
            final(self)@ == (AppModel { outbox: Seq::empty(), ..old(self)@ }),
    {
        let mut jobs: Vec<Job> = Vec::new();
        std::mem::swap(&mut jobs, &mut self.outbox);
        proof {
            assert(self@ =~= (AppModel { outbox: Seq::empty(), ..old(self)@ }));
        }
        jobs
    }
}

/// The question asked before upgrading a package; see `upgrade_desc`.
fn upgrade_text(p: &Package) -> (s: String)
    ensures
        s@ == upgrade_desc(*p),
{
    let mut s = new_string("Upgrade ");
    push_str(&mut s, p.name.as_str());
    if p.outdated {
        push_str(&mut s, ": ");
        push_version(&mut s, &p.current_version);
        push_str(&mut s, " → ");
        push_version(&mut s, &p.latest_version);
    } else {
        push_str(&mut s, " (already up to date)");
    }
    s
}

/// The question asked before uninstalling a package; see `uninstall_desc`.
fn uninstall_text(p: &Package) -> (s: String)
    ensures
        s@ == uninstall_desc(*p),
{
    let mut s = new_string("Uninstall ");
    push_str(&mut s, p.name.as_str());
    push_str(&mut s, " (");
    push_version(&mut s, &p.current_version);
    push_str(&mut s, " ");
    push_str(&mut s, p.kind.label());
    push_str(&mut s, ")");
    s
}

/// Appends a version, or `?` when there is none.
fn push_version(s: &mut String, v: &Option<String>)
    ensures
        final(s)@ == old(s)@ + or_question(*v),
{
    match v {
        Some(x) => push_str(s, x.as_str()),
        None => push_str(s, "?"),
    }
}

} // verus!
