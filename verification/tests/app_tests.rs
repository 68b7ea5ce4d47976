use brewman::app::{summarize, ActivityKind, App, Key, KeyPress, PendingAction, Tab};
use brewman::brew::{Job, Msg};
use brewman::model::{Kind, Package};

fn s(v: &str) -> String {
    v.to_string()
}

fn pkg(name: &str, kind: Kind, outdated: bool) -> Package {
    Package {
        kind,
        name: s(name),
        display_name: s(name),
        current_version: Some(s("1.0")),
        latest_version: Some(s("2.0")),
        head_version: None,
        installed_versions: vec![s("1.0")],
        outdated,
        pinned: false,
        installed_as_dependency: false,
        installed_on_request: true,
        auto_updates: false,
        dependencies: vec![],
        desc: None,
        homepage: None,
        caveats: None,
    }
}

fn key(c: char) -> KeyPress {
    KeyPress { key: Key::Char(c), ctrl: false }
}

fn special(k: Key) -> KeyPress {
    KeyPress { key: k, ctrl: false }
}

/// An interface with `wget` (outdated formula), `jq` (formula), `firefox` (cask).
fn loaded() -> App {
    let mut app = App::new();
    app.poll_messages(vec![Msg::Packages(vec![
        pkg("wget", Kind::Formula, true),
        pkg("jq", Kind::Formula, false),
        pkg("firefox", Kind::Cask, false),
    ])]);
    app
}

fn job_names(jobs: &[Job]) -> Vec<String> {
    jobs.iter()
        .map(|j| match j {
            Job::Load => s("load"),
            Job::Update => s("update"),
            Job::Uninstall { name, kind } => format!("uninstall {} {:?}", name, kind),
            Job::Upgrade { names, kind } => format!("upgrade {} {:?}", names.join(","), kind),
            Job::UpgradeAll => s("upgrade-all"),
        })
        .collect()
}

#[test]
fn tab_cycles_through_four_views() {
    let mut t = Tab::All;
    let mut seen = vec![];
    for _ in 0..4 {
        seen.push(t.index());
        assert_eq!(t.next().prev(), t);
        t = t.next();
    }
    assert_eq!(t, Tab::All);
    assert_eq!(seen, vec![0, 1, 2, 3]);
    assert_eq!(Tab::All.prev(), Tab::Outdated);
}

#[test]
fn new_app_is_idle_and_empty() {
    let app = App::new();
    assert_eq!(app.status, "Starting...");
    assert!(app.packages.is_empty() && app.filtered.is_empty());
    assert!(app.busy.is_none() && app.confirm.is_none() && !app.should_quit);
    assert!(app.current().is_none());
}

#[test]
fn request_load_queues_a_load() {
    let mut app = App::new();
    app.request_load();
    assert_eq!(job_names(&app.take_jobs()), vec![s("load")]);
    assert!(app.take_jobs().is_empty());
}

#[test]
fn packages_message_fills_the_list() {
    let app = loaded();
    assert_eq!(app.filtered, vec![0, 1, 2]);
    assert_eq!(app.status, "Loaded 3 packages (2 formulae/1 casks), 0 outdated");
    assert_eq!(app.current().map(|p| p.name.as_str()), Some("wget"));
}

#[test]
fn tabs_filter_the_list() {
    let mut app = loaded();
    app.on_key(special(Key::Tab));
    assert_eq!(app.tab, Tab::Formula);
    assert_eq!(app.filtered, vec![0, 1]);
    app.on_key(key('3'));
    assert_eq!(app.filtered, vec![2]);
    app.on_key(key('o'));
    assert_eq!(app.tab, Tab::Outdated);
    assert_eq!(app.filtered, vec![0]);
    app.on_key(special(Key::BackTab));
    assert_eq!(app.tab, Tab::Cask);
    app.on_key(key('1'));
    assert_eq!(app.filtered, vec![0, 1, 2]);
}

#[test]
fn navigation_wraps_around() {
    let mut app = loaded();
    app.on_key(key('k'));
    assert_eq!(app.selected, 2);
    app.on_key(special(Key::Down));
    assert_eq!(app.selected, 0);
    app.on_key(key('j'));
    app.on_key(key('j'));
    assert_eq!(app.selected, 2);
    app.on_key(key('g'));
    assert_eq!(app.selected, 0);
    app.on_key(key('G'));
    assert_eq!(app.selected, 2);
}

#[test]
fn details_scroll_saturates() {
    let mut app = loaded();
    app.on_key(special(Key::PageUp));
    assert_eq!(app.detail_scroll, 0);
    app.on_key(special(Key::PageDown));
    app.on_key(special(Key::PageDown));
    assert_eq!(app.detail_scroll, 10);
    app.on_key(key('j'));
    assert_eq!(app.detail_scroll, 0);
}

#[test]
fn quit_keys() {
    let mut app = loaded();
    assert!(app.on_key(key('q')));
    assert!(app.should_quit);
    let mut app = loaded();
    assert!(app.on_key(KeyPress { key: Key::Char('c'), ctrl: true }));
    let mut app = loaded();
    assert!(!app.on_key(key('c')));
    assert!(!app.should_quit);
}

#[test]
fn upgrade_asks_then_runs() {
    let mut app = loaded();
    assert!(!app.on_key(key('u')));
    let c = app.confirm.as_ref().expect("prompt");
    assert_eq!(c.desc, "Upgrade wget: 1.0 → 2.0");
    assert_eq!(c.action, PendingAction::Upgrade(0));
    // q does not quit while a prompt is open
    assert!(!app.on_key(key('q')));
    assert!(app.take_jobs().is_empty());
    app.on_key(key('y'));
    assert!(app.confirm.is_none());
    assert_eq!(app.busy.as_deref(), Some("Upgrading wget..."));
    assert_eq!(app.status, "Working...");
    assert_eq!(job_names(&app.take_jobs()), vec![s("upgrade wget Formula")]);
}

#[test]
fn upgrade_of_current_package_says_up_to_date() {
    let mut app = loaded();
    app.on_key(key('j'));
    app.on_key(key('U'));
    assert_eq!(app.confirm.as_ref().unwrap().desc, "Upgrade jq (already up to date)");
}

#[test]
fn uninstall_asks_and_can_be_declined() {
    let mut app = loaded();
    app.on_key(key('G'));
    app.on_key(key('x'));
    assert_eq!(app.confirm.as_ref().unwrap().desc, "Uninstall firefox (1.0 cask)");
    app.on_key(special(Key::Esc));
    assert!(app.confirm.is_none());
    assert!(app.take_jobs().is_empty());
    app.on_key(key('d'));
    app.on_key(special(Key::Enter));
    assert_eq!(job_names(&app.take_jobs()), vec![s("uninstall firefox Cask")]);
    assert_eq!(app.busy.as_deref(), Some("Uninstalling firefox..."));
}

#[test]
fn no_prompt_while_busy() {
    let mut app = loaded();
    app.on_key(key('r'));
    assert_eq!(app.busy.as_deref(), Some("Updating software sources (brew update)..."));
    assert_eq!(app.status, "Syncing Homebrew software sources...");
    app.on_key(key('u'));
    assert!(app.confirm.is_none());
    app.on_key(key('r'));
    app.on_key(key('l'));
    assert_eq!(job_names(&app.take_jobs()), vec![s("update")]);
}

#[test]
fn reload_key() {
    let mut app = loaded();
    app.on_key(key('L'));
    assert_eq!(app.status, "Reloading package list...");
    assert_eq!(job_names(&app.take_jobs()), vec![s("load")]);
}

#[test]
fn upgrade_all_needs_outdated_packages() {
    let mut app = loaded();
    app.on_key(key('a'));
    assert!(app.confirm.is_none());
    app.poll_messages(vec![Msg::Outdated(vec![(s("wget"), s("2.1"))])]);
    assert_eq!(app.outdated_count, 1);
    assert_eq!(app.status, "1 package(s) outdated");
    assert_eq!(app.packages[0].latest_version.as_deref(), Some("2.1"));
    app.on_key(key('A'));
    assert_eq!(app.confirm.as_ref().unwrap().desc, "Upgrade all 1 outdated packages");
    app.on_key(key('Y'));
    assert_eq!(job_names(&app.take_jobs()), vec![s("upgrade-all")]);
    assert_eq!(app.busy.as_deref(), Some("Upgrading all outdated packages..."));
}

#[test]
fn outdated_message_marks_first_package_with_name() {
    let mut app = loaded();
    app.on_key(key('4'));
    assert_eq!(app.filtered, vec![0]);
    app.poll_messages(vec![Msg::Outdated(vec![
        (s("firefox"), s("130.0")),
        (s("unknown"), s("9")),
    ])]);
    assert!(app.packages[2].outdated);
    assert_eq!(app.packages[2].latest_version.as_deref(), Some("130.0"));
    assert_eq!(app.outdated_count, 2);
    assert_eq!(app.filtered, vec![0, 2]);
}

#[test]
fn marks_and_batch_upgrade() {
    let mut app = loaded();
    app.on_key(key(' '));
    app.on_key(key('G'));
    app.on_key(key(' '));
    app.on_key(key('k'));
    app.on_key(key(' '));
    app.on_key(key(' '));
    assert_eq!(app.selected_set, vec![0, 2]);
    assert!(app.is_marked(2) && !app.is_marked(1));
    app.on_key(key('u'));
    let c = app.confirm.as_ref().unwrap();
    assert_eq!(c.desc, "Upgrade 2 selected packages");
    assert_eq!(c.action, PendingAction::UpgradeSelected);
    app.on_key(key('y'));
    assert_eq!(app.busy.as_deref(), Some("Upgrading 2 selected packages..."));
    assert_eq!(
        job_names(&app.take_jobs()),
        vec![s("upgrade wget Formula"), s("upgrade firefox Cask")]
    );
}

#[test]
fn switching_tabs_clears_marks() {
    let mut app = loaded();
    app.on_key(key(' '));
    assert_eq!(app.selected_set.len(), 1);
    app.on_key(special(Key::Tab));
    assert!(app.selected_set.is_empty());
    assert_eq!(app.selected, 0);
}

#[test]
fn new_package_list_clears_marks() {
    let mut app = loaded();
    app.on_key(key(' '));
    app.poll_messages(vec![Msg::Packages(vec![pkg("a", Kind::Cask, false)])]);
    assert!(app.selected_set.is_empty());
    assert_eq!(app.filtered, vec![0]);
}

#[test]
fn selection_is_clamped_when_list_shrinks() {
    let mut app = loaded();
    app.on_key(key('G'));
    app.poll_messages(vec![Msg::Packages(vec![pkg("a", Kind::Cask, false)])]);
    assert_eq!(app.selected, 0);
    app.poll_messages(vec![Msg::Packages(vec![])]);
    assert!(app.current().is_none());
    app.on_key(key('j'));
    assert_eq!(app.selected, 0);
}

#[test]
fn worker_messages_update_status_and_history() {
    let mut app = loaded();
    app.poll_messages(vec![
        Msg::Loading,
        Msg::Progress(s("==> Downloading")),
        Msg::Progress(s("==> Pouring")),
    ]);
    assert_eq!(app.busy.as_deref(), Some("Running brew command..."));
    assert_eq!(app.progress, vec![s("==> Downloading"), s("==> Pouring")]);
    app.poll_messages(vec![Msg::Done { label: s("Upgrade wget"), ok: true, output: s("  done\n") }]);
    assert!(app.busy.is_none());
    assert!(app.progress.is_empty());
    assert_eq!(app.last_output.as_deref(), Some("done"));
    assert_eq!(app.status, "Upgrade wget completed successfully");
    assert_eq!(app.activities[0].kind, ActivityKind::Done);
    assert_eq!(app.activities[0].text, "Upgrade wget completed");
    app.poll_messages(vec![Msg::Done { label: s("Uninstall jq"), ok: false, output: s("boom") }]);
    assert_eq!(app.last_error.as_deref(), Some("boom"));
    assert_eq!(app.status, "Uninstall jq failed (see right panel for details)");
    assert_eq!(app.activities[1].kind, ActivityKind::Failed);
    assert_eq!(app.activities[1].text, "Uninstall jq failed");
    app.poll_messages(vec![Msg::Error(s("no brew"))]);
    assert_eq!(app.status, "Error: no brew");
    assert_eq!(app.last_error.as_deref(), Some("no brew"));
    assert_eq!(app.activities[2].kind, ActivityKind::Error);
    app.poll_messages(vec![Msg::Reload]);
    assert_eq!(job_names(&app.take_jobs()), vec![s("load")]);
}

#[test]
fn loading_keeps_an_existing_busy_text() {
    let mut app = loaded();
    app.on_key(key('r'));
    app.poll_messages(vec![Msg::Loading]);
    assert_eq!(app.busy.as_deref(), Some("Updating software sources (brew update)..."));
}

#[test]
fn summarize_cuts_long_output() {
    assert_eq!(summarize("  hello  ", 300), "hello");
    assert_eq!(summarize("abcdef", 3), "abc... (6 chars total)");
    assert_eq!(summarize("\n\tabc\n", 3), "abc");
    assert_eq!(summarize("héllo", 3), "hé... (6 chars total)");
}
