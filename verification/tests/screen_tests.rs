use brewman::app::{App, Key, KeyPress};
use brewman::brew::Msg;
use brewman::model::{Kind, Package};
use brewman::screen::{build_detail, one_line_string, package_line, Bottom, LineRole, Role};

fn s(v: &str) -> String {
    v.to_string()
}

fn wget() -> Package {
    Package {
        kind: Kind::Formula,
        name: s("wget"),
        display_name: s("wget"),
        current_version: Some(s("1.21.3")),
        latest_version: Some(s("1.21.4")),
        head_version: Some(s("HEAD")),
        installed_versions: vec![s("1.21.3"), s("1.20.0")],
        outdated: true,
        pinned: false,
        installed_as_dependency: false,
        installed_on_request: true,
        auto_updates: false,
        dependencies: vec![s("openssl@3"), s("libidn2")],
        desc: Some(s("Internet file retriever")),
        homepage: None,
        caveats: Some(s("line one\nline two")),
    }
}

fn code() -> Package {
    Package {
        kind: Kind::Cask,
        name: s("visual-studio-code"),
        display_name: s("Visual Studio Code"),
        current_version: None,
        latest_version: None,
        head_version: None,
        installed_versions: vec![],
        outdated: false,
        pinned: true,
        installed_as_dependency: true,
        installed_on_request: false,
        auto_updates: true,
        dependencies: vec![],
        desc: None,
        homepage: Some(s("https://code.visualstudio.com/")),
        caveats: None,
    }
}

#[test]
fn detail_of_a_formula() {
    let d = build_detail(&wget());
    let expected = "Name            : wget\n\
Type            : formula\n\
Current         : 1.21.3\n\
Latest          : 1.21.4\n\
Candidates      : HEAD: HEAD, installed: 1.20.0\n\
\n\
Status          : outdated, installed on request\n\
Dependencies    : openssl@3, libidn2\n\
Description     : Internet file retriever\n\
Notes           : line one line two\n";
    assert_eq!(d, expected);
}

#[test]
fn detail_of_a_cask() {
    let d = build_detail(&code());
    let expected = "Name            : visual-studio-code\n\
Type            : cask\n\
App name        : Visual Studio Code\n\
Current         : not installed/unknown\n\
Latest          : unknown\n\
Candidates      : (no other candidates)\n\
\n\
Status          : pinned, installed as dependency, auto-updates\n\
Homepage        : https://code.visualstudio.com/\n";
    assert_eq!(d, expected);
}

#[test]
fn detail_of_a_plain_package_is_normal() {
    let mut p = code();
    p.pinned = false;
    p.installed_as_dependency = false;
    p.auto_updates = false;
    assert!(build_detail(&p).contains("Status          : normal\n"));
}

#[test]
fn line_breaks_become_spaces() {
    assert_eq!(one_line_string("a\nb\n"), "a b ");
}

#[test]
fn list_lines() {
    let l = package_line(&wget(), true);
    let parts: Vec<(&str, Role)> = l.iter().map(|p| (p.text.as_str(), p.role)).collect();
    assert_eq!(
        parts,
        vec![
            ("✓ ", Role::Mark),
            ("wget", Role::OutdatedName),
            (" 1.21.3", Role::Version),
            (" → ", Role::Arrow),
            ("1.21.4", Role::Latest),
            (" [outdated]", Role::OutdatedTag),
        ]
    );
    let l = package_line(&code(), false);
    let parts: Vec<(&str, Role)> = l.iter().map(|p| (p.text.as_str(), p.role)).collect();
    assert_eq!(
        parts,
        vec![
            ("  ", Role::Mark),
            ("visual-studio-code", Role::Name),
            (" ?", Role::Version),
            (" [pinned]", Role::PinnedTag),
            (" [dep]", Role::DependencyTag),
            (" [auto-update]", Role::AutoUpdateTag),
        ]
    );
}

fn loaded() -> App {
    let mut app = App::new();
    app.poll_messages(vec![Msg::Packages(vec![wget(), code()])]);
    app
}

#[test]
fn panel_texts() {
    let mut app = loaded();
    assert_eq!(app.list_title(), " Packages  2 / 2  ");
    assert_eq!(app.stats_text(), "Installed 2   Outdated 0   Current: wget");
    assert_eq!(app.list_selection(), Some(0));
    assert_eq!(app.detail_title(), " Details ");
    assert!(!app.status_is_error());
    assert!(app.busy_text().is_none());
    app.on_key(KeyPress { key: Key::Char(' '), ctrl: false });
    assert_eq!(app.list_title(), " Packages  2 / 2  (1 selected)  ");
    app.on_key(KeyPress { key: Key::Char('3'), ctrl: false });
    assert_eq!(app.list_title(), " Packages  1 / 2  ");
    app.poll_messages(vec![Msg::Error(s("boom"))]);
    assert!(app.status_is_error());
    assert_eq!(app.detail_title(), " Details (with errors) ");
    let text = app.detail_text();
    assert!(text.starts_with("[Error] boom\n\nName            : visual-studio-code\n"));
}

#[test]
fn empty_view_texts() {
    let app = App::new();
    assert_eq!(app.stats_text(), "Installed 0   Outdated 0   Current: —");
    assert_eq!(app.list_selection(), None);
    assert_eq!(
        app.detail_text(),
        "(no selection)\n\nPress Tab to switch views, ↑/↓ to select."
    );
    assert!(matches!(app.bottom(), Bottom::Help));
}

#[test]
fn activity_panel() {
    let mut app = loaded();
    app.poll_messages(vec![
        Msg::Done { label: s("A"), ok: true, output: s("") },
        Msg::Done { label: s("B"), ok: false, output: s("") },
        Msg::Error(s("C")),
        Msg::Loading,
        Msg::Progress(s("1")),
        Msg::Progress(s("2")),
        Msg::Progress(s("3")),
        Msg::Progress(s("4")),
    ]);
    let lines: Vec<(String, LineRole)> =
        app.activity_lines(8).into_iter().map(|l| (l.text, l.role)).collect();
    assert_eq!(
        lines,
        vec![
            (s("▶ Running brew command..."), LineRole::Running),
            (s("  2"), LineRole::Progress),
            (s("  3"), LineRole::Progress),
            (s("  4"), LineRole::Progress),
            (s("Error: C"), LineRole::Failed),
            (s("B failed"), LineRole::Failed),
        ]
    );
    assert_eq!(app.busy_text(), Some(s("[Busy] Running brew command...")));
    assert!(matches!(app.bottom(), Bottom::Busy));
    let short: Vec<LineRole> = app.activity_lines(3).into_iter().map(|l| l.role).collect();
    assert_eq!(short.len(), 4);
}

#[test]
fn bottom_line_asks_pending_question() {
    let mut app = loaded();
    app.on_key(KeyPress { key: Key::Char('u'), ctrl: false });
    match app.bottom() {
        Bottom::Confirm(t) => assert_eq!(t, "Confirm: Upgrade wget: 1.21.3 → 1.21.4?"),
        _ => panic!("expected a question"),
    }
}
