use brewman::brew::{
    command_outcome, finished_messages, job_command, outdated_message, packages_message, to_pair,
    Job, Msg,
};
use brewman::model::Kind;

fn s(v: &str) -> String {
    v.to_string()
}

#[test]
fn load_runs_no_single_command() {
    assert!(job_command(&Job::Load).is_none());
}

#[test]
fn update_command() {
    let (label, args) = job_command(&Job::Update).unwrap();
    assert_eq!(label, "Update software sources (brew update)");
    assert_eq!(args, vec![s("update")]);
}

#[test]
fn uninstall_commands() {
    let (label, args) = job_command(&Job::Uninstall { name: s("wget"), kind: Kind::Formula }).unwrap();
    assert_eq!(args, vec![s("uninstall"), s("wget")]);
    assert_eq!(label, "Uninstall wget (brew uninstall wget)");
    let (label, args) = job_command(&Job::Uninstall { name: s("firefox"), kind: Kind::Cask }).unwrap();
    assert_eq!(args, vec![s("uninstall"), s("--cask"), s("firefox")]);
    assert_eq!(label, "Uninstall firefox (brew uninstall --cask firefox)");
}

#[test]
fn upgrade_commands() {
    let (label, args) =
        job_command(&Job::Upgrade { names: vec![s("wget"), s("jq")], kind: Kind::Formula }).unwrap();
    assert_eq!(args, vec![s("upgrade"), s("wget"), s("jq")]);
    assert_eq!(label, "Upgrade wget jq (brew upgrade wget jq)");
    let (label, args) =
        job_command(&Job::Upgrade { names: vec![s("firefox")], kind: Kind::Cask }).unwrap();
    assert_eq!(args, vec![s("upgrade"), s("--cask"), s("firefox")]);
    assert_eq!(label, "Upgrade firefox (brew upgrade --cask firefox)");
    let (label, args) = job_command(&Job::UpgradeAll).unwrap();
    assert_eq!(args, vec![s("upgrade")]);
    assert_eq!(label, "Upgrade all outdated packages (brew upgrade)");
}

#[test]
fn pairs() {
    assert_eq!(to_pair(Ok(s("out"))), (true, s("out")));
    assert_eq!(to_pair(Err(s("err"))), (false, s("err")));
}

#[test]
fn finished_command_reports_then_reloads() {
    let msgs = finished_messages(s("Update"), Err(s("offline")));
    assert_eq!(msgs.len(), 2);
    match &msgs[0] {
        Msg::Done { label, ok, output } => {
            assert_eq!(label, "Update");
            assert!(!ok);
            assert_eq!(output, "offline");
        }
        _ => panic!("expected Done"),
    }
    assert!(matches!(msgs[1], Msg::Reload));
}

#[test]
fn load_results_become_messages() {
    assert!(matches!(packages_message(Ok(vec![])), Msg::Packages(_)));
    assert!(matches!(packages_message(Err(s("x"))), Msg::Error(_)));
    assert!(matches!(outdated_message(Ok(vec![(s("a"), s("1"))])), Msg::Outdated(_)));
    assert!(matches!(outdated_message(Err(s("x"))), Msg::Error(_)));
}

#[test]
fn outcomes_of_commands() {
    let args = vec![s("info"), s("--json=v2")];
    assert_eq!(command_outcome(&args, true, s("{}"), s("warn"), Some(0), false), Ok(s("{}")));
    assert_eq!(
        command_outcome(&args, false, s(""), s("  \n"), Some(1), false),
        Err(s("brew info --json=v2 failed (exit code Some(1))"))
    );
    assert_eq!(
        command_outcome(&args, false, s(""), s(""), None, true),
        Err(s("brew info --json=v2 failed (exit code None)"))
    );
    assert_eq!(
        command_outcome(&args, false, s(""), s(""), Some(-2), true),
        Err(s("brew info --json=v2 failed (exit code Some(-2))"))
    );
    assert_eq!(
        command_outcome(&args, false, s(""), s(" Error: x \n"), Some(1), false),
        Err(s(" Error: x \n"))
    );
    assert_eq!(
        command_outcome(&args, false, s(""), s(" Error: x \n"), Some(1), true),
        Err(s("Error: x"))
    );
}
