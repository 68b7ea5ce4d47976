//! The jobs that the interface hands to the background worker, the messages
//! that the worker sends back, and the worker's decisions: which `brew`
//! command a job runs, under which label, and what a finished command reports.
use vstd::prelude::*;

use crate::model::{Kind, Package};
use crate::text::{join, join_strings, new_string, push_str, push_i32, signed_decimal, trim, trim_str, views};

verus! {

/// A job for the background worker.
pub enum Job {
    /// Load the installed packages (and then the outdated ones).
    Load,
    /// Update Homebrew's sources (`brew update`); a reload follows.
    Update,
    /// Uninstall one package.
    Uninstall { name: String, kind: Kind },
    /// Upgrade some packages of one kind in a single `brew upgrade`.
    Upgrade { names: Vec<String>, kind: Kind },
    /// Upgrade every outdated package.
    UpgradeAll,
}

/// What a job asks for, with its strings taken as character sequences.
pub enum JobView {
    Load,
    Update,
    Uninstall { name: Seq<char>, kind: Kind },
    Upgrade { names: Seq<Seq<char>>, kind: Kind },
    UpgradeAll,
}

impl View for Job {
    type V = JobView;

    open spec fn view(&self) -> JobView {
        match self {
            Job::Load => JobView::Load,
            Job::Update => JobView::Update,
            Job::Uninstall { name, kind } => JobView::Uninstall { name: name@, kind: *kind },
            Job::Upgrade { names, kind } => JobView::Upgrade { names: views(names@), kind: *kind },
            Job::UpgradeAll => JobView::UpgradeAll,
        }
    }
}

/// A message from the background worker.
pub enum Msg {
    /// A command started.
    Loading,
    /// One line of output of the running command.
    Progress(String),
    /// The installed packages.
    Packages(Vec<Package>),
    /// The outdated packages: (name, latest version).
    Outdated(Vec<(String, String)>),
    /// A command finished.
    Done { label: String, ok: bool, output: String },
    /// The interface should load the packages again.
    Reload,
    Error(String),
}

/// The arguments of `brew` that a job other than a load runs.
pub open spec fn command_args(job: Job) -> Seq<Seq<char>> {
    match job {
        Job::Load => seq![],
        Job::Update => seq!["update"@],
        Job::Uninstall { name, kind } => match kind {
            Kind::Formula => seq!["uninstall"@, name@],
            Kind::Cask => seq!["uninstall"@, "--cask"@, name@],
        },
        Job::Upgrade { names, kind } => match kind {
            Kind::Formula => seq!["upgrade"@] + views(names@),
            Kind::Cask => seq!["upgrade"@, "--cask"@] + views(names@),
        },
        Job::UpgradeAll => seq!["upgrade"@],
    }
}

/// The label under which a finished job is reported.
pub open spec fn command_label(job: Job) -> Seq<char> {
    match job {
        Job::Load => seq![],
        Job::Update => "Update software sources (brew update)"@,
        Job::Uninstall { name, kind } => "Uninstall "@ + name@ + " (brew "@ + join(
            command_args(job),
            " "@,
        ) + ")"@,
        Job::Upgrade { names, kind } => "Upgrade "@ + join(views(names@), " "@) + " (brew "@
            + join(command_args(job), " "@) + ")"@,
        Job::UpgradeAll => "Upgrade all outdated packages (brew upgrade)"@,
    }
}

/// The command that a job runs, as its label and the arguments of `brew`;
/// `None` for a load, which runs two queries instead.
pub fn job_command(job: &Job) -> (r: Option<(String, Vec<String>)>)
    ensures
        r is None <==> job is Load,
        r matches Some((label, args)) ==> label@ == command_label(*job) && views(args@)
            == command_args(*job),
{
    match job {
        Job::Load => None,
        Job::Update => {
            let mut args: Vec<String> = Vec::new();
            args.push(new_string("update"));
            assert(views(args@) =~= command_args(*job));
            Some((new_string("Update software sources (brew update)"), args))
        },
        Job::Uninstall { name, kind } => {
            let mut args: Vec<String> = Vec::new();
            args.push(new_string("uninstall"));
            match kind {
                Kind::Formula => {},
                Kind::Cask => {
                    args.push(new_string("--cask"));
                },
            }
            args.push(name.clone());
            assert(views(args@) =~= command_args(*job));
            let mut label = new_string("Uninstall ");
            push_str(&mut label, name.as_str());
            push_str(&mut label, " (brew ");
            let joined = join_strings(&args, " ");
            push_str(&mut label, joined.as_str());
            push_str(&mut label, ")");
            Some((label, args))
        },
        Job::Upgrade { names, kind } => {
            let mut args: Vec<String> = Vec::new();
            args.push(new_string("upgrade"));
            match kind {
                Kind::Formula => {},
                Kind::Cask => {
                    args.push(new_string("--cask"));
                },
            }
            let ghost head = views(args@);
            let n = names.len();
            for i in 0..n
                invariant
                    n == names.len(),
                    views(args@) == head + views(names@.take(i as int)),
            {
                let ghost before = args@;
                args.push(names[i].clone());
                assert(views(args@) =~= views(before).push(names@[i as int]@));
                assert(views(names@.take(i + 1)) == views(names@.take(i as int)).push(
                    names@[i as int]@,
                ));
                assert(views(args@) =~= head + views(names@.take(i + 1)));
            }
            assert(names@.take(n as int) == names@);
            assert(views(args@) =~= command_args(*job));
            let mut label = new_string("Upgrade ");
            let joined_names = join_strings(names, " ");
            push_str(&mut label, joined_names.as_str());
            push_str(&mut label, " (brew ");
            let joined = join_strings(&args, " ");
            push_str(&mut label, joined.as_str());
            push_str(&mut label, ")");
            Some((label, args))
        },
        Job::UpgradeAll => {
            let mut args: Vec<String> = Vec::new();
            args.push(new_string("upgrade"));
            assert(views(args@) =~= command_args(*job));
            Some((new_string("Upgrade all outdated packages (brew upgrade)"), args))
        },
    }
}

/// Whether a command succeeded, and its output or its error.
pub fn to_pair(result: Result<String, String>) -> (r: (bool, String))
    ensures
        r == (match result {
            Ok(o) => (true, o),
            Err(e) => (false, e),
        }),
{
    match result {
        Ok(o) => (true, o),
        Err(e) => (false, e),
    }
}

/// What the worker sends when a command has finished: the outcome under the
/// job's label, then a request to reload.
pub fn finished_messages(label: String, result: Result<String, String>) -> (r: Vec<Msg>)
    ensures
        r@ == seq![
            Msg::Done {
                label,
                ok: result is Ok,
                output: match result {
                    Ok(o) => o,
                    Err(e) => e,
                },
            },
            Msg::Reload,
        ],
{
    let (ok, output) = to_pair(result);
    let mut r: Vec<Msg> = Vec::new();
    r.push(Msg::Done { label, ok, output });
    r.push(Msg::Reload);
    r
}

/// The message that reports the loaded package list, or why it failed.
pub fn packages_message(result: Result<Vec<Package>, String>) -> (m: Msg)
    ensures
        m == (match result {
            Ok(p) => Msg::Packages(p),
            Err(e) => Msg::Error(e),
        }),
{
    match result {
        Ok(p) => Msg::Packages(p),
        Err(e) => Msg::Error(e),
    }
}

/// The message that reports the outdated packages, or why it failed.
pub fn outdated_message(result: Result<Vec<(String, String)>, String>) -> (m: Msg)
    ensures
        m == (match result {
            Ok(p) => Msg::Outdated(p),
            Err(e) => Msg::Error(e),
        }),
{
    match result {
        Ok(p) => Msg::Outdated(p),
        Err(e) => Msg::Error(e),
    }
}

/// How an exit code is written when a command fails: `Some(<code>)` or `None`.
pub open spec fn exit_code_text(code: Option<i32>) -> Seq<char> {
    match code {
        Some(c) => "Some("@ + signed_decimal(c as int) + ")"@,
        None => "None"@,
    }
}

/// The error of a failed command that wrote nothing on its error stream.
pub open spec fn failure_text(args: Seq<Seq<char>>, code: Option<i32>) -> Seq<char> {
    "brew "@ + join(args, " "@) + " failed (exit code "@ + exit_code_text(code) + ")"@
}

/// The outcome of a finished `brew` command: its standard output when it
/// succeeded; otherwise its error output (trimmed when `trim_error`), or, when
/// that is blank, a message that names the command and its exit code.
pub open spec fn outcome_spec(
    args: Seq<Seq<char>>,
    success: bool,
    stdout: Seq<char>,
    stderr: Seq<char>,
    code: Option<i32>,
    trim_error: bool,
) -> Result<Seq<char>, Seq<char>> {
    if success {
        Ok(stdout)
    } else if trim(stderr).len() == 0 {
        Err(failure_text(args, code))
    } else if trim_error {
        Err(trim(stderr))
    } else {
        Err(stderr)
    }
}

pub open spec fn result_view(r: Result<String, String>) -> Result<Seq<char>, Seq<char>> {
    match r {
        Ok(o) => Ok(o@),
        Err(e) => Err(e@),
    }
}

/// Decides the outcome of a finished `brew` command from what it left.
pub fn command_outcome(
    args: &Vec<String>,
    success: bool,
    stdout: String,
    stderr: String,
    code: Option<i32>,
    trim_error: bool,
) -> (r: Result<String, String>)
    ensures
        result_view(r) == outcome_spec(views(args@), success, stdout@, stderr@, code, trim_error),
{
    if success {
        return Ok(stdout);
    }
    let trimmed = trim_str(stderr.as_str());
    if trimmed.is_empty() {
        let mut msg = new_string("brew ");
        let joined = join_strings(args, " ");
        push_str(&mut msg, joined.as_str());
        push_str(&mut msg, " failed (exit code ");
        match code {
            Some(c) => {
                push_str(&mut msg, "Some(");
                push_i32(&mut msg, c);
                push_str(&mut msg, ")");
            },
            None => {
                push_str(&mut msg, "None");
            },
        }
        push_str(&mut msg, ")");
        assert(msg@ == failure_text(views(args@), code));
        Err(msg)
    } else if trim_error {
        Err(new_string(trimmed))
    } else {
        Err(stderr)
    }
}

} // verus!
