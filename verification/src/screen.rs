//! What the screen shows: the text of each panel, split into pieces that
//! carry a role, so that the drawing code only picks colours and places.
use vstd::prelude::*;

use crate::app::{ActivityKind, AppModel, App, opt_view};
use crate::model::{Kind, Package};
use crate::text::{
    chars_of, decimal, join, join_strings, new_string, push_char, push_str, push_usize, str_contains,
    contains_seq, views,
};

verus! {

// ---------- the details of a package ----------

/// One line of the details: a label padded to 16 columns, `: `, the value.
pub open spec fn field(label: Seq<char>, value: Seq<char>) -> Seq<char> {
    label + ": "@ + value + "\n"@
}

/// An optional value, or a default text.
pub open spec fn or_text(v: Option<String>, default: Seq<char>) -> Seq<char> {
    match v {
        Some(s) => s@,
        None => default,
    }
}

/// The line of an optional field, or nothing.
pub open spec fn opt_field(label: Seq<char>, v: Option<String>) -> Seq<char> {
    match v {
        Some(s) => field(label, s@),
        None => Seq::empty(),
    }
}

pub open spec fn word_if(b: bool, w: Seq<char>) -> Seq<Seq<char>> {
    if b {
        seq![w]
    } else {
        Seq::empty()
    }
}

/// The words that describe a package's state.
pub open spec fn status_words(p: Package) -> Seq<Seq<char>> {
    word_if(p.outdated, "outdated"@) + word_if(p.pinned, "pinned"@) + word_if(
        p.installed_as_dependency,
        "installed as dependency"@,
    ) + word_if(p.installed_on_request, "installed on request"@) + word_if(
        p.auto_updates,
        "auto-updates"@,
    )
}

/// A package's state: its words joined by `, `, or `normal`.
pub open spec fn status_text(p: Package) -> Seq<char> {
    if status_words(p).len() == 0 {
        "normal"@
    } else {
        join(status_words(p), ", "@)
    }
}

pub open spec fn installed_entry(v: Seq<char>) -> Seq<char> {
    "installed: "@ + v
}

/// The other versions that could be used: the HEAD version, then every
/// installed version but the first.
pub open spec fn candidates(p: Package) -> Seq<Seq<char>> {
    (match p.head_version {
        Some(h) => seq!["HEAD: "@ + h@],
        None => Seq::empty(),
    }) + (if p.installed_versions@.len() > 1 {
        views(p.installed_versions@.skip(1)).map_values(|v: Seq<char>| installed_entry(v))
    } else {
        Seq::empty()
    })
}

pub open spec fn candidates_text(p: Package) -> Seq<char> {
    if candidates(p).len() == 0 {
        "(no other candidates)"@
    } else {
        join(candidates(p), ", "@)
    }
}

/// A text with each line break replaced by a space.
pub open spec fn one_line(s: Seq<char>) -> Seq<char> {
    s.map_values(|c: char| if c == '\n' {
        ' '
    } else {
        c
    })
}

/// The details panel's description of a package.
pub open spec fn detail_spec(p: Package) -> Seq<char> {
    field("Name            "@, p.name@) + field("Type            "@, p.kind.label_spec()) + (if p.kind
        == Kind::Cask {
        field("App name        "@, p.display_name@)
    } else {
        Seq::empty()
    }) + field("Current         "@, or_text(p.current_version, "not installed/unknown"@)) + field(
        "Latest          "@,
        or_text(p.latest_version, "unknown"@),
    ) + field("Candidates      "@, candidates_text(p)) + "\n"@ + field(
        "Status          "@,
        status_text(p),
    ) + (if p.dependencies@.len() > 0 {
        field("Dependencies    "@, join(views(p.dependencies@), ", "@))
    } else {
        Seq::empty()
    }) + opt_field("Description     "@, p.desc) + opt_field("Homepage        "@, p.homepage) + (
    match p.caveats {
        Some(c) => field("Notes           "@, one_line(c@)),
        None => Seq::empty(),
    })
}

fn push_field(s: &mut String, label: &str, value: &str)
    ensures
        final(s)@ == old(s)@ + field(label@, value@),
{
    push_str(s, label);
    push_str(s, ": ");
    push_str(s, value);
    push_str(s, "\n");
}

fn push_word(words: &mut Vec<String>, b: bool, w: &str)
    ensures
        views(final(words)@) == views(old(words)@) + word_if(b, w@),
{
    if b {
        let ghost before = words@;
        words.push(new_string(w));
        proof {
            assert(views(words@) =~= views(before) + word_if(b, w@));
        }
    } else {
        proof {
            assert(views(words@) =~= views(old(words)@) + word_if(b, w@));
        }
    }
}

/// Replaces each line break by a space.
pub fn one_line_string(s: &str) -> (r: String)
    ensures
        r@ == one_line(s@),
{
    let v = chars_of(s);
    let n = v.len();
    let mut r = String::new();
    for i in 0..n
        invariant
            n == v.len(),
            v@ == s@,
            r@ == one_line(s@.take(i as int)),
    {
        let c = v[i];
        if c == '\n' {
            push_char(&mut r, ' ');
        } else {
            push_char(&mut r, c);
        }
        assert(one_line(s@.take(i + 1)) =~= one_line(s@.take(i as int)).push(
            if c == '\n' {
                ' '
            } else {
                c
            },
        ));
    }
    assert(s@.take(n as int) == s@);
    r
}

fn candidate_list(p: &Package) -> (r: Vec<String>)
    ensures
        views(r@) == candidates(*p),
{
    let mut r: Vec<String> = Vec::new();
    match &p.head_version {
        Some(h) => {
            let mut e = new_string("HEAD: ");
            push_str(&mut e, h.as_str());
            r.push(e);
        },
        None => {},
    }
    let ghost head = views(r@);
    assert(head =~= (match p.head_version {
        Some(h) => seq!["HEAD: "@ + h@],
        None => Seq::<Seq<char>>::empty(),
    }));
    let n = p.installed_versions.len();
    if n > 1 {
        let ghost rest = views(p.installed_versions@.skip(1));
        for i in 1..n
            invariant
                n == p.installed_versions.len(),
                n > 1,
                rest == views(p.installed_versions@.skip(1)),
                views(r@) == head + rest.take(i - 1).map_values(|v: Seq<char>| installed_entry(v)),
        {
            let mut e = new_string("installed: ");
            push_str(&mut e, p.installed_versions[i].as_str());
            let ghost before = r@;
            r.push(e);
            proof {
                assert(rest[i - 1] == p.installed_versions@[i as int]@);
                assert(rest.take(i as int).map_values(|v: Seq<char>| installed_entry(v))
                    =~= rest.take(i - 1).map_values(|v: Seq<char>| installed_entry(v)).push(
                    installed_entry(rest[i - 1]),
                ));
                assert(views(r@) =~= views(before).push(e@));
            }
        }
        assert(rest.take(n - 1) == rest);
    }
    r
}

/// The details panel's description of a package; see `detail_spec`.
pub fn build_detail(p: &Package) -> (s: String)
    ensures
        s@ == detail_spec(*p),
{
    let mut words: Vec<String> = Vec::new();
    push_word(&mut words, p.outdated, "outdated");
    push_word(&mut words, p.pinned, "pinned");
    push_word(&mut words, p.installed_as_dependency, "installed as dependency");
    push_word(&mut words, p.installed_on_request, "installed on request");
    push_word(&mut words, p.auto_updates, "auto-updates");
    assert(views(words@) =~= status_words(*p));
    let status = if words.len() == 0 {
        new_string("normal")
    } else {
        join_strings(&words, ", ")
    };
    let cands = candidate_list(p);
    let cand_text = if cands.len() == 0 {
        new_string("(no other candidates)")
    } else {
        join_strings(&cands, ", ")
    };
    let mut s = String::new();
    push_field(&mut s, "Name            ", p.name.as_str());
    push_field(&mut s, "Type            ", p.kind.label());
    if p.kind == Kind::Cask {
        push_field(&mut s, "App name        ", p.display_name.as_str());
    }
    match &p.current_version {
        Some(v) => push_field(&mut s, "Current         ", v.as_str()),
        None => push_field(&mut s, "Current         ", "not installed/unknown"),
    }
    match &p.latest_version {
        Some(v) => push_field(&mut s, "Latest          ", v.as_str()),
        None => push_field(&mut s, "Latest          ", "unknown"),
    }
    push_field(&mut s, "Candidates      ", cand_text.as_str());
    push_str(&mut s, "\n");
    push_field(&mut s, "Status          ", status.as_str());
    if p.dependencies.len() > 0 {
        let deps = join_strings(&p.dependencies, ", ");
        push_field(&mut s, "Dependencies    ", deps.as_str());
    }
    match &p.desc {
        Some(d) => push_field(&mut s, "Description     ", d.as_str()),
        None => {},
    }
    match &p.homepage {
        Some(h) => push_field(&mut s, "Homepage        ", h.as_str()),
        None => {},
    }
    match &p.caveats {
        Some(c) => {
            let line = one_line_string(c.as_str());
            push_field(&mut s, "Notes           ", line.as_str());
        },
        None => {},
    }
    proof {
        assert(s@ =~= detail_spec(*p));
    }
    s
}

// ---------- one line of the package list ----------

/// What a piece of a list line shows; the drawing code picks its colour.
#[derive(Debug, Clone, Copy, PartialEq, Eq, Structural)]
pub enum Role {
    Mark,
    Name,
    OutdatedName,
    Version,
    Arrow,
    Latest,
    OutdatedTag,
    PinnedTag,
    DependencyTag,
    AutoUpdateTag,
}

/// A piece of text with its role.
pub struct Piece {
    pub text: String,
    pub role: Role,
}

pub open spec fn pieces_view(v: Seq<Piece>) -> Seq<(Seq<char>, Role)> {
    v.map_values(|p: Piece| (p.text@, p.role))
}

pub open spec fn tag_if(b: bool, text: Seq<char>, role: Role) -> Seq<(Seq<char>, Role)> {
    if b {
        seq![(text, role)]
    } else {
        Seq::empty()
    }
}

/// The line of the package list for a package: a mark when it is marked, its
/// name, its version (and its latest version when outdated), then its tags.
pub open spec fn package_line_spec(p: Package, marked: bool) -> Seq<(Seq<char>, Role)> {
    seq![
        (if marked {
            "✓ "@
        } else {
            "  "@
        }, Role::Mark),
        (p.name@, if p.outdated {
            Role::OutdatedName
        } else {
            Role::Name
        }),
        (" "@ + or_text(p.current_version, "?"@), Role::Version),
    ] + (if p.outdated {
        seq![(" → "@, Role::Arrow), (or_text(p.latest_version, "?"@), Role::Latest)]
    } else {
        Seq::empty()
    }) + tag_if(p.outdated, " [outdated]"@, Role::OutdatedTag) + tag_if(
        p.pinned,
        " [pinned]"@,
        Role::PinnedTag,
    ) + tag_if(p.installed_as_dependency, " [dep]"@, Role::DependencyTag) + tag_if(
        p.auto_updates,
        " [auto-update]"@,
        Role::AutoUpdateTag,
    )
}

fn push_piece(v: &mut Vec<Piece>, text: String, role: Role)
    ensures
        pieces_view(final(v)@) == pieces_view(old(v)@).push((text@, role)),
{
    let ghost before = v@;
    v.push(Piece { text, role });
    assert(pieces_view(v@) =~= pieces_view(before).push((text@, role)));
}

fn push_tag(v: &mut Vec<Piece>, b: bool, text: &str, role: Role)
    ensures
        pieces_view(final(v)@) == pieces_view(old(v)@) + tag_if(b, text@, role),
{
    if b {
        push_piece(v, new_string(text), role);
    }
    assert(pieces_view(v@) =~= pieces_view(old(v)@) + tag_if(b, text@, role));
}

fn version_or_question(v: &Option<String>) -> (s: String)
    ensures
        s@ == or_text(*v, "?"@),
{
    match v {
        Some(x) => new_string(x.as_str()),
        None => new_string("?"),
    }
}

/// The line of the package list for a package; see `package_line_spec`.
pub fn package_line(p: &Package, marked: bool) -> (r: Vec<Piece>)
    ensures
        pieces_view(r@) == package_line_spec(*p, marked),
{
    let mut r: Vec<Piece> = Vec::new();
    push_piece(&mut r, new_string(if marked { "✓ " } else { "  " }), Role::Mark);
    push_piece(
        &mut r,
        new_string(p.name.as_str()),
        if p.outdated {
            Role::OutdatedName
        } else {
            Role::Name
        },
    );
    let mut cur = new_string(" ");
    let v = version_or_question(&p.current_version);
    push_str(&mut cur, v.as_str());
    push_piece(&mut r, cur, Role::Version);
    if p.outdated {
        push_piece(&mut r, new_string(" → "), Role::Arrow);
        push_piece(&mut r, version_or_question(&p.latest_version), Role::Latest);
    }
    push_tag(&mut r, p.outdated, " [outdated]", Role::OutdatedTag);
    push_tag(&mut r, p.pinned, " [pinned]", Role::PinnedTag);
    push_tag(&mut r, p.installed_as_dependency, " [dep]", Role::DependencyTag);
    push_tag(&mut r, p.auto_updates, " [auto-update]", Role::AutoUpdateTag);
    proof {
        assert(pieces_view(r@) =~= package_line_spec(*p, marked));
    }
    r
}

// ---------- the panels ----------

/// The title of the package list: how many packages the view shows, how many
/// there are, and how many are marked when any are.
pub open spec fn list_title_spec(m: AppModel) -> Seq<char> {
    if m.selected_set.len() == 0 {
        " Packages  "@ + decimal(m.filtered.len()) + " / "@ + decimal(m.packages.len()) + "  "@
    } else {
        " Packages  "@ + decimal(m.filtered.len()) + " / "@ + decimal(m.packages.len())
            + "  ("@ + decimal(m.selected_set.len()) + " selected)  "@
    }
}

/// The statistics of the top bar: packages, outdated packages and the
/// highlighted package's name (`—` when none is highlighted).
pub open spec fn stats_spec(m: AppModel) -> Seq<char> {
    "Installed "@ + decimal(m.packages.len()) + "   Outdated "@ + decimal(m.outdated_count as nat)
        + "   Current: "@ + match m.current() {
        Some(p) => p.name@,
        None => "—"@,
    }
}

/// The busy indicator of the top bar.
pub open spec fn busy_spec(m: AppModel) -> Option<Seq<char>> {
    match m.busy {
        Some(b) => Some("[Busy] "@ + b),
        None => None,
    }
}

/// A status line reads as an error when it mentions a failure or an error.
pub open spec fn status_is_error_spec(status: Seq<char>) -> bool {
    contains_seq(status, "failed"@) || contains_seq(status, "Error"@)
}

/// The text of the details panel: the last error, the last output, then the
/// highlighted package's details (or a hint when none is highlighted).
pub open spec fn detail_text_spec(m: AppModel) -> Seq<char> {
    (match m.last_error {
        Some(e) => "[Error] "@ + e + "\n\n"@,
        None => Seq::empty(),
    }) + (match m.last_output {
        Some(o) => "[Last output]\n"@ + o + "\n\n"@,
        None => Seq::empty(),
    }) + (match m.current() {
        Some(p) => detail_spec(p),
        None => "(no selection)\n\nPress Tab to switch views, ↑/↓ to select."@,
    })
}

/// The title of the details panel.
pub open spec fn detail_title_spec(m: AppModel) -> Seq<char> {
    if m.last_error is Some {
        " Details (with errors) "@
    } else {
        " Details "@
    }
}

impl App {
    /// The title of the package list; see `list_title_spec`.
    pub fn list_title(&self) -> (s: String)
        ensures
            s@ == list_title_spec(self@),
    {
        let mut s = new_string(" Packages  ");
        push_usize(&mut s, self.filtered.len());
        push_str(&mut s, " / ");
        push_usize(&mut s, self.packages.len());
        if self.selected_set.len() > 0 {
            push_str(&mut s, "  (");
            push_usize(&mut s, self.selected_set.len());
            push_str(&mut s, " selected)  ");
        } else {
            push_str(&mut s, "  ");
        }
        s
    }

    /// The highlighted position of the list, if the view shows any package.
    pub fn list_selection(&self) -> (r: Option<usize>)
        ensures
            r == (if self@.filtered.len() == 0 {
                None
            } else {
                Some(self@.selected)
            }),
    {
        if self.filtered.len() == 0 {
            None
        } else {
            Some(self.selected)
        }
    }

    /// Whether the package at position `i` of the list is marked.
    pub fn is_marked(&self, i: usize) -> (b: bool)
        ensures
            b == self@.selected_set.contains(i),
    {
        crate::app::vec_contains(&self.selected_set, i)
    }

    /// The statistics of the top bar; see `stats_spec`.
    pub fn stats_text(&self) -> (s: String)
        requires
            self@.wf(),
        ensures
            s@ == stats_spec(self@),
    {
        let mut s = new_string("Installed ");
        push_usize(&mut s, self.packages.len());
        push_str(&mut s, "   Outdated ");
        push_usize(&mut s, self.outdated_count);
        push_str(&mut s, "   Current: ");
        match self.current() {
            Some(p) => push_str(&mut s, p.name.as_str()),
            None => push_str(&mut s, "—"),
        }
        s
    }

    /// The busy indicator of the top bar; see `busy_spec`.
    pub fn busy_text(&self) -> (r: Option<String>)
        ensures
            opt_view(r) == busy_spec(self@),
    {
        match &self.busy {
            Some(b) => {
                let mut s = new_string("[Busy] ");
                push_str(&mut s, b.as_str());
                Some(s)
            },
            None => None,
        }
    }

    /// Whether the status line reads as an error; see `status_is_error_spec`.
    pub fn status_is_error(&self) -> (b: bool)
        ensures
            b == status_is_error_spec(self@.status),
    {
        str_contains(self.status.as_str(), "failed") || str_contains(self.status.as_str(), "Error")
    }

    /// The text of the details panel; see `detail_text_spec`.
    pub fn detail_text(&self) -> (s: String)
        requires
            self@.wf(),
        ensures
            s@ == detail_text_spec(self@),
    {
        let mut s = String::new();
        match &self.last_error {
            Some(e) => {
                push_str(&mut s, "[Error] ");
                push_str(&mut s, e.as_str());
                push_str(&mut s, "\n\n");
            },
            None => {},
        }
        match &self.last_output {
            Some(o) => {
                push_str(&mut s, "[Last output]\n");
                push_str(&mut s, o.as_str());
                push_str(&mut s, "\n\n");
            },
            None => {},
        }
        match self.current() {
            Some(p) => {
                let d = build_detail(p);
                push_str(&mut s, d.as_str());
            },
            None => push_str(&mut s, "(no selection)\n\nPress Tab to switch views, ↑/↓ to select."),
        }
        proof {
            assert(s@ =~= detail_text_spec(self@));
        }
        s
    }

    /// The title of the details panel; see `detail_title_spec`.
    pub fn detail_title(&self) -> (s: &'static str)
        ensures
            s@ == detail_title_spec(self@),
    {
        if self.last_error.is_some() {
            " Details (with errors) "
        } else {
            " Details "
        }
    }
}

// ---------- the activity panel and the bottom line ----------

/// What a line of the activity panel shows.
#[derive(Debug, Clone, Copy, PartialEq, Eq, Structural)]
pub enum LineRole {
    /// The command that is running.
    Running,
    /// A line of its output.
    Progress,
    /// A finished activity that succeeded.
    Done,
    /// A finished activity that failed, or an error.
    Failed,
}

/// A line of the activity panel.
pub struct ActivityLine {
    pub text: String,
    pub role: LineRole,
}

pub open spec fn lines_view(v: Seq<ActivityLine>) -> Seq<(Seq<char>, LineRole)> {
    v.map_values(|l: ActivityLine| (l.text@, l.role))
}

pub open spec fn role_of(k: ActivityKind) -> LineRole {
    match k {
        ActivityKind::Done => LineRole::Done,
        _ => LineRole::Failed,
    }
}

/// The line of the running command, if any.
pub open spec fn running_lines(m: AppModel) -> Seq<(Seq<char>, LineRole)> {
    match m.busy {
        Some(b) => seq![("▶ "@ + b, LineRole::Running)],
        None => Seq::empty(),
    }
}

pub open spec fn progress_line(l: Seq<char>) -> (Seq<char>, LineRole) {
    ("  "@ + l, LineRole::Progress)
}

/// The last three output lines of the running command, indented.
pub open spec fn progress_lines(m: AppModel) -> Seq<(Seq<char>, LineRole)> {
    let n = m.progress.len();
    let start = if n > 3 {
        n - 3
    } else {
        0
    };
    m.progress.skip(start).map_values(|l: Seq<char>| progress_line(l))
}

/// The rows left for the history in a panel of `height` rows (two of them
/// are its border) after `used` rows.
pub open spec fn history_room(height: u16, used: nat) -> nat {
    if height - 2 - used > 0 {
        (height - 2 - used) as nat
    } else {
        0
    }
}

pub open spec fn history_line(a: (ActivityKind, Seq<char>)) -> (Seq<char>, LineRole) {
    (a.1, role_of(a.0))
}

/// The newest `room` finished activities, newest first.
pub open spec fn history_lines(m: AppModel, room: nat) -> Seq<(Seq<char>, LineRole)> {
    let k = if room < m.activities.len() {
        room
    } else {
        m.activities.len()
    };
    m.activities.reverse().take(k as int).map_values(
        |a: (ActivityKind, Seq<char>)| history_line(a),
    )
}

/// The lines of the activity panel: the running command, its last output
/// lines, then as much of the history as the panel has room for.
pub open spec fn activity_lines_spec(m: AppModel, height: u16) -> Seq<(Seq<char>, LineRole)> {
    let head = running_lines(m) + progress_lines(m);
    head + history_lines(m, history_room(height, head.len()))
}

/// The bottom line: the pending question, a note that a command runs, or the help.
pub enum Bottom {
    Confirm(String),
    Busy,
    Help,
}

impl App {
    /// The lines of the activity panel; see `activity_lines_spec`.
    pub fn activity_lines(&self, height: u16) -> (r: Vec<ActivityLine>)
        ensures
            lines_view(r@) == activity_lines_spec(self@, height),
    {
        let mut r: Vec<ActivityLine> = Vec::new();
        match &self.busy {
            Some(b) => {
                let mut t = new_string("▶ ");
                push_str(&mut t, b.as_str());
                r.push(ActivityLine { text: t, role: LineRole::Running });
            },
            None => {},
        }
        let ghost run = lines_view(r@);
        assert(run =~= running_lines(self@));
        let n = self.progress.len();
        let start = if n > 3 {
            n - 3
        } else {
            0
        };
        let ghost pv = views(self.progress@);
        for i in start..n
            invariant
                n == self.progress.len(),
                start <= n,
                pv == views(self.progress@),
                start == (if n > 3 {
                    n - 3
                } else {
                    0
                }),
                lines_view(r@) == run + pv.skip(start as int).take(i - start).map_values(
                    |l: Seq<char>| progress_line(l),
                ),
        {
            let mut t = new_string("  ");
            push_str(&mut t, self.progress[i].as_str());
            let ghost before = r@;
            r.push(ActivityLine { text: t, role: LineRole::Progress });
            proof {
                assert(pv.skip(start as int)[i - start] == self.progress@[i as int]@);
                assert(pv.skip(start as int).take(i + 1 - start).map_values(
                    |l: Seq<char>| progress_line(l),
                ) =~= pv.skip(start as int).take(i - start).map_values(
                    |l: Seq<char>| progress_line(l),
                ).push(progress_line(pv.skip(start as int)[i - start])));
                assert(lines_view(r@) =~= lines_view(before).push(progress_line(pv[i as int])));
            }
        }
        assert(pv.skip(start as int).take(n - start) == pv.skip(start as int));
        assert(lines_view(r@) =~= running_lines(self@) + progress_lines(self@));
        let used = r.len();
        let h = height as usize;
        let room = h.saturating_sub(2).saturating_sub(used);
        let len = self.activities.len();
        let k = if room < len {
            room
        } else {
            len
        };
        let ghost acts = self@.activities;
        let ghost head = lines_view(r@);
        for j in 0..k
            invariant
                k <= len,
                len == self.activities.len(),
                acts == self@.activities,
                lines_view(r@) == head + acts.reverse().take(j as int).map_values(
                    |a: (ActivityKind, Seq<char>)| history_line(a),
                ),
        {
            let a = &self.activities[len - 1 - j];
            let t = new_string(a.text.as_str());
            let role = match a.kind {
                ActivityKind::Done => LineRole::Done,
                _ => LineRole::Failed,
            };
            let ghost before = r@;
            r.push(ActivityLine { text: t, role });
            proof {
                assert(acts.reverse()[j as int] == acts[len - 1 - j]);
                assert(acts.reverse().take(j + 1).map_values(
                    |a: (ActivityKind, Seq<char>)| history_line(a),
                ) =~= acts.reverse().take(j as int).map_values(
                    |a: (ActivityKind, Seq<char>)| history_line(a),
                ).push(history_line(acts.reverse()[j as int])));
                assert(lines_view(r@) =~= lines_view(before).push((t@, role)));
            }
        }
        proof {
            assert(room == history_room(height, head.len()));
            assert(lines_view(r@) =~= activity_lines_spec(self@, height));
        }
        r
    }

    /// The bottom line of the screen.
    pub fn bottom(&self) -> (b: Bottom)
        ensures
            match b {
                Bottom::Confirm(t) => self@.confirm matches Some((d, _)) && t@ == "Confirm: "@ + d
                    + "?"@,
                Bottom::Busy => self@.confirm is None && self@.busy is Some,
                Bottom::Help => self@.confirm is None && self@.busy is None,
            },
    {
        match &self.confirm {
            Some(c) => {
                let mut t = new_string("Confirm: ");
                push_str(&mut t, c.desc.as_str());
                push_str(&mut t, "?");
                Bottom::Confirm(t)
            },
            None => if self.busy.is_some() {
                Bottom::Busy
            } else {
                Bottom::Help
            },
        }
    }
}

} // verus!
