//! Properties that hold across the operations of the interface and the
//! package list.
use vstd::prelude::*;

use crate::app::{
    is_first_named, lemma_mark_all_entry, positions, shows, shows_at, with_status, AppModel, Key,
    KeyPress, PendingAction, Tab,
};
use crate::brew::{command_args, command_label, outcome_spec, Job, JobView, Msg};
use crate::text::{lex_lt, trim};
use crate::model::{
    comes_before, is_cask_package, is_formula_package, sorted_packages, CaskJson, FormulaJson, Kind,
    Package,
};

verus! {

/// The views form a cycle of four: moving right then left (or left then
/// right) comes back to the same view, four moves right come back to the
/// start, and a move right advances the position by one, wrapping around.
pub proof fn law_tab_cycle(t: Tab)
    ensures
        t.next_spec().prev_spec() == t,
        t.prev_spec().next_spec() == t,
        t.next_spec().next_spec().next_spec().next_spec() == t,
        t.index_spec() < 4,
        t.next_spec().index_spec() == (t.index_spec() + 1) % 4,
{
}

/// Control-C quits in every state, whether or not a confirmation is asked.
pub proof fn law_ctrl_c_quits(m: AppModel, c: char)
    requires
        c == 'c' || c == 'C',
    ensures
        m.on_key(KeyPress { key: Key::Char(c), ctrl: true }).1,
        m.on_key(KeyPress { key: Key::Char(c), ctrl: true }).0.should_quit,
{
}

/// No key starts an upgrade or an uninstall while no confirmation is asked:
/// without a prompt, a key adds at most a source update or a reload to the
/// jobs for the worker.
pub proof fn law_changes_need_confirmation(m: AppModel, k: KeyPress)
    requires
        m.confirm is None,
    ensures
        ({
            let out = m.on_key(k).0.outbox;
            out == m.outbox || out == m.outbox.push(JobView::Update) || out == m.outbox.push(
                JobView::Load,
            )
        }),
{
}

/// Declining a confirmation (n, N or Esc) closes the prompt and changes nothing else.
pub proof fn law_decline_changes_nothing(m: AppModel, key: Key)
    requires
        m.confirm is Some,
        key == Key::Char('n') || key == Key::Char('N') || key == Key::Esc,
    ensures
        m.on_key(KeyPress { key, ctrl: false }) == (AppModel { confirm: None, ..m }, false),
{
}

/// No confirmation is asked while a command runs or while the view is empty.
pub proof fn law_no_prompt_when_busy_or_empty(
    m: AppModel,
    desc: Seq<char>,
    action: crate::app::PendingAction,
)
    requires
        m.busy is Some || m.filtered.len() == 0,
    ensures
        m.confirm_action(desc, action) == m,
{
}

/// Moving the highlight down and then up comes back to the same package;
/// moving down from the last package goes to the first, and moving up from
/// the first goes to the last.
pub proof fn law_move_round_trip(m: AppModel)
    requires
        m.wf(),
        m.filtered.len() > 0,
        m.filtered.len() <= usize::MAX,
    ensures
        m.move_selection(1).move_selection(-1).selected == m.selected,
        m.selected == m.filtered.len() - 1 ==> m.move_selection(1).selected == 0,
        m.selected == 0 ==> m.move_selection(-1).selected == m.filtered.len() - 1,
{
    let n = m.filtered.len() as int;
    let s = m.selected as int;
    let s1 = (s + 1) % n;
    vstd::arithmetic::div_mod::lemma_mod_bound(s + 1, n);
    if s + 1 < n {
        vstd::arithmetic::div_mod::lemma_fundamental_div_mod_converse(s + 1, n, 0, s + 1);
        assert(m.move_selection(1).selected == s + 1);
        vstd::arithmetic::div_mod::lemma_fundamental_div_mod_converse(s, n, 0, s);
    } else {
        vstd::arithmetic::div_mod::lemma_fundamental_div_mod_converse(s + 1, n, 1, 0);
        assert(m.move_selection(1).selected == 0);
        vstd::arithmetic::div_mod::lemma_fundamental_div_mod_converse(-1, n, -1, n - 1);
    }
    if s == 0 {
        vstd::arithmetic::div_mod::lemma_fundamental_div_mod_converse(-1, n, -1, n - 1);
    }
}

/// Switching views and receiving a new package list clear the marks.
pub proof fn law_marks_cleared(m: AppModel, t: Tab, packages: Vec<Package>)
    ensures
        m.set_tab(t).selected_set.len() == 0,
        m.after_message(Msg::Packages(packages)).selected_set.len() == 0,
{
}

/// A request to reload from the worker becomes a load job.
pub proof fn law_reload_requests_load(m: AppModel)
    ensures
        m.after_message(Msg::Reload).outbox == m.outbox.push(JobView::Load),
{
}

/// In a sorted package list, the outdated packages come before the others.
pub proof fn law_outdated_first(r: Seq<Package>)
    requires
        sorted_packages(r),
    ensures
        forall|i: int, j: int|
            0 <= i < j < r.len() && (#[trigger] r[j]).outdated ==> (#[trigger] r[i]).outdated,
{
    assert forall|i: int, j: int|
        0 <= i < j < r.len() && (#[trigger] r[j]).outdated implies (#[trigger] r[i]).outdated by {
        assert(!comes_before(r[j], r[i]));
    }
}

/// Accepting a confirmation (y, Y or Enter) carries the pending action out.
pub proof fn law_accept_runs_action(m: AppModel, key: Key)
    requires
        m.confirm is Some,
        key == Key::Char('y') || key == Key::Char('Y') || key == Key::Enter,
    ensures
        m.on_key(KeyPress { key, ctrl: false }) == (m.execute_confirm(), false),
{
}

/// A view lists exactly the packages that its tab shows (all of them, the
/// formulae, the casks, or the outdated ones): each listed package is shown
/// by the tab, and each package that the tab shows is listed.
pub proof fn law_view_lists_what_tab_shows(m: AppModel)
    requires
        m.wf(),
        m.packages.len() <= usize::MAX,
    ensures
        forall|k: int|
            0 <= k < m.filtered.len() ==> shows(m.tab, m.packages[#[trigger] m.filtered[k] as int]),
        forall|i: int|
            0 <= i < m.packages.len() && shows(m.tab, #[trigger] m.packages[i])
                ==> m.filtered.contains(i as usize),
{
    let pos = positions(m.packages.len());
    let pred = shows_at(m.packages, m.tab);
    assert forall|k: int| 0 <= k < m.filtered.len() implies shows(
        m.tab,
        m.packages[#[trigger] m.filtered[k] as int],
    ) by {
        pos.lemma_filter_pred(pred, k);
    }
    assert forall|i: int|
        0 <= i < m.packages.len() && shows(m.tab, #[trigger] m.packages[i]) implies m.filtered.contains(
        i as usize,
    ) by {
        assert(pos[i] == i as usize);
        assert(pred(pos[i]));
        pos.lemma_filter_contains(pred, i);
    }
}

// ---------- the package list of `brew info` ----------

/// The package of a formula carries the formula's name, dependency list,
/// description, home page and notes unchanged, and one installed version for
/// each installed entry, in order.
pub proof fn law_formula_package_keeps_data(f: FormulaJson, p: Package)
    requires
        is_formula_package(f, p),
    ensures
        p.kind == Kind::Formula,
        p.name == f.name,
        p.dependencies == f.dependencies,
        p.desc == f.desc,
        p.homepage == f.homepage,
        p.caveats == f.caveats,
        p.installed_versions@.len() == f.installed@.len(),
        forall|k: int|
            0 <= k < f.installed@.len() ==> #[trigger] p.installed_versions@[k]
                == f.installed@[k].version,
        f.full_name@.len() > 0 ==> p.display_name == f.full_name,
        f.full_name@.len() == 0 ==> p.display_name == f.name,
        f.installed@.len() > 0 && f.installed@[0].version@.len() > 0 ==> p.current_version == Some(
            f.installed@[0].version,
        ),
        f.installed@.len() == 0 ==> p.current_version is None,
        f.versions.stable matches Some(v) && v@.len() > 0 ==> p.latest_version == f.versions.stable,
        f.versions.head matches Some(v) && v@.len() > 0 ==> p.head_version == f.versions.head,
        f.versions.stable is None ==> p.latest_version is None,
        p.outdated == (f.outdated == Some(true)),
        p.pinned == (f.pinned == Some(true)),
        p.installed_as_dependency == (f.installed@.len() > 0
            && f.installed@[0].installed_as_dependency == Some(true)),
        p.installed_on_request == (f.installed@.len() > 0 && f.installed@[0].installed_on_request
            == Some(true)),
        !p.auto_updates,
{
}

/// The package of a cask is named by the cask's token and has no dependencies.
pub proof fn law_cask_package_keeps_data(c: CaskJson, p: Package)
    requires
        is_cask_package(c, p),
    ensures
        p.kind == Kind::Cask,
        p.name == c.token,
        p.dependencies@.len() == 0,
        p.desc == c.desc,
        p.homepage == c.homepage,
        p.caveats is None,
        p.head_version is None,
        c.name@.len() > 0 ==> p.display_name == c.name@[0],
        c.name@.len() == 0 ==> p.display_name == c.token,
        c.installed matches Some(v) && v@.len() > 0 ==> p.current_version == c.installed
            && p.installed_versions@ == seq![c.installed.unwrap()],
        !(c.installed matches Some(v) && v@.len() > 0) ==> p.current_version is None
            && p.installed_versions@.len() == 0,
        c.version matches Some(v) && v@.len() > 0 ==> p.latest_version == c.version,
        p.outdated == (c.outdated == Some(true)),
        p.auto_updates == (c.auto_updates == Some(true)),
        !p.pinned && !p.installed_as_dependency && !p.installed_on_request,
{
}

// ---------- the entries of `brew outdated` ----------

/// After the outdated entries arrive, the first package named by an entry is
/// outdated and has, as its latest version, the version of the last entry that
/// names it; every other field of it (kind, pinned, auto-updates, ...) is kept.
/// The count of outdated packages is the number of entries.
pub proof fn law_outdated_marks_named_package(
    m: AppModel,
    entries: Vec<(String, String)>,
    k: int,
    i: int,
)
    requires
        0 <= k < entries@.len(),
        is_first_named(m.packages, entries@[k].0@, i),
        forall|k2: int|
            k < k2 < entries@.len() ==> (#[trigger] entries@[k2]).0@ != entries@[k].0@,
    ensures
        m.after_message(Msg::Outdated(entries)).packages[i] == with_status(
            m.packages[i],
            true,
            Some(entries@[k].1),
        ),
        m.after_message(Msg::Outdated(entries)).packages[i].outdated,
        m.after_message(Msg::Outdated(entries)).packages[i].latest_version == Some(entries@[k].1),
        m.after_message(Msg::Outdated(entries)).packages[i].auto_updates == m.packages[i].auto_updates,
        m.after_message(Msg::Outdated(entries)).outdated_count == entries@.len() as usize,
{
    lemma_mark_all_entry(m.packages, entries@, k, i);
}

// ---------- confirmed actions ----------

/// With no prompt open and no command running, `x` asks to uninstall the
/// highlighted package, and `y` then queues the uninstall of that very package
/// (its name and its kind) and shows it as running.
pub proof fn law_uninstall_targets_highlighted(m: AppModel, p: Package)
    requires
        m.wf(),
        m.confirm is None,
        m.busy is None,
        m.current() == Some(p),
    ensures
        ({
            let m1 = m.on_key(KeyPress { key: Key::Char('x'), ctrl: false }).0;
            let m2 = m1.on_key(KeyPress { key: Key::Char('y'), ctrl: false }).0;
            &&& m1.confirm matches Some((_, PendingAction::Uninstall(i))) && i == m.selected
            &&& m2.confirm is None
            &&& m2.outbox == m.outbox.push(JobView::Uninstall { name: p.name@, kind: p.kind })
            &&& m2.busy == Some("Uninstalling "@ + p.name@ + "..."@)
        }),
{
}

/// With no prompt open, no command running and no package marked, `u` asks to
/// upgrade the highlighted package, and `y` then queues the upgrade of that
/// very package alone (its name and its kind).
pub proof fn law_upgrade_targets_highlighted(m: AppModel, p: Package)
    requires
        m.wf(),
        m.confirm is None,
        m.busy is None,
        m.selected_set.len() == 0,
        m.current() == Some(p),
    ensures
        ({
            let m1 = m.on_key(KeyPress { key: Key::Char('u'), ctrl: false }).0;
            let m2 = m1.on_key(KeyPress { key: Key::Char('y'), ctrl: false }).0;
            &&& m1.confirm matches Some((_, PendingAction::Upgrade(i))) && i == m.selected
            &&& m2.confirm is None
            &&& m2.outbox == m.outbox.push(
                JobView::Upgrade { names: seq![p.name@], kind: p.kind },
            )
            &&& m2.busy == Some("Upgrading "@ + p.name@ + "..."@)
        }),
{
}

/// Confirming `Uninstall(i)` or `Upgrade(i)` acts on the package that the view
/// shows at position `i`: the package at `filtered[i]` of the list.
pub proof fn law_confirmed_action_uses_view_position(m: AppModel, d: Seq<char>, i: usize)
    requires
        m.wf(),
        i < m.filtered.len(),
    ensures
        ({
            let p = m.packages[m.filtered[i as int] as int];
            let un = AppModel { confirm: Some((d, PendingAction::Uninstall(i))), ..m };
            let up = AppModel { confirm: Some((d, PendingAction::Upgrade(i))), ..m };
            &&& un.execute_confirm().outbox == m.outbox.push(
                JobView::Uninstall { name: p.name@, kind: p.kind },
            )
            &&& up.execute_confirm().outbox == m.outbox.push(
                JobView::Upgrade { names: seq![p.name@], kind: p.kind },
            )
        }),
{
}

// ---------- the commands of jobs ----------

/// An upgrade runs `brew upgrade`, with `--cask` for casks, followed by every
/// name of the job in order.
pub proof fn law_upgrade_arguments(names: Vec<String>, kind: Kind)
    ensures
        ({
            let a = command_args(Job::Upgrade { names, kind });
            let start: int = if kind == Kind::Cask {
                2
            } else {
                1
            };
            &&& a.len() == start + names@.len()
            &&& a[0] == "upgrade"@
            &&& kind == Kind::Cask ==> a[1] == "--cask"@
            &&& forall|k: int| 0 <= k < names@.len() ==> #[trigger] a[start + k] == names@[k]@
        }),
{
}

/// An uninstall runs `brew uninstall`, with `--cask` for a cask, followed by
/// the package's name.
pub proof fn law_uninstall_arguments(name: String, kind: Kind)
    ensures
        ({
            let a = command_args(Job::Uninstall { name, kind });
            &&& a[0] == "uninstall"@
            &&& a.last() == name@
            &&& kind == Kind::Cask ==> a.len() == 3 && a[1] == "--cask"@
            &&& kind == Kind::Formula ==> a.len() == 2
        }),
{
}

// ---------- keys ----------

pub open spec fn press(m: AppModel, c: char) -> AppModel {
    m.on_key(KeyPress { key: Key::Char(c), ctrl: false }).0
}

pub open spec fn press_key(m: AppModel, k: Key) -> AppModel {
    m.on_key(KeyPress { key: k, ctrl: false }).0
}

/// The highlight moves one place down with `j` or Down and one place up with
/// `k` or Up, wrapping around at the ends; `g` goes to the first package and
/// `G` to the last. None of them changes the list, the view or the jobs.
pub proof fn law_navigation_keys(m: AppModel)
    requires
        m.wf(),
        m.confirm is None,
        m.filtered.len() > 0,
        m.filtered.len() <= usize::MAX,
    ensures
        ({
            let n = m.filtered.len();
            let down = if m.selected + 1 == n {
                0
            } else {
                m.selected + 1
            };
            let up = if m.selected == 0 {
                n - 1
            } else {
                m.selected - 1
            };
            &&& press(m, 'j').selected == down
            &&& press_key(m, Key::Down).selected == down
            &&& press(m, 'k').selected == up
            &&& press_key(m, Key::Up).selected == up
            &&& press(m, 'g').selected == 0
            &&& press(m, 'G').selected == n - 1
            &&& press(m, 'j').filtered == m.filtered && press(m, 'j').outbox == m.outbox
            &&& press(m, 'k').filtered == m.filtered && press(m, 'k').outbox == m.outbox
            &&& press(m, 'j').tab == m.tab && press(m, 'k').tab == m.tab
        }),
{
    let n = m.filtered.len() as int;
    let s = m.selected as int;
    if s + 1 < n {
        vstd::arithmetic::div_mod::lemma_fundamental_div_mod_converse(s + 1, n, 0, s + 1);
    } else {
        vstd::arithmetic::div_mod::lemma_fundamental_div_mod_converse(s + 1, n, 1, 0);
    }
    if s == 0 {
        vstd::arithmetic::div_mod::lemma_fundamental_div_mod_converse(-1, n, -1, n - 1);
    } else {
        vstd::arithmetic::div_mod::lemma_fundamental_div_mod_converse(s - 1, n, 0, s - 1);
    }
}

/// `1`, `2`, `3` and `4` (or `o`) open the views All, Formulae, Casks and
/// Outdated; Tab and Shift-Tab open the next and the previous view. Each of
/// them highlights the first package, rewinds the details and clears the marks.
pub proof fn law_view_keys(m: AppModel)
    requires
        m.confirm is None,
    ensures
        press(m, '1').tab == Tab::All,
        press(m, '2').tab == Tab::Formula,
        press(m, '3').tab == Tab::Cask,
        press(m, '4').tab == Tab::Outdated,
        press(m, 'o').tab == Tab::Outdated,
        press_key(m, Key::Tab).tab == m.tab.next_spec(),
        press_key(m, Key::BackTab).tab == m.tab.prev_spec(),
        forall|k: Key|
            k == Key::Char('1') || k == Key::Char('2') || k == Key::Char('3') || k == Key::Char('4')
                || k == Key::Char('o') || k == Key::Tab || k == Key::BackTab ==> {
                let r = #[trigger] press_key(m, k);
                &&& r.selected == 0
                &&& r.detail_scroll == 0
                &&& r.selected_set.len() == 0
                &&& r.packages == m.packages
                &&& r.outbox == m.outbox
            },
{
}

/// Space marks the highlighted package when it is not marked and unmarks it
/// when it is; the marks of the other packages stay as they were.
pub proof fn law_space_toggles_mark(m: AppModel)
    requires
        m.wf(),
        m.confirm is None,
        m.filtered.len() > 0,
    ensures
        ({
            let i = m.filtered[m.selected as int];
            let r = press(m, ' ');
            &&& r.selected_set.contains(i) == !m.selected_set.contains(i)
            &&& forall|j: usize| j != i ==> r.selected_set.contains(j) == m.selected_set.contains(j)
            &&& r.packages == m.packages
            &&& r.outbox == m.outbox
            &&& r.confirm is None
        }),
{
    let i = m.filtered[m.selected as int];
    let set = m.selected_set;
    let r = press(m, ' ');
    if set.contains(i) {
        set.index_of_first_ensures(i);
        let c = set.index_of_first(i).unwrap();
        let rs = set.remove(c);
        assert(r.selected_set == rs);
        assert(!rs.contains(i)) by {
            if rs.contains(i) {
                let t = choose|t: int| 0 <= t < rs.len() && rs[t] == i;
                if t < c {
                    assert(set[t] == i);
                } else {
                    assert(set[t + 1] == i);
                }
            }
        }
        assert forall|j: usize| j != i implies rs.contains(j) == set.contains(j) by {
            if set.contains(j) {
                let t = choose|t: int| 0 <= t < set.len() && set[t] == j;
                if t < c {
                    assert(rs[t] == j);
                } else {
                    assert(t != c);
                    assert(rs[t - 1] == j);
                }
            }
            if rs.contains(j) {
                let t = choose|t: int| 0 <= t < rs.len() && rs[t] == j;
                if t < c {
                    assert(set[t] == j);
                } else {
                    assert(set[t + 1] == j);
                }
            }
        }
    } else {
        assert(r.selected_set == set.push(i));
        assert(r.selected_set[set.len() as int] == i);
        assert forall|j: usize| j != i implies r.selected_set.contains(j) == set.contains(j) by {
            if set.contains(j) {
                let t = choose|t: int| 0 <= t < set.len() && set[t] == j;
                assert(r.selected_set[t] == j);
            }
        }
    }
}

/// While idle, `r` queues a source update and `l` queues a reload; while a
/// command runs they do nothing. `a` asks to upgrade everything only when some
/// package is outdated, and confirming queues that upgrade.
pub proof fn law_update_reload_and_upgrade_all_keys(m: AppModel)
    requires
        m.confirm is None,
    ensures
        m.busy is None ==> press(m, 'r').outbox == m.outbox.push(JobView::Update)
            && press(m, 'r').busy is Some,
        m.busy is None ==> press(m, 'l').outbox == m.outbox.push(JobView::Load),
        m.busy is Some ==> press(m, 'r') == m && press(m, 'l') == m,
        m.outdated_count == 0 ==> press(m, 'a') == m,
        m.outdated_count > 0 && m.busy is None && m.filtered.len() > 0 ==> press(
            press(m, 'a'),
            'y',
        ).outbox == m.outbox.push(JobView::UpgradeAll),
{
}

// ---------- batch upgrade ----------

/// `name` is the name of a marked package of the given kind.
pub open spec fn names_marked_package(m: AppModel, kind: Kind, name: Seq<char>) -> bool {
    exists|i: usize|
        #![trigger m.packages[i as int]]
        m.selected_set.contains(i) && i < m.packages.len() && m.packages[i as int].kind == kind
            && m.packages[i as int].name@ == name
}

proof fn lemma_marked_names_are_marked(m: AppModel, kind: Kind)
    requires
        m.wf(),
    ensures
        ({
            let names = crate::app::marked_names(m.packages, m.selected_set, kind);
            forall|w: int|
                0 <= w < names.len() ==> names_marked_package(m, kind, #[trigger] names[w])
        }),
{
    let pk = m.packages;
    let set = m.selected_set;
    let pos = positions(pk.len());
    let pr = crate::app::marked_of_kind(pk, set, kind);
    let nm = crate::app::name_at(pk);
    let names = crate::app::marked_names(pk, set, kind);
    assert forall|w: int| 0 <= w < names.len() implies names_marked_package(m, kind, #[trigger] names[w]) by {
        let fl = pos.filter(pr);
        assert(names == fl.map_values(nm));
        assert(w < fl.len());
        pos.lemma_filter_pred(pr, w);
        let i = fl[w];
        assert(pr(i));
        assert(set.contains(i));
        assert(pk[i as int].kind == kind);
        assert(names[w] == pk[i as int].name@);
        let t = choose|t: int| 0 <= t < set.len() && set[t] == i;
        assert(set[t] < pk.len());
        assert(i < pk.len());
    }
}

/// Confirming the upgrade of the marked packages queues one or two upgrades:
/// each marked package is named by a queued upgrade of its own kind, and each
/// queued upgrade names only marked packages of its kind.
pub proof fn law_batch_upgrade_covers_marks(m: AppModel, d: Seq<char>)
    requires
        m.wf(),
        m.confirm == Some((d, PendingAction::UpgradeSelected)),
        m.selected_set.len() > 0,
    ensures
        ({
            let r = m.execute_confirm();
            let n0 = m.outbox.len();
            &&& n0 < r.outbox.len() <= n0 + 2
            &&& r.outbox.subrange(0, n0 as int) == m.outbox
            &&& forall|t: int|
                #![trigger m.selected_set[t]]
                0 <= t < m.selected_set.len() ==> exists|q: int|
                    n0 <= q < r.outbox.len() && (#[trigger] r.outbox[q] matches JobView::Upgrade {
                        names,
                        kind,
                    } && kind == m.packages[m.selected_set[t] as int].kind && names.contains(
                        m.packages[m.selected_set[t] as int].name@,
                    ))
            &&& forall|q: int|
                n0 <= q < r.outbox.len() ==> (#[trigger] r.outbox[q] matches JobView::Upgrade {
                    names,
                    kind,
                } && forall|w: int|
                    0 <= w < names.len() ==> names_marked_package(m, kind, #[trigger] names[w]))
        }),
{
    let pk = m.packages;
    let set = m.selected_set;
    let pos = positions(pk.len());
    let pf = crate::app::marked_of_kind(pk, set, Kind::Formula);
    let pc = crate::app::marked_of_kind(pk, set, Kind::Cask);
    let nm = crate::app::name_at(pk);
    let f = crate::app::marked_names(pk, set, Kind::Formula);
    let c = crate::app::marked_names(pk, set, Kind::Cask);
    let r = m.execute_confirm();
    let n0 = m.outbox.len();
    // every marked package is named by the list of its kind
    assert forall|t: int| #![trigger set[t]] 0 <= t < set.len() implies (pk[set[t] as int].kind == Kind::Formula
        ==> f.contains(pk[set[t] as int].name@)) && (pk[set[t] as int].kind == Kind::Cask
        ==> c.contains(pk[set[t] as int].name@)) by {
        let i = set[t];
        assert(pos[i as int] == i);
        assert(set.contains(i));
        if pk[i as int].kind == Kind::Formula {
            assert(pf(pos[i as int]));
            pos.lemma_filter_contains(pf, i as int);
            let fl = pos.filter(pf);
            let u = choose|u: int| 0 <= u < fl.len() && fl[u] == i;
            assert(f[u] == pk[i as int].name@);
        } else {
            assert(pc(pos[i as int]));
            pos.lemma_filter_contains(pc, i as int);
            let fl = pos.filter(pc);
            let u = choose|u: int| 0 <= u < fl.len() && fl[u] == i;
            assert(c[u] == pk[i as int].name@);
        }
    }
    assert(f.len() + c.len() > 0) by {
        let i = set[0];
        if pk[i as int].kind == Kind::Formula {
            assert(f.contains(pk[i as int].name@));
        } else {
            assert(c.contains(pk[i as int].name@));
        }
    }
    let jf = if f.len() > 0 {
        seq![JobView::Upgrade { names: f, kind: Kind::Formula }]
    } else {
        Seq::empty()
    };
    let jc = if c.len() > 0 {
        seq![JobView::Upgrade { names: c, kind: Kind::Cask }]
    } else {
        Seq::empty()
    };
    assert(r.outbox == m.outbox + jf + jc);
    assert(r.outbox.subrange(0, n0 as int) =~= m.outbox);
    assert forall|t: int| #![trigger set[t]] 0 <= t < set.len() implies exists|q: int|
        n0 <= q < r.outbox.len() && (#[trigger] r.outbox[q] matches JobView::Upgrade {
            names,
            kind,
        } && kind == pk[set[t] as int].kind && names.contains(pk[set[t] as int].name@)) by {
        if pk[set[t] as int].kind == Kind::Formula {
            assert(r.outbox[n0 as int] == JobView::Upgrade { names: f, kind: Kind::Formula });
        } else {
            let q = (n0 + jf.len()) as int;
            assert(r.outbox[q] == JobView::Upgrade { names: c, kind: Kind::Cask });
        }
    }
    // every queued name is that of a marked package of the job's kind
    assert forall|q: int| n0 <= q < r.outbox.len() implies (#[trigger] r.outbox[q] matches JobView::Upgrade {
        names,
        kind,
    } && forall|w: int|
        0 <= w < names.len() ==> names_marked_package(m, kind, #[trigger] names[w])) by {
        if f.len() > 0 && q == n0 {
            assert(r.outbox[q] == JobView::Upgrade { names: f, kind: Kind::Formula });
            lemma_marked_names_are_marked(m, Kind::Formula);
        } else {
            assert(c.len() > 0);
            assert(r.outbox[q] == JobView::Upgrade { names: c, kind: Kind::Cask });
            lemma_marked_names_are_marked(m, Kind::Cask);
        }
    }
}

// ---------- worker messages ----------

/// A new package list replaces the list, ends the busy state and clears the
/// marks; a progress line is appended to the running command's output.
pub proof fn law_list_and_progress_messages(m: AppModel, pkgs: Vec<Package>, line: String)
    ensures
        m.after_message(Msg::Packages(pkgs)).packages == pkgs@,
        m.after_message(Msg::Packages(pkgs)).busy is None,
        m.after_message(Msg::Packages(pkgs)).selected_set.len() == 0,
        m.after_message(Msg::Progress(line)).progress == m.progress.push(line@),
        m.after_message(Msg::Progress(line)).packages == m.packages,
        m.after_message(Msg::Progress(line)).busy == m.busy,
        m.busy is Some ==> m.after_message(Msg::Loading).busy == m.busy,
        m.after_message(Msg::Loading).busy is Some,
{
}

/// A finished command ends the busy state and adds one line to the history,
/// marked done or failed as the command went; its output, trimmed, is kept as
/// the last output when it succeeded and as the last error when it failed,
/// whole when it is short. An error ends the busy state and is kept as the
/// last error and in the history.
pub proof fn law_finished_and_error_messages(
    m: AppModel,
    label: String,
    ok: bool,
    output: String,
    e: String,
)
    ensures
        ({
            let r = m.after_message(Msg::Done { label, ok, output });
            let t = trim(output@);
            &&& r.busy is None
            &&& r.activities.len() == m.activities.len() + 1
            &&& r.activities.subrange(0, m.activities.len() as int) == m.activities
            &&& r.activities.last().0 == (if ok {
                crate::app::ActivityKind::Done
            } else {
                crate::app::ActivityKind::Failed
            })
            &&& ok ==> r.last_error == m.last_error && r.last_output is Some
            &&& !ok ==> r.last_output == m.last_output && r.last_error is Some
            &&& ok && vstd::utf8::encode_utf8(t).len() <= 300 ==> r.last_output == Some(t)
            &&& !ok && vstd::utf8::encode_utf8(t).len() <= 500 ==> r.last_error == Some(t)
            &&& r.packages == m.packages
        }),
        ({
            let r = m.after_message(Msg::Error(e));
            &&& r.busy is None
            &&& r.last_error == Some(e@)
            &&& r.activities.len() == m.activities.len() + 1
            &&& r.activities.last().0 == crate::app::ActivityKind::Error
            &&& r.packages == m.packages
        }),
{
    let r = m.after_message(Msg::Done { label, ok, output });
    assert(r.activities.subrange(0, m.activities.len() as int) =~= m.activities);
}

// ---------- the order of names ----------

/// Among packages with the same outdated flag, a sorted list has its names in
/// lexicographic order.
pub proof fn law_sorted_by_name(r: Seq<Package>)
    requires
        sorted_packages(r),
    ensures
        forall|i: int, j: int|
            0 <= i < j < r.len() && (#[trigger] r[i]).outdated == (#[trigger] r[j]).outdated
                ==> !lex_lt(r[j].name@, r[i].name@),
{
    assert forall|i: int, j: int|
        0 <= i < j < r.len() && (#[trigger] r[i]).outdated == (#[trigger] r[j]).outdated
            implies !lex_lt(r[j].name@, r[i].name@) by {
        assert(!comes_before(r[j], r[i]));
    }
}

/// The lexicographic order: a proper prefix comes first, and otherwise the
/// first differing character decides, by code point.
pub proof fn law_lexicographic_order(a: Seq<char>, b: Seq<char>, k: int)
    requires
        0 <= k <= a.len(),
        k <= b.len(),
        a.subrange(0, k) == b.subrange(0, k),
    ensures
        k == a.len() && k < b.len() ==> lex_lt(a, b),
        k == a.len() && k == b.len() ==> !lex_lt(a, b),
        k < a.len() && k < b.len() && a[k] != b[k] ==> lex_lt(a, b) == ((a[k] as u32) < (
        b[k] as u32)),
    decreases k,
{
    if k > 0 {
        assert(a[0] == a.subrange(0, k)[0]);
        assert(b[0] == b.subrange(0, k)[0]);
        assert(a.drop_first().subrange(0, k - 1) =~= a.subrange(0, k).drop_first());
        assert(b.drop_first().subrange(0, k - 1) =~= b.subrange(0, k).drop_first());
        law_lexicographic_order(a.drop_first(), b.drop_first(), k - 1);
    } else if a.len() == 0 && b.len() == 0 {
    }
}

// ---------- finished commands ----------

/// A command that succeeded gives its standard output. One that failed gives
/// its error output when that is not blank (trimmed when asked), and otherwise
/// a message that starts with `brew ` and the command's arguments.
pub proof fn law_command_outcome(
    args: Seq<Seq<char>>,
    success: bool,
    stdout: Seq<char>,
    stderr: Seq<char>,
    code: Option<i32>,
    trim_error: bool,
)
    ensures
        success ==> outcome_spec(args, success, stdout, stderr, code, trim_error) == Ok::<
            Seq<char>,
            Seq<char>,
        >(stdout),
        !success && trim(stderr).len() > 0 && !trim_error ==> outcome_spec(
            args,
            success,
            stdout,
            stderr,
            code,
            trim_error,
        ) == Err::<Seq<char>, Seq<char>>(stderr),
        !success && trim(stderr).len() > 0 && trim_error ==> outcome_spec(
            args,
            success,
            stdout,
            stderr,
            code,
            trim_error,
        ) == Err::<Seq<char>, Seq<char>>(trim(stderr)),
        !success && trim(stderr).len() == 0 ==> (outcome_spec(
            args,
            success,
            stdout,
            stderr,
            code,
            trim_error,
        ) matches Err(e) && e.subrange(0, 5) == "brew "@ && e.subrange(
            5,
            5 + crate::text::join(args, " "@).len() as int,
        ) == crate::text::join(args, " "@)),
{
    if !success && trim(stderr).len() == 0 {
        let j = crate::text::join(args, " "@);
        reveal_strlit("brew ");
        let e = crate::brew::failure_text(args, code);
        assert(e.subrange(0, 5) =~= "brew "@);
        assert(e.subrange(5, 5 + j.len() as int) =~= j);
    }
}

/// The label of an uninstall starts with `Uninstall ` and the package's name;
/// that of an upgrade starts with `Upgrade `.
pub proof fn law_job_labels(name: String, kind: Kind, names: Vec<String>)
    ensures
        ({
            let l = command_label(Job::Uninstall { name, kind });
            l.subrange(0, 10) == "Uninstall "@ && l.subrange(10, 10 + name@.len() as int) == name@
        }),
        command_label(Job::Upgrade { names, kind }).subrange(0, 8) == "Upgrade "@,
{
    reveal_strlit("Uninstall ");
    reveal_strlit("Upgrade ");
    let l = command_label(Job::Uninstall { name, kind });
    assert(l.subrange(0, 10) =~= "Uninstall "@);
    assert(l.subrange(10, 10 + name@.len() as int) =~= name@);
    let u = command_label(Job::Upgrade { names, kind });
    assert(u.subrange(0, 8) =~= "Upgrade "@);
}

} // verus!
