use vstd::prelude::*;

use crate::config_value::str_equal;
use crate::task_runner::TaskRunnerMode;

verus! {

/// When a task was last installed, updated and uninstalled, as timestamps.
pub struct TaskEntry {
    pub installed_at: Option<String>,
    pub updated_at: Option<String>,
    pub uninstalled_at: Option<String>,
}

/// The view of a timestamp field.
pub open spec fn stamp(s: Option<String>) -> Option<Seq<char>> {
    match s {
        Some(t) => Some(t@),
        None => None,
    }
}

/// An entry's timestamps: installed, updated, uninstalled.
pub struct EntryView {
    pub installed: Option<Seq<char>>,
    pub updated: Option<Seq<char>>,
    pub uninstalled: Option<Seq<char>>,
}

impl View for TaskEntry {
    type V = EntryView;

    open spec fn view(&self) -> EntryView {
        EntryView {
            installed: stamp(self.installed_at),
            updated: stamp(self.updated_at),
            uninstalled: stamp(self.uninstalled_at),
        }
    }
}

/// The entry of a task that the ledger knows nothing of.
pub open spec fn empty_entry() -> EntryView {
    EntryView { installed: None, updated: None, uninstalled: None }
}

/// Whether `e` records a run in `mode`.
pub open spec fn logged(e: EntryView, mode: TaskRunnerMode) -> bool {
    match mode {
        TaskRunnerMode::Install => e.installed is Some,
        TaskRunnerMode::Update => e.updated is Some,
        TaskRunnerMode::Uninstall => e.uninstalled is Some,
    }
}

/// `e` after a run in `mode` at `at`: installing clears the uninstall time,
/// uninstalling clears the install time, updating touches its own alone.
pub open spec fn recorded(e: EntryView, mode: TaskRunnerMode, at: Seq<char>) -> EntryView {
    match mode {
        TaskRunnerMode::Install => EntryView { installed: Some(at), uninstalled: None, ..e },
        TaskRunnerMode::Update => EntryView { updated: Some(at), ..e },
        TaskRunnerMode::Uninstall => EntryView { uninstalled: Some(at), installed: None, ..e },
    }
}

/// `e` with the time of `mode` removed.
pub open spec fn cleared(e: EntryView, mode: TaskRunnerMode) -> EntryView {
    match mode {
        TaskRunnerMode::Install => EntryView { installed: None, ..e },
        TaskRunnerMode::Update => EntryView { updated: None, ..e },
        TaskRunnerMode::Uninstall => EntryView { uninstalled: None, ..e },
    }
}

fn copy_stamp(s: &Option<String>) -> (r: Option<String>)
    ensures
        stamp(r) == stamp(*s),
{
    match s {
        Some(t) => Some(t.clone()),
        None => None,
    }
}

impl TaskEntry {
    /// An entry with no times.
    pub fn new() -> (r: TaskEntry)
        ensures
            r@ == empty_entry(),
    {
        TaskEntry { installed_at: None, updated_at: None, uninstalled_at: None }
    }

    /// A copy of this entry.
    pub fn copy(&self) -> (r: TaskEntry)
        ensures
            r@ == self@,
    {
        TaskEntry {
            installed_at: copy_stamp(&self.installed_at),
            updated_at: copy_stamp(&self.updated_at),
            uninstalled_at: copy_stamp(&self.uninstalled_at),
        }
    }

    /// Whether this entry records a run in `mode`.
    pub fn is_logged(&self, mode: TaskRunnerMode) -> (r: bool)
        ensures
            r == logged(self@, mode),
    {
        match mode {
            TaskRunnerMode::Install => self.installed_at.is_some(),
            TaskRunnerMode::Update => self.updated_at.is_some(),
            TaskRunnerMode::Uninstall => self.uninstalled_at.is_some(),
        }
    }

    /// Records a run in `mode` at `timestamp`.
    pub fn record(&mut self, mode: TaskRunnerMode, timestamp: String)
        ensures
            final(self)@ == recorded(old(self)@, mode, timestamp@),
    {
        match mode {
            TaskRunnerMode::Install => {
                self.installed_at = Some(timestamp);
                self.uninstalled_at = None;
            },
            TaskRunnerMode::Update => {
                self.updated_at = Some(timestamp);
            },
            TaskRunnerMode::Uninstall => {
                self.uninstalled_at = Some(timestamp);
                self.installed_at = None;
            },
        }
    }

    /// Removes the time of `mode`.
    pub fn clear(&mut self, mode: TaskRunnerMode)
        ensures
            final(self)@ == cleared(old(self)@, mode),
    {
        match mode {
            TaskRunnerMode::Install => {
                self.installed_at = None;
            },
            TaskRunnerMode::Update => {
                self.updated_at = None;
            },
            TaskRunnerMode::Uninstall => {
                self.uninstalled_at = None;
            },
        }
    }
}

/// The ledger: an entry per task name.
pub struct History {
    pub entries: Vec<(String, TaskEntry)>,
}

/// Whether the ledger has an entry under `name`.
pub open spec fn has_name(entries: Seq<(String, TaskEntry)>, name: Seq<char>) -> bool {
    exists|i: int| 0 <= i < entries.len() && #[trigger] entries[i].0@ == name
}

/// The names after a change to `name`'s entry: the old ones and `name`.
pub open spec fn names_kept(before: Seq<(String, TaskEntry)>, after: Seq<(String, TaskEntry)>, name: Seq<char>) -> bool {
    forall|n: Seq<char>| #[trigger] has_name(after, n) <==> (has_name(before, n) || n == name)
}

/// The entry of `name`: that of the first pair with that name, else an
/// empty one.
pub open spec fn entry_of(entries: Seq<(String, TaskEntry)>, name: Seq<char>) -> EntryView
    decreases entries.len(),
{
    if entries.len() == 0 {
        empty_entry()
    } else if entries[0].0@ == name {
        entries[0].1@
    } else {
        entry_of(entries.drop_first(), name)
    }
}

proof fn lemma_entry_replaced(s: Seq<(String, TaskEntry)>, t: Seq<(String, TaskEntry)>, i: int)
    requires
        s.len() == t.len(),
        0 <= i < s.len(),
        forall|j: int| 0 <= j < s.len() && j != i ==> t[j] == s[j],
        t[i].0@ == s[i].0@,
        forall|j: int| 0 <= j < i ==> s[j].0@ != s[i].0@,
    ensures
        forall|n: Seq<char>| #[trigger] entry_of(t, n) == if n == s[i].0@ {
            t[i].1@
        } else {
            entry_of(s, n)
        },
    decreases i,
{
    if i > 0 {
        lemma_entry_replaced(s.drop_first(), t.drop_first(), i - 1);
        assert(t[0] == s[0]);
        assert forall|n: Seq<char>| #[trigger] entry_of(t, n) == if n == s[i].0@ {
            t[i].1@
        } else {
            entry_of(s, n)
        } by {
            assert(t.drop_first()[i - 1] == t[i]);
            assert(s.drop_first()[i - 1] == s[i]);
            assert(entry_of(t.drop_first(), n) == if n == s[i].0@ {
                t[i].1@
            } else {
                entry_of(s.drop_first(), n)
            });
        }
    } else {
        assert(t.drop_first() =~= s.drop_first());
        assert forall|n: Seq<char>| #[trigger] entry_of(t, n) == if n == s[i].0@ {
            t[i].1@
        } else {
            entry_of(s, n)
        } by {
            assert(entry_of(t.drop_first(), n) == entry_of(s.drop_first(), n));
        }
    }
}

proof fn lemma_entry_added(s: Seq<(String, TaskEntry)>, p: (String, TaskEntry))
    requires
        forall|j: int| 0 <= j < s.len() ==> s[j].0@ != p.0@,
    ensures
        forall|n: Seq<char>| #[trigger] entry_of(s.push(p), n) == if n == p.0@ {
            p.1@
        } else {
            entry_of(s, n)
        },
    decreases s.len(),
{
    if s.len() > 0 {
        lemma_entry_added(s.drop_first(), p);
        assert(s.push(p).drop_first() =~= s.drop_first().push(p));
        assert(s.push(p)[0] == s[0]);
        assert forall|n: Seq<char>| #[trigger] entry_of(s.push(p), n) == if n == p.0@ {
            p.1@
        } else {
            entry_of(s, n)
        } by {
            assert(entry_of(s.drop_first().push(p), n) == if n == p.0@ {
                p.1@
            } else {
                entry_of(s.drop_first(), n)
            });
        }
    } else {
        assert forall|n: Seq<char>| #[trigger] entry_of(s.push(p), n) == if n == p.0@ {
            p.1@
        } else {
            entry_of(s, n)
        } by {
            assert(s.push(p).drop_first().len() == 0);
            assert(s.push(p)[0] == p);
            assert(entry_of(s.push(p).drop_first(), n) == empty_entry());
            assert(entry_of(s, n) == empty_entry());
        }
    }
}

/// The index of the first pair named `name`, if any.
fn find_entry(entries: &Vec<(String, TaskEntry)>, name: &str) -> (r: Option<usize>)
    ensures
        match r {
            Some(i) => i < entries@.len() && entries@[i as int].0@ == name@ && forall|j: int|
                0 <= j < i ==> #[trigger] entries@[j].0@ != name@,
            None => forall|j: int| 0 <= j < entries@.len() ==> #[trigger] entries@[j].0@ != name@,
        },
{
    let mut i: usize = 0;
    while i < entries.len()
        invariant
            i <= entries@.len(),
            forall|j: int| 0 <= j < i ==> #[trigger] entries@[j].0@ != name@,
        decreases entries.len() - i,
    {
        if str_equal(entries[i].0.as_str(), name) {
            return Some(i);
        }
        i += 1;
    }
    None
}

proof fn lemma_entry_found(s: Seq<(String, TaskEntry)>, name: Seq<char>, i: int)
    requires
        0 <= i < s.len(),
        s[i].0@ == name,
        forall|j: int| 0 <= j < i ==> #[trigger] s[j].0@ != name,
    ensures
        entry_of(s, name) == s[i].1@,
    decreases i,
{
    if i > 0 {
        lemma_entry_found(s.drop_first(), name, i - 1);
    }
}

proof fn lemma_entry_missing(s: Seq<(String, TaskEntry)>, name: Seq<char>)
    requires
        forall|j: int| 0 <= j < s.len() ==> #[trigger] s[j].0@ != name,
    ensures
        entry_of(s, name) == empty_entry(),
    decreases s.len(),
{
    if s.len() > 0 {
        lemma_entry_missing(s.drop_first(), name);
    }
}

impl History {
    /// Each task name has at most one entry.
    pub open spec fn wf(&self) -> bool {
        forall|i: int, j: int|
            0 <= i < j < self.entries@.len() ==> #[trigger] self.entries@[i].0@ != #[trigger] self.entries@[j].0@
    }

    /// A ledger with no entries.
    pub fn new() -> (r: History)
        ensures
            r.entries@.len() == 0,
            r.wf(),
    {
        History { entries: Vec::new() }
    }

    /// The entry of `task_name`; an empty one where the ledger has none.
    pub fn get_task_entry(&self, task_name: &str) -> (r: TaskEntry)
        ensures
            r@ == entry_of(self.entries@, task_name@),
    {
        match find_entry(&self.entries, task_name) {
            Some(i) => {
                proof { lemma_entry_found(self.entries@, task_name@, i as int); }
                self.entries[i].1.copy()
            },
            None => {
                proof { lemma_entry_missing(self.entries@, task_name@); }
                TaskEntry::new()
            },
        }
    }

    /// Whether the ledger records a run of `task_name` in `mode`.
    pub fn is_logged(&self, mode: TaskRunnerMode, task_name: &str) -> (r: bool)
        ensures
            r == logged(entry_of(self.entries@, task_name@), mode),
    {
        self.get_task_entry(task_name).is_logged(mode)
    }

    /// Puts `entry` in place of the entry of `task_name`, leaving every other
    /// name's entry as it was.
    pub fn set_entry(&mut self, task_name: &str, entry: TaskEntry)
        ensures
            names_kept(old(self).entries@, final(self).entries@, task_name@),
            old(self).wf() ==> final(self).wf(),
            forall|n: Seq<char>| #[trigger] entry_of(final(self).entries@, n) == if n == task_name@ {
                entry@
            } else {
                entry_of(old(self).entries@, n)
            },
    {
        let name = String::from_str(task_name);
        match find_entry(&self.entries, task_name) {
            Some(i) => {
                let ghost before = self.entries@;
                self.entries.set(i, (name, entry));
                proof {
                    lemma_entry_replaced(before, self.entries@, i as int);
                    assert(forall|j: int| 0 <= j < before.len() ==> #[trigger] self.entries@[j].0@ == before[j].0@);
                    assert forall|n: Seq<char>| #[trigger] has_name(self.entries@, n) <==> (has_name(before, n) || n == task_name@) by {
                        if has_name(self.entries@, n) {
                            let j = choose|j: int| 0 <= j < self.entries@.len() && #[trigger] self.entries@[j].0@ == n;
                            assert(before[j].0@ == n);
                        }
                        if has_name(before, n) {
                            let j = choose|j: int| 0 <= j < before.len() && #[trigger] before[j].0@ == n;
                            assert(self.entries@[j].0@ == n);
                        }
                        if n == task_name@ {
                            assert(self.entries@[i as int].0@ == n);
                        }
                    }
                }
            },
            None => {
                let ghost before = self.entries@;
                self.entries.push((name, entry));
                proof { lemma_entry_added(before, (self.entries@.last())); }
                assert(self.entries@ == before.push(self.entries@.last()));
                assert(forall|j: int| 0 <= j < before.len() ==> #[trigger] self.entries@[j] == before[j]);
                assert forall|n: Seq<char>| #[trigger] has_name(self.entries@, n) <==> (has_name(before, n) || n == task_name@) by {
                    if has_name(self.entries@, n) {
                        let j = choose|j: int| 0 <= j < self.entries@.len() && #[trigger] self.entries@[j].0@ == n;
                        if j < before.len() {
                            assert(before[j].0@ == n);
                        }
                    }
                    if has_name(before, n) {
                        let j = choose|j: int| 0 <= j < before.len() && #[trigger] before[j].0@ == n;
                        assert(self.entries@[j].0@ == n);
                    }
                    if n == task_name@ {
                        assert(self.entries@[before.len() as int].0@ == n);
                    }
                }
            },
        }
    }

    /// Records a run of `task_name` in `mode` at `timestamp`.
    pub fn update_entry(&mut self, mode: TaskRunnerMode, task_name: &str, timestamp: String)
        ensures
            names_kept(old(self).entries@, final(self).entries@, task_name@),
            old(self).wf() ==> final(self).wf(),
            forall|n: Seq<char>| #[trigger] entry_of(final(self).entries@, n) == if n == task_name@ {
                recorded(entry_of(old(self).entries@, task_name@), mode, timestamp@)
            } else {
                entry_of(old(self).entries@, n)
            },
    {
        let mut entry = self.get_task_entry(task_name);
        entry.record(mode, timestamp);
        self.set_entry(task_name, entry);
    }

    /// Removes the time of `mode` from the entry of `task_name`; a name the
    /// ledger did not know gets an empty entry.
    pub fn clear_entry(&mut self, mode: TaskRunnerMode, task_name: &str)
        ensures
            names_kept(old(self).entries@, final(self).entries@, task_name@),
            old(self).wf() ==> final(self).wf(),
            forall|n: Seq<char>| #[trigger] entry_of(final(self).entries@, n) == if n == task_name@ {
                cleared(entry_of(old(self).entries@, task_name@), mode)
            } else {
                entry_of(old(self).entries@, n)
            },
    {
        let mut entry = self.get_task_entry(task_name);
        entry.clear(mode);
        self.set_entry(task_name, entry);
    }
}

/// Relies on chrono's `Utc::now` and `DateTime::to_rfc3339`: the time of
/// the call as an RFC 3339 date and time string, which is never empty.
#[verifier::external_body]
fn now_rfc3339() -> (r: String)
    ensures
        r@.len() > 0,
{
    chrono::Utc::now().to_rfc3339()
}

impl History {
    /// Records a run of `task_name` in `mode` at the current time.
    pub fn update_entry_now(&mut self, mode: TaskRunnerMode, task_name: &str)
        ensures
            names_kept(old(self).entries@, final(self).entries@, task_name@),
            old(self).wf() ==> final(self).wf(),
            entry_of(final(self).entries@, task_name@) == recorded(
                entry_of(old(self).entries@, task_name@),
                mode,
                mode_stamp(entry_of(final(self).entries@, task_name@), mode),
            ),
            mode_stamp(entry_of(final(self).entries@, task_name@), mode).len() > 0,
            forall|n: Seq<char>|
                n != task_name@ ==> #[trigger] entry_of(final(self).entries@, n) == entry_of(
                    old(self).entries@,
                    n,
                ),
    {
        let timestamp = now_rfc3339();
        self.update_entry(mode, task_name, timestamp);
    }
}

/// The time that `e` holds for `mode` (empty where it holds none).
pub open spec fn mode_stamp(e: EntryView, mode: TaskRunnerMode) -> Seq<char> {
    let t = match mode {
        TaskRunnerMode::Install => e.installed,
        TaskRunnerMode::Update => e.updated,
        TaskRunnerMode::Uninstall => e.uninstalled,
    };
    match t {
        Some(at) => at,
        None => Seq::empty(),
    }
}

/// A change to one ledger entry: a run recorded in a mode at a time, or the
/// time of a mode cleared.
pub enum EntryChange {
    Record(TaskRunnerMode, Seq<char>),
    Clear(TaskRunnerMode),
}

/// `e` after `changes`, in order.
pub open spec fn replay(e: EntryView, changes: Seq<EntryChange>) -> EntryView
    decreases changes.len(),
{
    if changes.len() == 0 {
        e
    } else {
        let last = match changes.last() {
            EntryChange::Record(mode, at) => recorded(replay(e, changes.drop_last()), mode, at),
            EntryChange::Clear(mode) => cleared(replay(e, changes.drop_last()), mode),
        };
        last
    }
}

/// An entry never holds an install time and an uninstall time at once.
pub open spec fn exclusive(e: EntryView) -> bool {
    !(e.installed is Some && e.uninstalled is Some)
}

/// Recording a run in a mode makes the entry report that mode; clearing the
/// mode afterwards makes it report none.
pub proof fn record_then_clear(e: EntryView, mode: TaskRunnerMode, at: Seq<char>)
    ensures
        logged(recorded(e, mode, at), mode),
        !logged(cleared(recorded(e, mode, at), mode), mode),
        !logged(cleared(e, mode), mode),
{
}

/// Installing clears the uninstall time and uninstalling clears the install
/// time; so, starting from an empty entry, no sequence of records and clears
/// leads to an entry with both times.
pub proof fn install_uninstall_exclusive(at: Seq<char>, e: EntryView, changes: Seq<EntryChange>)
    ensures
        recorded(e, TaskRunnerMode::Install, at).uninstalled is None,
        recorded(e, TaskRunnerMode::Install, at).installed == Some(at),
        recorded(e, TaskRunnerMode::Uninstall, at).installed is None,
        recorded(e, TaskRunnerMode::Uninstall, at).uninstalled == Some(at),
        exclusive(replay(empty_entry(), changes)),
    decreases changes.len(),
{
    if changes.len() > 0 {
        install_uninstall_exclusive(at, e, changes.drop_last());
    }
}

} // verus!
