//! The reports of a scan, one for each file, found by the file's path.

use vstd::prelude::*;
use vstd::string::StringExecFns;
use crate::report::FileExportType;
use crate::report::Report;
use crate::report::ReportView;
use crate::text::str_eq;

verus! {

/// The report that `reports` holds for `path`, or the empty report if it holds none.
pub open spec fn report_or_empty(
    reports: Map<Seq<char>, ReportView>,
    path: Seq<char>,
) -> ReportView {
    if reports.contains_key(path) {
        reports[path]
    } else {
        ReportView::empty()
    }
}

/// The paths once the file at `path` has a report: a path that had none
/// comes last, one that had a report keeps its place.
pub open spec fn paths_with(
    paths: Seq<Seq<char>>,
    reports: Map<Seq<char>, ReportView>,
    path: Seq<char>,
) -> Seq<Seq<char>> {
    if reports.contains_key(path) {
        paths
    } else {
        paths.push(path)
    }
}

/// The paths once the files at `added` have a report: the paths that had
/// one keep their places, and those of `added` that had none follow in
/// their order.
pub open spec fn paths_joined(
    paths: Seq<Seq<char>>,
    reports: Map<Seq<char>, ReportView>,
    added: Seq<Seq<char>>,
) -> Seq<Seq<char>> {
    paths + added.filter(|p: Seq<char>| !reports.contains_key(p))
}

/// `known`, then those of `added` that `known` does not hold, in their order.
spec fn paths_appended(known: Seq<Seq<char>>, added: Seq<Seq<char>>) -> Seq<Seq<char>> {
    known + added.filter(|p: Seq<char>| !known.contains(p))
}

/// Two conditions that hold of the same values keep the same items.
proof fn lemma_same_filter(
    items: Seq<Seq<char>>,
    first: spec_fn(Seq<char>) -> bool,
    second: spec_fn(Seq<char>) -> bool,
)
    requires
        forall|p: Seq<char>| #[trigger] first(p) == second(p),
    ensures
        items.filter(first) == items.filter(second),
    decreases items.len(),
{
    reveal(Seq::filter);
    if items.len() > 0 {
        lemma_same_filter(items.drop_last(), first, second);
    }
}

/// Adding one path is adding it where it has no report yet.
pub proof fn lemma_one_path_joined(
    paths: Seq<Seq<char>>,
    reports: Map<Seq<char>, ReportView>,
    path: Seq<char>,
)
    ensures
        paths_joined(paths, reports, seq![path]) == paths_with(paths, reports, path),
{
    reveal_with_fuel(Seq::filter, 2);
    let keep = |p: Seq<char>| !reports.contains_key(p);
    let one = seq![path];
    assert(one.drop_last() =~= Seq::<Seq<char>>::empty());
    assert(one.last() == path);
    if reports.contains_key(path) {
        assert(one.filter(keep) =~= Seq::<Seq<char>>::empty());
        assert(paths + one.filter(keep) =~= paths);
    } else {
        assert(one.filter(keep) =~= seq![path]);
        assert(paths + one.filter(keep) =~= paths.push(path));
    }
}

#[derive(Debug)]
struct Entry {
    path: String,
    report: Report,
}

spec fn paths_of(entries: Seq<Entry>) -> Seq<Seq<char>> {
    entries.map_values(|e: Entry| e.path@)
}

spec fn map_of(entries: Seq<Entry>) -> Map<Seq<char>, ReportView> {
    Map::new(
        |p: Seq<char>| paths_of(entries).contains(p),
        |p: Seq<char>| entries[paths_of(entries).index_of(p)].report@,
    )
}

proof fn lemma_entry_is_mapped(entries: Seq<Entry>, i: int)
    requires
        paths_of(entries).no_duplicates(),
        0 <= i < entries.len(),
    ensures
        map_of(entries).contains_key(entries[i].path@),
        map_of(entries)[entries[i].path@] == entries[i].report@,
        paths_of(entries).index_of(entries[i].path@) == i,
{
    assert(paths_of(entries)[i] == entries[i].path@);
}

proof fn lemma_entry_added(entries: Seq<Entry>, entry: Entry)
    requires
        paths_of(entries).no_duplicates(),
        !paths_of(entries).contains(entry.path@),
    ensures
        paths_of(entries.push(entry)) == paths_of(entries).push(entry.path@),
        paths_of(entries.push(entry)).no_duplicates(),
        map_of(entries.push(entry)) == map_of(entries).insert(entry.path@, entry.report@),
{
    let after = entries.push(entry);
    assert forall|i: int, j: int|
        0 <= i < after.len() && 0 <= j < after.len() && i != j implies paths_of(after)[i]
        != paths_of(after)[j] by {
        if i < entries.len() {
            assert(paths_of(entries)[i] == paths_of(after)[i]);
        }
        if j < entries.len() {
            assert(paths_of(entries)[j] == paths_of(after)[j]);
        }
    }
    assert forall|p: Seq<char>| #[trigger]
        map_of(after).contains_key(p) == map_of(entries).insert(
            entry.path@,
            entry.report@,
        ).contains_key(p) by {
        if paths_of(after).contains(p) {
            let k = choose|k: int| 0 <= k < after.len() && paths_of(after)[k] == p;
            if k < entries.len() {
                assert(paths_of(entries)[k] == p);
            }
        }
        if paths_of(entries).contains(p) {
            let k = choose|k: int| 0 <= k < entries.len() && paths_of(entries)[k] == p;
            assert(paths_of(after)[k] == p);
        }
        if p == entry.path@ {
            assert(paths_of(after)[entries.len() as int] == p);
        }
    }
    assert forall|p: Seq<char>| #[trigger] map_of(after).contains_key(p) implies map_of(after)[p]
        == map_of(entries).insert(entry.path@, entry.report@)[p] by {
        let k = paths_of(after).index_of(p);
        if k < entries.len() {
            lemma_entry_is_mapped(entries, k);
        }
    }
}

proof fn lemma_entry_replaced(entries: Seq<Entry>, i: int, entry: Entry)
    requires
        paths_of(entries).no_duplicates(),
        0 <= i < entries.len(),
        entry.path@ == entries[i].path@,
    ensures
        paths_of(entries.update(i, entry)) == paths_of(entries),
        map_of(entries.update(i, entry)) == map_of(entries).insert(entry.path@, entry.report@),
{
    let after = entries.update(i, entry);
    assert(paths_of(after) =~= paths_of(entries));
    assert forall|p: Seq<char>| #[trigger] map_of(after).contains_key(p) implies map_of(after)[p]
        == map_of(entries).insert(entry.path@, entry.report@)[p] by {
        lemma_entry_is_mapped(entries, i);
    }
    lemma_entry_is_mapped(entries, i);
}

proof fn lemma_prefix_keeps_paths_apart(entries: Seq<Entry>, k: int)
    requires
        paths_of(entries).no_duplicates(),
        0 <= k < entries.len(),
    ensures
        paths_of(entries.subrange(0, k)).no_duplicates(),
        !paths_of(entries.subrange(0, k)).contains(entries[k].path@),
{
    let front = entries.subrange(0, k);
    assert forall|i: int| 0 <= i < k implies #[trigger] paths_of(front)[i] == paths_of(
        entries,
    )[i] by {}
    assert(paths_of(entries)[k] == entries[k].path@);
}

/// Which paths stand among the joined ones.
proof fn lemma_joined_paths_hold(known: Seq<Seq<char>>, added: Seq<Seq<char>>, path: Seq<char>)
    ensures
        paths_appended(known, added).contains(path) <==> known.contains(path) || added.contains(
            path,
        ),
{
    let keep = |p: Seq<char>| !known.contains(p);
    let fresh = added.filter(keep);
    let joined = paths_appended(known, added);
    if joined.contains(path) {
        let i = choose|i: int| 0 <= i < joined.len() && joined[i] == path;
        if i >= known.len() {
            added.lemma_filter_contains_rev(keep, path);
        }
    }
    if known.contains(path) {
        let i = choose|i: int| 0 <= i < known.len() && known[i] == path;
        assert(joined[i] == path);
    } else if added.contains(path) {
        let j = choose|j: int| 0 <= j < added.len() && added[j] == path;
        added.lemma_filter_contains(keep, j);
        let i = choose|i: int| 0 <= i < fresh.len() && fresh[i] == path;
        assert(joined[known.len() + i] == path);
    }
}

/// How the joined paths change when one more path is added.
proof fn lemma_joined_paths_grow(known: Seq<Seq<char>>, added: Seq<Seq<char>>, path: Seq<char>)
    ensures
        paths_appended(known, added.push(path)) == if known.contains(path) {
            paths_appended(known, added)
        } else {
            paths_appended(known, added).push(path)
        },
{
    reveal(Seq::filter);
    assert(added.push(path).drop_last() =~= added);
}

/// The place of `path` among `entries`.
fn find(entries: &Vec<Entry>, path: &str) -> (place: Option<usize>)
    ensures
        match place {
            Some(i) => i < entries@.len() && entries@[i as int].path@ == path@,
            None => !paths_of(entries@).contains(path@),
        },
{
    let n: usize = entries.len();
    let mut i: usize = 0;
    while i < n
        invariant
            i <= n,
            n == entries@.len(),
            forall|j: int| 0 <= j < i ==> entries@[j].path@ != path@,
        decreases n - i,
    {
        if str_eq(entries[i].path.as_str(), path) {
            return Some(i);
        }
        i += 1;
    }
    assert forall|j: int| 0 <= j < paths_of(entries@).len() implies paths_of(entries@)[j]
        != path@ by {}
    None
}

/// The reports of a scan: a map from the path of a file to its report, which
/// also keeps the order in which the paths first came.
#[derive(Debug)]
pub struct Reports {
    entries: Vec<Entry>,
}

impl View for Reports {
    type V = Map<Seq<char>, ReportView>;

    closed spec fn view(&self) -> Map<Seq<char>, ReportView> {
        map_of(self.entries@)
    }
}

impl Reports {
    #[verifier::type_invariant]
    spec fn each_path_once(&self) -> bool {
        paths_of(self.entries@).no_duplicates()
    }

    /// The paths that have a report, in the order in which they first came.
    pub closed spec fn paths(&self) -> Seq<Seq<char>> {
        paths_of(self.entries@)
    }

    /// No reports.
    pub fn new() -> (reports: Reports)
        ensures
            reports@ == Map::<Seq<char>, ReportView>::empty(),
            reports.paths() == Seq::<Seq<char>>::empty(),
    {
        Reports { entries: Vec::new() }
    }

    /// The number of files that have a report. Each path stands once among
    /// `paths`, and the paths are the keys of the map.
    pub fn len(&self) -> (count: usize)
        ensures
            count == self.paths().len(),
            self.paths().no_duplicates(),
            self@.dom() == self.paths().to_set(),
            self@.dom().finite(),
            count == self@.len(),
    {
        proof {
            use_type_invariant(self);
            self.paths().unique_seq_to_set();
        }
        self.entries.len()
    }

    /// The report of the file at `path`, if it has one.
    pub fn get(&self, path: &str) -> (found: Option<&Report>)
        ensures
            match found {
                Some(report) => self@.contains_key(path@) && report@ == self@[path@],
                None => !self@.contains_key(path@),
            },
    {
        proof {
            use_type_invariant(self);
        }
        match find(&self.entries, path) {
            Some(i) => {
                proof {
                    lemma_entry_is_mapped(self.entries@, i as int);
                }
                Some(&self.entries[i].report)
            },
            None => None,
        }
    }

    /// The path that came as number `index`.
    pub fn path_at(&self, index: usize) -> (path: &String)
        requires
            index < self.paths().len(),
        ensures
            path@ == self.paths()[index as int],
    {
        &self.entries[index].path
    }

    /// The report of the path that came as number `index`.
    pub fn report_at(&self, index: usize) -> (report: &Report)
        requires
            index < self.paths().len(),
        ensures
            self@.contains_key(self.paths()[index as int]),
            report@ == self@[self.paths()[index as int]],
    {
        proof {
            use_type_invariant(self);
        }
        &self.entries[index].report
    }

    /// Gives the file at `path` the report `report`, in place of the one it had.
    pub fn insert(&mut self, path: String, report: Report)
        ensures
            final(self)@ == old(self)@.insert(path@, report@),
            final(self).paths() == paths_with(old(self).paths(), old(self)@, path@),
    {
        proof {
            use_type_invariant(&*self);
        }
        let mut entries: Vec<Entry> = Vec::new();
        core::mem::swap(&mut self.entries, &mut entries);
        let entry = Entry { path, report };
        match find(&entries, entry.path.as_str()) {
            Some(i) => {
                proof {
                    lemma_entry_replaced(entries@, i as int, entry);
                    lemma_entry_is_mapped(entries@, i as int);
                }
                entries[i] = entry;
            },
            None => {
                proof {
                    lemma_entry_added(entries@, entry);
                }
                entries.push(entry);
            },
        }
        core::mem::swap(&mut self.entries, &mut entries);
    }

    /// Records, for the file at `path`, one more call of the hook `hook`. A
    /// file without a report starts from the empty one.
    pub fn record_hook(&mut self, path: &str, hook: String)
        ensures
            final(self)@ == old(self)@.insert(
                path@,
                report_or_empty(old(self)@, path@).with_hook(hook@),
            ),
            final(self).paths() == paths_with(old(self).paths(), old(self)@, path@),
    {
        proof {
            use_type_invariant(&*self);
        }
        let mut entries: Vec<Entry> = Vec::new();
        core::mem::swap(&mut self.entries, &mut entries);
        let ghost before = entries@;
        match find(&entries, path) {
            Some(i) => {
                entries[i].report.record_hook(hook);
                proof {
                    lemma_entry_is_mapped(before, i as int);
                    lemma_entry_replaced(before, i as int, entries@[i as int]);
                }
            },
            None => {
                let mut report = Report::new();
                report.record_hook(hook);
                let entry = Entry { path: String::from_str(path), report };
                proof {
                    lemma_entry_added(before, entry);
                }
                entries.push(entry);
            },
        }
        core::mem::swap(&mut self.entries, &mut entries);
    }

    /// Records, for the file at `path`, an export of `name` declared as
    /// `kind`. A file without a report starts from the empty one; a file
    /// whose report has a name keeps it.
    pub fn record_export(&mut self, path: &str, name: String, kind: FileExportType)
        ensures
            final(self)@ == old(self)@.insert(
                path@,
                report_or_empty(old(self)@, path@).with_export(name@, kind),
            ),
            final(self).paths() == paths_with(old(self).paths(), old(self)@, path@),
    {
        proof {
            use_type_invariant(&*self);
        }
        let mut entries: Vec<Entry> = Vec::new();
        core::mem::swap(&mut self.entries, &mut entries);
        let ghost before = entries@;
        match find(&entries, path) {
            Some(i) => {
                entries[i].report.record_export(name, kind);
                proof {
                    lemma_entry_replaced(before, i as int, entries@[i as int]);
                }
            },
            None => {
                let mut report = Report::new();
                report.record_export(name, kind);
                let entry = Entry { path: String::from_str(path), report };
                proof {
                    lemma_entry_added(before, entry);
                }
                entries.push(entry);
            },
        }
        core::mem::swap(&mut self.entries, &mut entries);
    }

    /// Takes over the reports of `other`. Where both hold a report for a
    /// path, that of `other` stays.
    pub fn extend(&mut self, other: Reports)
        ensures
            final(self)@ == old(self)@.union_prefer_right(other@),
            final(self).paths() == paths_joined(old(self).paths(), old(self)@, other.paths()),
    {
        proof {
            use_type_invariant(&*self);
            use_type_invariant(&other);
        }
        let mut entries: Vec<Entry> = Vec::new();
        core::mem::swap(&mut self.entries, &mut entries);
        let ghost before = entries@;
        let ghost added = other.entries@;
        for entry in it: other.entries
            invariant
                it.seq() == added,
                paths_of(before).no_duplicates(),
                paths_of(added).no_duplicates(),
                paths_of(entries@).no_duplicates(),
                map_of(entries@) == map_of(before).union_prefer_right(
                    map_of(added.subrange(0, it.index() as int)),
                ),
                paths_of(entries@) == paths_appended(
                    paths_of(before),
                    paths_of(added.subrange(0, it.index() as int)),
                ),
        {
            let ghost k = it.index() as int;
            let ghost taken = added.subrange(0, k);
            let ghost current = entries@;
            proof {
                assert(added.subrange(0, k + 1) =~= taken.push(entry));
                lemma_prefix_keeps_paths_apart(added, k);
                lemma_entry_added(taken, entry);
                lemma_joined_paths_hold(paths_of(before), paths_of(taken), entry.path@);
                lemma_joined_paths_grow(paths_of(before), paths_of(taken), entry.path@);
            }
            match find(&entries, entry.path.as_str()) {
                Some(i) => {
                    proof {
                        lemma_entry_replaced(current, i as int, entry);
                        assert(paths_of(current)[i as int] == entry.path@);
                    }
                    entries[i] = entry;
                },
                None => {
                    proof {
                        lemma_entry_added(current, entry);
                    }
                    entries.push(entry);
                },
            }
        }
        proof {
            assert(added.subrange(0, added.len() as int) =~= added);
            lemma_same_filter(
                paths_of(added),
                |p: Seq<char>| !paths_of(before).contains(p),
                |p: Seq<char>| !map_of(before).contains_key(p),
            );
        }
        core::mem::swap(&mut self.entries, &mut entries);
    }
}

} // verus!
