//! What the analysis records about one file, and the rule that decides
//! whether the file is a valid custom hook.

use vstd::prelude::*;
use crate::registry::carries_hook_prefix;
use crate::registry::default_hooks;
use crate::registry::has_hook_prefix;
use crate::registry::is_default_hook;

verus! {

/// How a file declares what it exports.
#[derive(Clone, Copy, Debug, PartialEq, Eq, Structural)]
pub enum FileExportType {
    /// A function declaration: `export function f() {}`.
    Function,
    /// A variable bound to a value: `export const f = () => {}`.
    Arrow,
}

/// The character sequences of a sequence of strings.
pub open spec fn names(strings: Seq<String>) -> Seq<Seq<char>> {
    strings.map_values(|s: String| s@)
}

/// The mathematical content of a `Report`.
pub struct ReportView {
    /// The built-in hooks called, in the order met, repetitions kept.
    pub hooks: Seq<Seq<char>>,
    /// Whether `hook_name` starts with the hook prefix.
    pub export_use_prefix: bool,
    /// How the export is declared.
    pub export_type: FileExportType,
    /// The exported name; empty while no export has been recorded.
    pub hook_name: Seq<char>,
}

impl ReportView {
    /// The report of a file about which nothing has been recorded.
    pub open spec fn empty() -> ReportView {
        ReportView {
            hooks: Seq::empty(),
            export_use_prefix: false,
            export_type: FileExportType::Arrow,
            hook_name: Seq::empty(),
        }
    }

    /// The report after one more call of the hook `name`.
    pub open spec fn with_hook(self, name: Seq<char>) -> ReportView {
        ReportView { hooks: self.hooks.push(name), ..self }
    }

    /// The report after an export of `name` has been met: the first export
    /// with a name stays, later ones change nothing.
    pub open spec fn with_export(self, name: Seq<char>, kind: FileExportType) -> ReportView {
        if self.hook_name.len() > 0 {
            self
        } else {
            ReportView {
                hooks: self.hooks,
                export_use_prefix: carries_hook_prefix(name),
                export_type: kind,
                hook_name: name,
            }
        }
    }

    /// The prefix flag says what the exported name says.
    pub open spec fn consistent(self) -> bool {
        self.export_use_prefix == carries_hook_prefix(self.hook_name)
    }

    /// Whether one of the recorded calls is a call of a built-in hook.
    pub open spec fn calls_default_hook(self) -> bool {
        exists|i: int|
            0 <= i < self.hooks.len() && default_hooks().contains(#[trigger] self.hooks[i])
    }

    /// Whether every recorded call is a call of a built-in hook.
    pub open spec fn only_default_hooks(self) -> bool {
        forall|i: int|
            0 <= i < self.hooks.len() ==> default_hooks().contains(#[trigger] self.hooks[i])
    }

    /// The rule for a valid custom hook: the exported name carries the prefix
    /// and a built-in hook is called.
    pub open spec fn is_valid_custom_hook(self) -> bool {
        self.export_use_prefix && self.calls_default_hook()
    }
}

/// The export of a file: its name, how it is declared, and the prefix flag,
/// which is kept equal to what the name says.
#[derive(Debug, PartialEq, Eq)]
struct Export {
    name: String,
    kind: FileExportType,
    use_prefix: bool,
}

impl Export {
    #[verifier::type_invariant]
    spec fn prefix_flag_follows_name(&self) -> bool {
        self.use_prefix == carries_hook_prefix(self.name@)
    }

    fn none() -> (export: Export)
        ensures
            export.name@ == Seq::<char>::empty(),
            export.kind == FileExportType::Arrow,
            !export.use_prefix,
    {
        let name = String::new();
        assert(!carries_hook_prefix(name@)) by {
            reveal_strlit("use");
        }
        Export { name, kind: FileExportType::Arrow, use_prefix: false }
    }

    fn of(name: String, kind: FileExportType) -> (export: Export)
        ensures
            export.name@ == name@,
            export.kind == kind,
            export.use_prefix == carries_hook_prefix(name@),
    {
        let use_prefix = has_hook_prefix(name.as_str());
        Export { name, kind, use_prefix }
    }
}

/// The record of one file: the hooks it calls and what it exports.
#[derive(Debug, PartialEq, Eq)]
pub struct Report {
    hooks: Vec<String>,
    export: Export,
}

impl View for Report {
    type V = ReportView;

    closed spec fn view(&self) -> ReportView {
        ReportView {
            hooks: names(self.hooks@),
            export_use_prefix: self.export.use_prefix,
            export_type: self.export.kind,
            hook_name: self.export.name@,
        }
    }
}

impl Clone for Report {
    fn clone(&self) -> (copy: Report)
        ensures
            copy@ == self@,
    {
        let mut hooks: Vec<String> = Vec::new();
        let n: usize = self.hooks.len();
        let mut i: usize = 0;
        while i < n
            invariant
                i <= n,
                n == self.hooks@.len(),
                names(hooks@) == names(self.hooks@).subrange(0, i as int),
            decreases n - i,
        {
            let ghost before = hooks@;
            let name = self.hooks[i].clone();
            hooks.push(name);
            assert(names(hooks@) =~= names(before).push(name@));
            i += 1;
        }
        proof {
            assert(names(self.hooks@).subrange(0, n as int) =~= names(self.hooks@));
            use_type_invariant(&self.export);
        }
        Report { hooks, export: Export::of(self.export.name.clone(), self.export.kind) }
    }
}

impl Report {
    /// A report with no call and no export.
    pub fn new() -> (report: Report)
        ensures
            report@ == ReportView::empty(),
    {
        let report = Report { hooks: Vec::new(), export: Export::none() };
        assert(names(report.hooks@) =~= Seq::empty());
        report
    }

    /// The hooks called, in the order met.
    pub fn hooks(&self) -> (hooks: &Vec<String>)
        ensures
            names(hooks@) == self@.hooks,
    {
        &self.hooks
    }

    /// The exported name; empty if none was recorded.
    pub fn hook_name(&self) -> (name: &String)
        ensures
            name@ == self@.hook_name,
    {
        &self.export.name
    }

    /// Whether the exported name starts with the hook prefix.
    pub fn export_use_prefix(&self) -> (flag: bool)
        ensures
            flag == self@.export_use_prefix,
            flag == carries_hook_prefix(self@.hook_name),
    {
        proof {
            use_type_invariant(&self.export);
        }
        self.export.use_prefix
    }

    /// How the export is declared.
    pub fn export_type(&self) -> (kind: FileExportType)
        ensures
            kind == self@.export_type,
    {
        self.export.kind
    }

    /// Records one more call of the hook `name`.
    pub fn record_hook(&mut self, name: String)
        ensures
            final(self)@ == old(self)@.with_hook(name@),
    {
        self.hooks.push(name);
        assert(names(self.hooks@) =~= names(old(self).hooks@).push(name@));
    }

    /// Records an export of `name`, unless an export with a name was recorded before.
    pub fn record_export(&mut self, name: String, kind: FileExportType)
        ensures
            final(self)@ == old(self)@.with_export(name@, kind),
    {
        if self.export.name.as_str().is_empty() {
            self.export = Export::of(name, kind);
        }
    }

    /// Whether the file is a valid custom hook.
    pub fn is_valid_custom_hook(&self) -> (valid: bool)
        ensures
            valid == self@.is_valid_custom_hook(),
    {
        if !self.export.use_prefix {
            return false;
        }
        let n: usize = self.hooks.len();
        let mut i: usize = 0;
        while i < n
            invariant
                i <= n,
                n == self.hooks@.len(),
                self@.export_use_prefix,
                forall|j: int| 0 <= j < i ==> !default_hooks().contains(#[trigger] self@.hooks[j]),
            decreases n - i,
        {
            if is_default_hook(self.hooks[i].as_str()) {
                assert(default_hooks().contains(self@.hooks[i as int]));
                return true;
            }
            i += 1;
        }
        false
    }
}

} // verus!
