//! Which entries of a directory tree are analysed, and the analysis of one
//! of them from its nodes.

use vstd::prelude::*;
use crate::analysis::report_of;
use crate::reports::lemma_one_path_joined;
use crate::reports::paths_with;
use crate::reports::Reports;
use crate::syntax::outline;
use crate::syntax::Node;
use crate::text::str_eq;
use crate::visitor::Analyzer;

verus! {

/// The name of the directories whose files are analysed.
pub const HOOKS_DIRECTORY: &'static str = "hooks";

/// Whether a directory of this name holds the files to analyse. A directory
/// of another name is searched for such directories instead.
pub fn is_hooks_directory(name: &str) -> (found: bool)
    ensures
        found == (name@ == HOOKS_DIRECTORY@),
{
    str_eq(name, HOOKS_DIRECTORY)
}

/// Whether a file extension is one of `js`, `jsx`, `ts` and `tsx`.
pub open spec fn is_script(extension: Seq<char>) -> bool {
    ||| extension == "js"@
    ||| extension == "jsx"@
    ||| extension == "ts"@
    ||| extension == "tsx"@
}

/// Whether a file with this extension is analysed.
pub fn has_script_extension(extension: &str) -> (found: bool)
    ensures
        found == is_script(extension@),
{
    str_eq(extension, "js") || str_eq(extension, "jsx") || str_eq(extension, "ts") || str_eq(
        extension,
        "tsx",
    )
}

/// What an entry of a directory is.
#[derive(Clone, Copy, Debug, PartialEq, Eq, Structural)]
pub enum EntryKind {
    /// A directory.
    Directory,
    /// A regular file.
    File,
    /// Neither of the two.
    Other,
}

/// What the search does with an entry of a directory that is no hooks directory.
#[derive(Clone, Copy, Debug, PartialEq, Eq, Structural)]
pub enum SearchStep {
    /// The entry is a hooks directory: its files are analysed.
    AnalyzeFiles,
    /// The entry is another directory: it is searched in turn.
    Descend,
    /// The entry is passed over.
    Skip,
}

/// What the search does with an entry named `name` of a directory that is
/// no hooks directory: only directories are looked at, and the one named
/// `hooks` is where the search ends.
pub fn search_step(kind: EntryKind, name: &str) -> (step: SearchStep)
    ensures
        step == match kind {
            EntryKind::Directory => if name@ == HOOKS_DIRECTORY@ {
                SearchStep::AnalyzeFiles
            } else {
                SearchStep::Descend
            },
            _ => SearchStep::Skip,
        },
{
    match kind {
        EntryKind::Directory => if is_hooks_directory(name) {
            SearchStep::AnalyzeFiles
        } else {
            SearchStep::Descend
        },
        _ => SearchStep::Skip,
    }
}

/// Whether an entry of a hooks directory is analysed: it is, if it is a
/// file with a script extension. Directories inside a hooks directory are
/// not searched.
pub fn is_candidate(kind: EntryKind, extension: &str) -> (analysed: bool)
    ensures
        analysed == (kind == EntryKind::File && is_script(extension@)),
{
    match kind {
        EntryKind::File => has_script_extension(extension),
        _ => false,
    }
}

/// Analyses the file at `path`, whose syntax tree has the nodes `nodes`, and
/// gives the file its report in `results`. Every file that is analysed has a
/// report afterwards, the empty one where its nodes tell nothing; a file
/// analysed before gets the new report and keeps its place.
pub fn analyze_nodes(path: &str, nodes: &Vec<Node>, results: &mut Reports)
    ensures
        final(results)@ == old(results)@.insert(path@, report_of(outline(nodes@))),
        final(results).paths() == paths_with(old(results).paths(), old(results)@, path@),
{
    let analyzer = Analyzer::new(path);
    let found = analyzer.run(nodes);
    proof {
        lemma_one_path_joined(results.paths(), results@, path@);
        assert(results@.union_prefer_right(found@) =~= results@.insert(
            path@,
            report_of(outline(nodes@)),
        ));
    }
    results.extend(found);
}

} // verus!
