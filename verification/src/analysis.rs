//! What the analysis makes of a module: which calls count as calls of a
//! built-in hook, which export declarations bind a name, and the report that
//! a sequence of nodes gives. All of it is stated over mathematical values.

use vstd::prelude::*;
use crate::registry::carries_hook_prefix;
use crate::registry::default_hooks;
use crate::report::FileExportType;
use crate::report::ReportView;
use crate::reports::paths_with;
use crate::reports::report_or_empty;
use crate::syntax::CalleeView;
use crate::syntax::ExportedDeclView;
use crate::syntax::NodeView;

verus! {

/// The built-in hook that a call calls, if it calls one: the callee is the
/// hook's name, alone or as a property of a bare identifier.
pub open spec fn hook_called(callee: CalleeView) -> Option<Seq<char>> {
    match callee {
        CalleeView::Identifier(name) => if default_hooks().contains(name) {
            Some(name)
        } else {
            None
        },
        CalleeView::Member { object_is_identifier: true, property: Some(name) } => {
            if default_hooks().contains(name) {
                Some(name)
            } else {
                None
            }
        },
        _ => None,
    }
}

/// The name that an export declaration binds, and how, if it binds one: the
/// name of a function, or the first binding of a variable declaration where
/// that binding is a plain identifier, whatever it is bound to.
pub open spec fn export_bound(decl: ExportedDeclView) -> Option<(Seq<char>, FileExportType)> {
    match decl {
        ExportedDeclView::Function(name) => Some((name, FileExportType::Function)),
        ExportedDeclView::Variable(bindings) => {
            if bindings.len() > 0 && bindings[0] is Some {
                Some((bindings[0]->0, FileExportType::Arrow))
            } else {
                None
            }
        },
        ExportedDeclView::Other => None,
    }
}

/// The built-in hook whose call a node is, if it is one.
pub open spec fn hook_of(node: NodeView) -> Option<Seq<char>> {
    match node {
        NodeView::Call(callee) => hook_called(callee),
        NodeView::ExportDecl { .. } => None,
    }
}

/// The name that a node exports, and how, if it exports one. Only an export
/// declaration at the top level of the module counts.
pub open spec fn export_of(node: NodeView) -> Option<(Seq<char>, FileExportType)> {
    match node {
        NodeView::Call(_) => None,
        NodeView::ExportDecl { declaration, top_level } => if top_level {
            export_bound(declaration)
        } else {
            None
        },
    }
}

/// Whether a node tells the analysis anything.
pub open spec fn is_observation(node: NodeView) -> bool {
    hook_of(node) is Some || export_of(node) is Some
}

/// The report after a node has been visited.
pub open spec fn observe(report: ReportView, node: NodeView) -> ReportView {
    match node {
        NodeView::Call(_) => match hook_of(node) {
            Some(hook) => report.with_hook(hook),
            None => report,
        },
        NodeView::ExportDecl { .. } => match export_of(node) {
            Some((name, kind)) => report.with_export(name, kind),
            None => report,
        },
    }
}

/// The report after the nodes have been visited, first to last.
pub open spec fn observe_all(report: ReportView, nodes: Seq<NodeView>) -> ReportView
    decreases nodes.len(),
{
    if nodes.len() == 0 {
        report
    } else {
        observe(observe_all(report, nodes.drop_last()), nodes.last())
    }
}

/// Whether one of the nodes tells the analysis anything.
pub open spec fn any_observation(nodes: Seq<NodeView>) -> bool {
    exists|i: int| 0 <= i < nodes.len() && is_observation(#[trigger] nodes[i])
}

/// The reports after a visitor of the file at `path` has visited the nodes
/// `nodes`. The visitor gives the file its report with the first node that
/// tells anything; `analysis` says what a finished file has.
pub open spec fn visited(
    reports: Map<Seq<char>, ReportView>,
    path: Seq<char>,
    nodes: Seq<NodeView>,
) -> Map<Seq<char>, ReportView> {
    if any_observation(nodes) {
        reports.insert(path, observe_all(report_or_empty(reports, path), nodes))
    } else {
        reports
    }
}

/// The paths that have a report after the file at `path` was found to have
/// the nodes `nodes`.
pub open spec fn paths_visited(
    paths: Seq<Seq<char>>,
    reports: Map<Seq<char>, ReportView>,
    path: Seq<char>,
    nodes: Seq<NodeView>,
) -> Seq<Seq<char>> {
    if any_observation(nodes) {
        paths_with(paths, reports, path)
    } else {
        paths
    }
}

/// The built-in hooks that the nodes call, in the order of the nodes.
pub open spec fn hooks_in(nodes: Seq<NodeView>) -> Seq<Seq<char>> {
    nodes.filter_map(|node: NodeView| hook_of(node))
}

/// Whether two reports say the same of the export.
pub open spec fn same_export(a: ReportView, b: ReportView) -> bool {
    &&& a.hook_name == b.hook_name
    &&& a.export_type == b.export_type
    &&& a.export_use_prefix == b.export_use_prefix
}

/// The report of a file with the nodes `nodes`.
pub open spec fn report_of(nodes: Seq<NodeView>) -> ReportView {
    observe_all(ReportView::empty(), nodes)
}

/// What the analysis of the file at `path` gives: the report of the file
/// under its path, and nothing else. A file whose nodes tell nothing has
/// the empty report.
pub open spec fn analysis(path: Seq<char>, nodes: Seq<NodeView>) -> Map<Seq<char>, ReportView> {
    Map::<Seq<char>, ReportView>::empty().insert(path, report_of(nodes))
}

/// Visiting one node is one step of `observe`.
pub proof fn lemma_single_node(report: ReportView, node: NodeView)
    ensures
        observe_all(report, seq![node]) == observe(report, node),
        any_observation(seq![node]) == is_observation(node),
{
    let one = seq![node];
    assert(observe_all(report, one.drop_last()) == report);
    if is_observation(node) {
        assert(is_observation(one[0]));
    }
}

/// Visiting `seen` and then `node` is visiting `seen.push(node)`.
pub proof fn lemma_one_more_node(
    reports: Map<Seq<char>, ReportView>,
    path: Seq<char>,
    seen: Seq<NodeView>,
    node: NodeView,
)
    ensures
        visited(visited(reports, path, seen), path, seq![node]) == visited(
            reports,
            path,
            seen.push(node),
        ),
        forall|paths: Seq<Seq<char>>|
            paths_visited(
                #[trigger] paths_visited(paths, reports, path, seen),
                visited(reports, path, seen),
                path,
                seq![node],
            ) == paths_visited(paths, reports, path, seen.push(node)),
{
    let all = seen.push(node);
    let middle = visited(reports, path, seen);
    assert(all.drop_last() =~= seen);
    lemma_single_node(report_or_empty(middle, path), node);
    if !any_observation(seen) {
        lemma_unobserved_nodes_change_nothing(report_or_empty(reports, path), seen);
    }
    if any_observation(seen) {
        let i = choose|i: int| 0 <= i < seen.len() && is_observation(#[trigger] seen[i]);
        assert(is_observation(all[i]));
    }
    if is_observation(node) {
        assert(is_observation(all[seen.len() as int]));
    }
    if any_observation(all) {
        let i = choose|i: int| 0 <= i < all.len() && is_observation(#[trigger] all[i]);
        assert(i < seen.len() ==> is_observation(seen[i]));
    }
}

/// For a file that has no report yet, visiting its nodes into the reports,
/// with the empty report where they tell nothing, and merging the analysis
/// of the file into the reports come to the same.
pub proof fn lemma_merge_is_visit(
    reports: Map<Seq<char>, ReportView>,
    path: Seq<char>,
    nodes: Seq<NodeView>,
)
    requires
        !reports.contains_key(path),
    ensures
        reports.union_prefer_right(analysis(path, nodes)) == reports.insert(path, report_of(nodes)),
        visited(reports, path, nodes).insert(
            path,
            report_or_empty(visited(reports, path, nodes), path),
        ) == reports.insert(path, report_of(nodes)),
{
    if !any_observation(nodes) {
        lemma_unobserved_nodes_change_nothing(ReportView::empty(), nodes);
    }
    assert(reports.union_prefer_right(analysis(path, nodes)) =~= reports.insert(
        path,
        report_of(nodes),
    ));
    assert(visited(reports, path, nodes).insert(
        path,
        report_or_empty(visited(reports, path, nodes), path),
    ) =~= reports.insert(path, report_of(nodes)));
}

/// Nodes that tell nothing leave the report as it was.
pub proof fn lemma_unobserved_nodes_change_nothing(report: ReportView, nodes: Seq<NodeView>)
    requires
        !any_observation(nodes),
    ensures
        observe_all(report, nodes) == report,
    decreases nodes.len(),
{
    if nodes.len() > 0 {
        let front = nodes.drop_last();
        assert forall|i: int| 0 <= i < front.len() implies !is_observation(#[trigger] front[i]) by {
            assert(front[i] == nodes[i]);
        }
        lemma_unobserved_nodes_change_nothing(report, front);
    }
}

/// Calls are only ever added: the hooks after a visit are the hooks before
/// it, followed by the built-in hooks that the nodes call, each as often and
/// in the order in which it is called.
pub proof fn lemma_hooks_are_appended(report: ReportView, nodes: Seq<NodeView>)
    ensures
        observe_all(report, nodes).hooks == report.hooks + hooks_in(nodes),
    decreases nodes.len(),
{
    reveal(Seq::filter_map);
    if nodes.len() == 0 {
        assert(hooks_in(nodes) =~= Seq::<Seq<char>>::empty());
    } else {
        lemma_hooks_are_appended(report, nodes.drop_last());
    }
}

/// Every hook that a visit adds is a built-in hook.
pub proof fn lemma_only_default_hooks_are_added(report: ReportView, nodes: Seq<NodeView>)
    requires
        report.only_default_hooks(),
    ensures
        observe_all(report, nodes).only_default_hooks(),
    decreases nodes.len(),
{
    if nodes.len() > 0 {
        lemma_only_default_hooks_are_added(report, nodes.drop_last());
    }
}

/// The prefix flag follows the exported name: a visit of any nodes keeps it
/// equal to what the name says, and so it is in the report of every file.
pub proof fn lemma_prefix_flag_follows_name(report: ReportView, nodes: Seq<NodeView>)
    requires
        report.consistent(),
    ensures
        observe_all(report, nodes).consistent(),
        report_of(nodes).consistent(),
    decreases nodes.len(),
{
    lemma_empty_report_is_consistent();
    if nodes.len() > 0 {
        lemma_prefix_flag_follows_name(report, nodes.drop_last());
    }
}

/// The empty report has no name, and its flag says so.
pub proof fn lemma_empty_report_is_consistent()
    ensures
        ReportView::empty().consistent(),
        !carries_hook_prefix(Seq::<char>::empty()),
{
    reveal_strlit("use");
}

/// Where no node exports a name, a visit leaves the export as it was,
/// whatever hooks are called. The report of such a file has no name, and its
/// prefix flag is false.
pub proof fn lemma_without_export(report: ReportView, nodes: Seq<NodeView>)
    requires
        forall|i: int| 0 <= i < nodes.len() ==> export_of(#[trigger] nodes[i]) is None,
    ensures
        same_export(observe_all(report, nodes), report),
        report_of(nodes).hook_name == Seq::<char>::empty(),
        !report_of(nodes).export_use_prefix,
        report_of(nodes).export_type == FileExportType::Arrow,
    decreases nodes.len(),
{
    if nodes.len() > 0 {
        let front = nodes.drop_last();
        assert forall|i: int| 0 <= i < front.len() implies export_of(
            #[trigger] front[i],
        ) is None by {}
        lemma_without_export(report, front);
    }
}

/// Once a report has a name, a visit of any nodes leaves the export as it is.
pub proof fn lemma_named_export_stays(report: ReportView, nodes: Seq<NodeView>)
    requires
        report.hook_name.len() > 0,
    ensures
        same_export(observe_all(report, nodes), report),
    decreases nodes.len(),
{
    if nodes.len() > 0 {
        lemma_named_export_stays(report, nodes.drop_last());
    }
}

/// While no node exports a name that is not empty, the name stays empty.
pub proof fn lemma_name_stays_empty(report: ReportView, nodes: Seq<NodeView>)
    requires
        report.hook_name.len() == 0,
        forall|i: int|
            0 <= i < nodes.len() ==> (export_of(#[trigger] nodes[i]) matches Some(export)
                ==> export.0.len() == 0),
    ensures
        observe_all(report, nodes).hook_name.len() == 0,
    decreases nodes.len(),
{
    if nodes.len() > 0 {
        let front = nodes.drop_last();
        assert forall|i: int| 0 <= i < front.len() implies (export_of(
            #[trigger] front[i],
        ) matches Some(export) ==> export.0.len() == 0) by {}
        lemma_name_stays_empty(report, front);
    }
}

/// The first export wins: where the report has no name yet and the node at
/// `first` is the first to export a name that is not empty, the report after
/// the visit has that name and kind, whatever the later nodes export.
pub proof fn lemma_first_named_export_wins(
    report: ReportView,
    nodes: Seq<NodeView>,
    first: int,
    name: Seq<char>,
    kind: FileExportType,
)
    requires
        report.hook_name.len() == 0,
        0 <= first < nodes.len(),
        export_of(nodes[first]) == Some((name, kind)),
        name.len() > 0,
        forall|i: int|
            0 <= i < first ==> (export_of(#[trigger] nodes[i]) matches Some(export)
                ==> export.0.len() == 0),
    ensures
        observe_all(report, nodes).hook_name == name,
        observe_all(report, nodes).export_type == kind,
        observe_all(report, nodes).export_use_prefix == carries_hook_prefix(name),
    decreases nodes.len(),
{
    let front = nodes.drop_last();
    if first == nodes.len() - 1 {
        assert forall|i: int| 0 <= i < front.len() implies (export_of(
            #[trigger] front[i],
        ) matches Some(export) ==> export.0.len() == 0) by {}
        lemma_name_stays_empty(report, front);
    } else {
        assert forall|i: int| 0 <= i < first implies (export_of(
            #[trigger] front[i],
        ) matches Some(export) ==> export.0.len() == 0) by {}
        lemma_first_named_export_wins(report, front, first, name, kind);
    }
}

/// A call that names no built-in hook tells the analysis nothing, and
/// neither does a call through anything but a bare identifier or a property
/// of a bare identifier.
pub proof fn lemma_other_calls_are_passed_over(report: ReportView, callee: CalleeView)
    requires
        match callee {
            CalleeView::Identifier(name) => !default_hooks().contains(name),
            CalleeView::Member { object_is_identifier, property } => !object_is_identifier
                || property is None || !default_hooks().contains(property->0),
            CalleeView::Other => true,
        },
    ensures
        !is_observation(NodeView::Call(callee)),
        observe(report, NodeView::Call(callee)) == report,
{
}

/// In a report that holds only built-in hooks, the rule for a valid custom
/// hook comes down to: the prefix flag is set and some hook is called.
pub proof fn lemma_valid_with_prefix_and_call(report: ReportView)
    requires
        report.only_default_hooks(),
    ensures
        report.is_valid_custom_hook() <==> report.export_use_prefix && report.hooks.len() > 0,
{
    if report.export_use_prefix && report.hooks.len() > 0 {
        assert(default_hooks().contains(report.hooks[0]));
    }
}

/// A report without calls is not that of a valid custom hook, whatever its name.
pub proof fn lemma_no_call_is_not_valid(report: ReportView)
    requires
        report.hooks.len() == 0,
    ensures
        !report.is_valid_custom_hook(),
{
}

/// The report of a file holds only built-in hooks, so the file is a valid
/// custom hook if and only if its exported name carries the prefix and it
/// calls a built-in hook.
pub proof fn lemma_file_is_valid(nodes: Seq<NodeView>)
    ensures
        report_of(nodes).only_default_hooks(),
        report_of(nodes).hooks == hooks_in(nodes),
        report_of(nodes).is_valid_custom_hook() <==> carries_hook_prefix(
            report_of(nodes).hook_name,
        ) && hooks_in(nodes).len() > 0,
{
    lemma_only_default_hooks_are_added(ReportView::empty(), nodes);
    lemma_hooks_are_appended(ReportView::empty(), nodes);
    lemma_empty_report_is_consistent();
    lemma_prefix_flag_follows_name(ReportView::empty(), nodes);
    lemma_valid_with_prefix_and_call(report_of(nodes));
}

} // verus!
