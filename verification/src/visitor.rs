//! The visit of one module: the executable counterpart of the analysis,
//! which fills the report of the file node by node.

use vstd::prelude::*;
use vstd::string::StringExecFns;
use crate::analysis::analysis;
use crate::analysis::lemma_one_more_node;
use crate::analysis::lemma_single_node;
use crate::analysis::lemma_unobserved_nodes_change_nothing;
use crate::analysis::paths_visited;
use crate::analysis::visited;
use crate::registry::is_default_hook;
use crate::report::FileExportType;
use crate::report::Report;
use crate::report::ReportView;
use crate::reports::paths_with;
use crate::reports::report_or_empty;
use crate::reports::Reports;
use crate::syntax::outline;
use crate::syntax::Callee;
use crate::syntax::ExportedDecl;
use crate::syntax::Node;
use crate::syntax::NodeView;

verus! {

/// The visitor of one file: the file's path and what has been recorded.
#[derive(Debug)]
pub struct TreeVisitor {
    /// The path of the file.
    pub filename: String,
    /// What has been recorded: the report of the file under its path.
    pub report: Reports,
}

impl TreeVisitor {
    /// A visitor for the file at `filename` that has recorded nothing.
    pub fn new(filename: &str) -> (visitor: TreeVisitor)
        ensures
            visitor.filename@ == filename@,
            visitor.report@ == Map::<Seq<char>, ReportView>::empty(),
            visitor.report.paths() == Seq::<Seq<char>>::empty(),
    {
        TreeVisitor { filename: String::from_str(filename), report: Reports::new() }
    }

    /// Records a call of the hook `value`.
    pub fn collect_hooks(&mut self, value: String)
        ensures
            final(self).filename == old(self).filename,
            final(self).report@ == old(self).report@.insert(
                old(self).filename@,
                report_or_empty(old(self).report@, old(self).filename@).with_hook(value@),
            ),
            final(self).report.paths() == paths_with(
                old(self).report.paths(),
                old(self).report@,
                old(self).filename@,
            ),
    {
        self.report.record_hook(self.filename.as_str(), value);
    }

    /// Records an export of `export_value`, declared as `export_type`. The
    /// first export with a name stays.
    pub fn collect_export_prefix(&mut self, export_value: String, export_type: FileExportType)
        ensures
            final(self).filename == old(self).filename,
            final(self).report@ == old(self).report@.insert(
                old(self).filename@,
                report_or_empty(old(self).report@, old(self).filename@).with_export(
                    export_value@,
                    export_type,
                ),
            ),
            final(self).report.paths() == paths_with(
                old(self).report.paths(),
                old(self).report@,
                old(self).filename@,
            ),
    {
        self.report.record_export(self.filename.as_str(), export_value, export_type);
    }

    /// Visits a call expression: records the built-in hook that it calls, if any.
    pub fn visit_call_expr(&mut self, callee: &Callee)
        ensures
            final(self).filename == old(self).filename,
            final(self).report@ == visited(
                old(self).report@,
                old(self).filename@,
                seq![NodeView::Call(callee@)],
            ),
            final(self).report.paths() == paths_visited(
                old(self).report.paths(),
                old(self).report@,
                old(self).filename@,
                seq![NodeView::Call(callee@)],
            ),
    {
        proof {
            lemma_single_node(
                report_or_empty(self.report@, self.filename@),
                NodeView::Call(callee@),
            );
        }
        match callee {
            Callee::Identifier(name) => {
                if is_default_hook(name.as_str()) {
                    self.collect_hooks(name.clone());
                }
            },
            Callee::Member { object_is_identifier, property } => {
                if *object_is_identifier {
                    match property {
                        Some(name) => {
                            if is_default_hook(name.as_str()) {
                                self.collect_hooks(name.clone());
                            }
                        },
                        None => {},
                    }
                }
            },
            Callee::Other => {},
        }
    }

    /// Visits an export declaration at the top level of the module: records
    /// the name that it binds, if any.
    pub fn visit_export_decl(&mut self, decl: &ExportedDecl)
        ensures
            final(self).filename == old(self).filename,
            final(self).report@ == visited(
                old(self).report@,
                old(self).filename@,
                seq![NodeView::ExportDecl { declaration: decl@, top_level: true }],
            ),
            final(self).report.paths() == paths_visited(
                old(self).report.paths(),
                old(self).report@,
                old(self).filename@,
                seq![NodeView::ExportDecl { declaration: decl@, top_level: true }],
            ),
    {
        proof {
            lemma_single_node(
                report_or_empty(self.report@, self.filename@),
                NodeView::ExportDecl { declaration: decl@, top_level: true },
            );
        }
        match decl {
            ExportedDecl::Function(name) => {
                self.collect_export_prefix(name.clone(), FileExportType::Function);
            },
            ExportedDecl::Variable(bindings) => {
                if bindings.len() > 0 {
                    match &bindings[0] {
                        Some(name) => {
                            self.collect_export_prefix(name.clone(), FileExportType::Arrow);
                        },
                        None => {},
                    }
                }
            },
            ExportedDecl::Other => {},
        }
    }

    /// Visits the nodes of a module, first to last.
    pub fn visit_nodes(&mut self, nodes: &Vec<Node>)
        ensures
            final(self).filename == old(self).filename,
            final(self).report@ == visited(
                old(self).report@,
                old(self).filename@,
                outline(nodes@),
            ),
            final(self).report.paths() == paths_visited(
                old(self).report.paths(),
                old(self).report@,
                old(self).filename@,
                outline(nodes@),
            ),
    {
        let ghost start = self.report@;
        let ghost start_paths = self.report.paths();
        let ghost path = self.filename@;
        let ghost all = outline(nodes@);
        let n: usize = nodes.len();
        let mut i: usize = 0;
        while i < n
            invariant
                i <= n,
                n == nodes@.len(),
                all == outline(nodes@),
                self.filename@ == path,
                self.filename == old(self).filename,
                self.report@ == visited(start, path, all.subrange(0, i as int)),
                self.report.paths() == paths_visited(
                    start_paths,
                    start,
                    path,
                    all.subrange(0, i as int),
                ),
            decreases n - i,
        {
            let ghost seen = all.subrange(0, i as int);
            proof {
                assert(all.subrange(0, i + 1) =~= seen.push(all[i as int]));
                lemma_one_more_node(start, path, seen, all[i as int]);
            }
            match &nodes[i] {
                Node::Call(callee) => {
                    self.visit_call_expr(callee);
                },
                Node::ExportDecl { declaration, top_level } => {
                    if *top_level {
                        self.visit_export_decl(declaration);
                    } else {
                        proof {
                            lemma_single_node(
                                report_or_empty(self.report@, self.filename@),
                                all[i as int],
                            );
                        }
                    }
                },
            }
            i += 1;
        }
        proof {
            assert(all.subrange(0, n as int) =~= all);
        }
    }
}

/// The analysis of one file.
#[derive(Debug)]
pub struct Analyzer {
    /// The path of the file.
    pub filename: String,
}

impl Analyzer {
    /// An analyzer for the file at `filename`.
    pub fn new(filename: &str) -> (analyzer: Analyzer)
        ensures
            analyzer.filename@ == filename@,
    {
        Analyzer { filename: String::from_str(filename) }
    }

    /// Visits the nodes of the file with a fresh visitor and gives what it
    /// recorded: the report of the file under the file's path, and nothing
    /// else. A file whose nodes told nothing has the empty report. The
    /// result depends on the path and the nodes alone.
    pub fn run(&self, nodes: &Vec<Node>) -> (reports: Reports)
        ensures
            reports@ == analysis(self.filename@, outline(nodes@)),
            reports.paths() == seq![self.filename@],
    {
        let mut visitor = TreeVisitor::new(self.filename.as_str());
        visitor.visit_nodes(nodes);
        if visitor.report.get(self.filename.as_str()).is_none() {
            proof {
                lemma_unobserved_nodes_change_nothing(ReportView::empty(), outline(nodes@));
            }
            visitor.report.insert(self.filename.clone(), Report::new());
        }
        assert(visitor.report@ =~= analysis(self.filename@, outline(nodes@)));
        assert(visitor.report.paths() =~= seq![self.filename@]);
        visitor.report
    }
}

} // verus!
