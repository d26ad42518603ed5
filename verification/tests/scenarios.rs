use hook_analyzer::discovery::analyze_nodes;
use hook_analyzer::report::FileExportType;
use hook_analyzer::reports::Reports;
use hook_analyzer::syntax::Callee;
use hook_analyzer::syntax::ExportedDecl;
use hook_analyzer::syntax::Node;

fn hook_names(hooks: &[&str]) -> Vec<String> {
    hooks.iter().map(|hook| hook.to_string()).collect()
}

fn bare_call(name: &str) -> Node {
    Node::Call(Callee::Identifier(name.to_string()))
}

fn member_call(object_is_identifier: bool, property: &str) -> Node {
    Node::Call(Callee::Member { object_is_identifier, property: Some(property.to_string()) })
}

fn function_export(name: &str) -> Node {
    Node::ExportDecl { declaration: ExportedDecl::Function(name.to_string()), top_level: true }
}

fn variable_export(name: &str) -> Node {
    Node::ExportDecl {
        declaration: ExportedDecl::Variable(vec![Some(name.to_string())]),
        top_level: true,
    }
}

fn analyzed(nodes: Vec<Node>) -> Reports {
    let mut results = Reports::new();
    analyze_nodes("hooks/file.ts", &nodes, &mut results);
    results
}

// export function useCounter() { const [c, setC] = useState(0); useEffect(() => {}, []); return c; }
#[test]
fn counter_hook_is_valid() {
    let results =
        analyzed(vec![function_export("useCounter"), bare_call("useState"), bare_call("useEffect")]);
    assert_eq!(results.len(), 1);
    let report = results.get("hooks/file.ts").expect("the file has a report");
    assert_eq!(report.hooks(), &hook_names(&["useState", "useEffect"]));
    assert_eq!(report.hook_name(), "useCounter");
    assert_eq!(report.export_type(), FileExportType::Function);
    assert!(report.export_use_prefix());
    assert!(report.is_valid_custom_hook());
}

// export const getCounter = () => 0;
#[test]
fn arrow_without_prefix_is_invalid() {
    let results = analyzed(vec![variable_export("getCounter")]);
    let report = results.get("hooks/file.ts").expect("the file has a report");
    assert!(report.hooks().is_empty());
    assert_eq!(report.hook_name(), "getCounter");
    assert_eq!(report.export_type(), FileExportType::Arrow);
    assert!(!report.export_use_prefix());
    assert!(!report.is_valid_custom_hook());
}

// export function useNothing() { return 1; }
#[test]
fn prefix_without_calls_is_invalid() {
    let results = analyzed(vec![function_export("useNothing")]);
    let report = results.get("hooks/file.ts").expect("the file has a report");
    assert_eq!(report.hook_name(), "useNothing");
    assert!(report.export_use_prefix());
    assert!(report.hooks().is_empty());
    assert!(!report.is_valid_custom_hook());
}

// export function useFoo() {}  export function useBar() {}
#[test]
fn first_export_wins() {
    let results = analyzed(vec![function_export("useFoo"), function_export("useBar")]);
    let report = results.get("hooks/file.ts").expect("the file has a report");
    assert_eq!(report.hook_name(), "useFoo");
    assert_eq!(report.export_type(), FileExportType::Function);
}

// useState(0) deep inside other calls; foo.useState(0); foo.bar.useState(0)
#[test]
fn calls_are_found_bare_and_one_member_deep() {
    let nested = analyzed(vec![
        member_call(false, "map"),
        bare_call("wrap"),
        bare_call("useState"),
    ]);
    let report = nested.get("hooks/file.ts").expect("the file has a report");
    assert_eq!(report.hooks(), &hook_names(&["useState"]));
    assert_eq!(report.hook_name(), "");
    assert!(!report.export_use_prefix());

    let member = analyzed(vec![member_call(true, "useState")]);
    let report = member.get("hooks/file.ts").expect("the file has a report");
    assert_eq!(report.hooks(), &hook_names(&["useState"]));

    let chained = analyzed(vec![member_call(false, "useState")]);
    let report = chained.get("hooks/file.ts").expect("the file has a report");
    assert!(report.hooks().is_empty());
}

// computeSomething()
#[test]
fn unknown_calls_are_passed_over() {
    let results = analyzed(vec![bare_call("computeSomething")]);
    assert_eq!(results.len(), 1);
    let report = results.get("hooks/file.ts").expect("the file has a report");
    assert!(report.hooks().is_empty());
    assert_eq!(report.hook_name(), "");
    assert_eq!(report.export_type(), FileExportType::Arrow);
    assert!(!report.export_use_prefix());
    assert!(!report.is_valid_custom_hook());
}

// export const usePrefix = 5; useState(0);
#[test]
fn variable_export_counts_whatever_it_is_bound_to() {
    let results = analyzed(vec![variable_export("usePrefix"), bare_call("useState")]);
    let report = results.get("hooks/file.ts").expect("the file has a report");
    assert_eq!(report.hook_name(), "usePrefix");
    assert!(report.export_use_prefix());
    assert!(report.is_valid_custom_hook());
}

// namespace Inner { export function useInner() {} }  export function useOuter() {}
#[test]
fn export_inside_a_namespace_does_not_count() {
    let results = analyzed(vec![
        Node::ExportDecl {
            declaration: ExportedDecl::Function("useInner".to_string()),
            top_level: false,
        },
        function_export("useOuter"),
    ]);
    let report = results.get("hooks/file.ts").expect("the file has a report");
    assert_eq!(report.hook_name(), "useOuter");
}

// export const { a } = b, useLater = 1;   export const first = 1, useSecond = 2;
#[test]
fn only_the_first_binding_of_a_variable_export_counts() {
    let pattern_first = analyzed(vec![Node::ExportDecl {
        declaration: ExportedDecl::Variable(vec![None, Some("useLater".to_string())]),
        top_level: true,
    }]);
    let report = pattern_first.get("hooks/file.ts").expect("the file has a report");
    assert_eq!(report.hook_name(), "");

    let two_names = analyzed(vec![Node::ExportDecl {
        declaration: ExportedDecl::Variable(vec![
            Some("first".to_string()),
            Some("useSecond".to_string()),
        ]),
        top_level: true,
    }]);
    let report = two_names.get("hooks/file.ts").expect("the file has a report");
    assert_eq!(report.hook_name(), "first");
    assert_eq!(report.export_type(), FileExportType::Arrow);
    assert!(!report.export_use_prefix());

    let no_binding = analyzed(vec![Node::ExportDecl {
        declaration: ExportedDecl::Variable(Vec::new()),
        top_level: true,
    }]);
    let report = no_binding.get("hooks/file.ts").expect("the file has a report");
    assert_eq!(report.hook_name(), "");
}
