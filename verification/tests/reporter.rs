use hook_analyzer::report::FileExportType;
use hook_analyzer::report::Report;
use hook_analyzer::reporter::append_decimal;
use hook_analyzer::reporter::append_joined;
use hook_analyzer::reporter::append_row;
use hook_analyzer::reporter::render;
use hook_analyzer::reports::Reports;

fn decimal_of(value: usize) -> String {
    let mut text = String::new();
    append_decimal(&mut text, value);
    text
}

fn joined_with(items: &[&str], separator: &str) -> String {
    let mut text = String::from("[");
    let items: Vec<String> = items.iter().map(|item| item.to_string()).collect();
    append_joined(&mut text, &items, separator);
    text.push(']');
    text
}

#[test]
fn decimal_notation_has_no_leading_zeros() {
    assert_eq!(decimal_of(0), "0");
    assert_eq!(decimal_of(7), "7");
    assert_eq!(decimal_of(9), "9");
    assert_eq!(decimal_of(10), "10");
    assert_eq!(decimal_of(99), "99");
    assert_eq!(decimal_of(100), "100");
    assert_eq!(decimal_of(1234567890), "1234567890");
    assert_eq!(decimal_of(usize::MAX), usize::MAX.to_string());
}

#[test]
fn decimal_is_added_at_the_end() {
    let mut text = String::from("Files visited: ");
    append_decimal(&mut text, 42);
    assert_eq!(text, "Files visited: 42");
}

#[test]
fn items_are_joined_with_the_separator_between() {
    assert_eq!(joined_with(&[], ", "), "[]");
    assert_eq!(joined_with(&["useState"], ", "), "[useState]");
    assert_eq!(joined_with(&["useState", "useEffect"], ", "), "[useState, useEffect]");
    assert_eq!(joined_with(&["a", "", "c"], "-"), "[a--c]");
    assert_eq!(joined_with(&["", ""], ", "), "[, ]");
    assert_eq!(joined_with(&["a", "b"], ""), "[ab]");
}

#[test]
fn row_shows_the_fields_of_a_report() {
    let mut report = Report::new();
    report.record_hook("useMine".to_string());
    report.record_export("useA".to_string(), FileExportType::Arrow);
    let mut text = String::from("before");
    append_row(&mut text, "a<b>.ts", &report);
    assert_eq!(text, format!("before{}", "\n                <tr>\n                    <td>a<b>.ts</td>\n                    <td><code>useA</code></td>\n                    <td>\u{274c}</td>\n                    <td>\u{2705}</td>\n                    <td><code>useMine</code></td>\n                    <td>Function Expression <code>const f = () =>{...}</code></td>\n                </tr>\n        "));
}

#[test]
fn page_without_files() {
    assert_eq!(render(&Reports::new()), "<!DOCTYPE html>\n    <html>\n        <head>\n            <title>React Hooks Manuel Report</title>\n            <style>\n                body { font-family: Arial, sans-serif; margin: 20px; }\n                h1 { color: #333; }\n                table { width: 100%; border-collapse: collapse; margin-top: 20px; }\n                th, td { border: 1px solid #ccc; padding: 8px; text-align: left; }\n                th { background-color: #f4f4f4; }\n                tr:nth-child(even) { background-color: #f9f9f9; }\n            </style>\n        </head>\n    <body>\n        <h1>Custom React Hooks Analyzer Report</h1>\n        <p>Files visited: 0</p>\n        <table>\n            <thead>\n                <tr>\n                    <th>File Path</th>\n                    <th>Hook Name</th>\n                    <th>Is valid custom hook</th>\n                    <th><code>use[HookName]</code> prefix</th>\n                    <th>Used default hooks</th>\n                    <th>Export Method</th>\n                </tr>\n            </thead>\n            <tbody>\n            </tbody>\n        </table>\n    </body>\n    </html>\n    ");
}

#[test]
fn page_with_a_valid_and_an_invalid_file() {
    let mut results = Reports::new();
    results.record_export("src/hooks/useCounter.ts", "useCounter".to_string(), FileExportType::Function);
    results.record_hook("src/hooks/useCounter.ts", "useState".to_string());
    results.record_hook("src/hooks/useCounter.ts", "useEffect".to_string());
    results.record_export("src/hooks/getCounter.ts", "getCounter".to_string(), FileExportType::Arrow);
    assert_eq!(render(&results), "<!DOCTYPE html>\n    <html>\n        <head>\n            <title>React Hooks Manuel Report</title>\n            <style>\n                body { font-family: Arial, sans-serif; margin: 20px; }\n                h1 { color: #333; }\n                table { width: 100%; border-collapse: collapse; margin-top: 20px; }\n                th, td { border: 1px solid #ccc; padding: 8px; text-align: left; }\n                th { background-color: #f4f4f4; }\n                tr:nth-child(even) { background-color: #f9f9f9; }\n            </style>\n        </head>\n    <body>\n        <h1>Custom React Hooks Analyzer Report</h1>\n        <p>Files visited: 2</p>\n        <table>\n            <thead>\n                <tr>\n                    <th>File Path</th>\n                    <th>Hook Name</th>\n                    <th>Is valid custom hook</th>\n                    <th><code>use[HookName]</code> prefix</th>\n                    <th>Used default hooks</th>\n                    <th>Export Method</th>\n                </tr>\n            </thead>\n            <tbody>\n                <tr>\n                    <td>src/hooks/useCounter.ts</td>\n                    <td><code>useCounter</code></td>\n                    <td>\u{2705}</td>\n                    <td>\u{2705}</td>\n                    <td><code>useState, useEffect</code></td>\n                    <td>Function Declaration <code>function f(\u{2026}) {\u{2026}}</code></td>\n                </tr>\n        \n                <tr>\n                    <td>src/hooks/getCounter.ts</td>\n                    <td><code>getCounter</code></td>\n                    <td>\u{274c}</td>\n                    <td>\u{274c}</td>\n                    <td><code></code></td>\n                    <td>Function Expression <code>const f = () =>{...}</code></td>\n                </tr>\n        \n            </tbody>\n        </table>\n    </body>\n    </html>\n    ");
}

#[test]
fn page_counts_in_decimal_and_keeps_the_order_of_the_files() {
    let mut results = Reports::new();
    for index in 0..12 {
        results.record_hook(&format!("f{index}.ts"), "useId".to_string());
    }
    assert_eq!(render(&results), "<!DOCTYPE html>\n    <html>\n        <head>\n            <title>React Hooks Manuel Report</title>\n            <style>\n                body { font-family: Arial, sans-serif; margin: 20px; }\n                h1 { color: #333; }\n                table { width: 100%; border-collapse: collapse; margin-top: 20px; }\n                th, td { border: 1px solid #ccc; padding: 8px; text-align: left; }\n                th { background-color: #f4f4f4; }\n                tr:nth-child(even) { background-color: #f9f9f9; }\n            </style>\n        </head>\n    <body>\n        <h1>Custom React Hooks Analyzer Report</h1>\n        <p>Files visited: 12</p>\n        <table>\n            <thead>\n                <tr>\n                    <th>File Path</th>\n                    <th>Hook Name</th>\n                    <th>Is valid custom hook</th>\n                    <th><code>use[HookName]</code> prefix</th>\n                    <th>Used default hooks</th>\n                    <th>Export Method</th>\n                </tr>\n            </thead>\n            <tbody>\n                <tr>\n                    <td>f0.ts</td>\n                    <td><code></code></td>\n                    <td>\u{274c}</td>\n                    <td>\u{274c}</td>\n                    <td><code>useId</code></td>\n                    <td>Function Expression <code>const f = () =>{...}</code></td>\n                </tr>\n        \n                <tr>\n                    <td>f1.ts</td>\n                    <td><code></code></td>\n                    <td>\u{274c}</td>\n                    <td>\u{274c}</td>\n                    <td><code>useId</code></td>\n                    <td>Function Expression <code>const f = () =>{...}</code></td>\n                </tr>\n        \n                <tr>\n                    <td>f2.ts</td>\n                    <td><code></code></td>\n                    <td>\u{274c}</td>\n                    <td>\u{274c}</td>\n                    <td><code>useId</code></td>\n                    <td>Function Expression <code>const f = () =>{...}</code></td>\n                </tr>\n        \n                <tr>\n                    <td>f3.ts</td>\n                    <td><code></code></td>\n                    <td>\u{274c}</td>\n                    <td>\u{274c}</td>\n                    <td><code>useId</code></td>\n                    <td>Function Expression <code>const f = () =>{...}</code></td>\n                </tr>\n        \n                <tr>\n                    <td>f4.ts</td>\n                    <td><code></code></td>\n                    <td>\u{274c}</td>\n                    <td>\u{274c}</td>\n                    <td><code>useId</code></td>\n                    <td>Function Expression <code>const f = () =>{...}</code></td>\n                </tr>\n        \n                <tr>\n                    <td>f5.ts</td>\n                    <td><code></code></td>\n                    <td>\u{274c}</td>\n                    <td>\u{274c}</td>\n                    <td><code>useId</code></td>\n                    <td>Function Expression <code>const f = () =>{...}</code></td>\n                </tr>\n        \n                <tr>\n                    <td>f6.ts</td>\n                    <td><code></code></td>\n                    <td>\u{274c}</td>\n                    <td>\u{274c}</td>\n                    <td><code>useId</code></td>\n                    <td>Function Expression <code>const f = () =>{...}</code></td>\n                </tr>\n        \n                <tr>\n                    <td>f7.ts</td>\n                    <td><code></code></td>\n                    <td>\u{274c}</td>\n                    <td>\u{274c}</td>\n                    <td><code>useId</code></td>\n                    <td>Function Expression <code>const f = () =>{...}</code></td>\n                </tr>\n        \n                <tr>\n                    <td>f8.ts</td>\n                    <td><code></code></td>\n                    <td>\u{274c}</td>\n                    <td>\u{274c}</td>\n                    <td><code>useId</code></td>\n                    <td>Function Expression <code>const f = () =>{...}</code></td>\n                </tr>\n        \n                <tr>\n                    <td>f9.ts</td>\n                    <td><code></code></td>\n                    <td>\u{274c}</td>\n                    <td>\u{274c}</td>\n                    <td><code>useId</code></td>\n                    <td>Function Expression <code>const f = () =>{...}</code></td>\n                </tr>\n        \n                <tr>\n                    <td>f10.ts</td>\n                    <td><code></code></td>\n                    <td>\u{274c}</td>\n                    <td>\u{274c}</td>\n                    <td><code>useId</code></td>\n                    <td>Function Expression <code>const f = () =>{...}</code></td>\n                </tr>\n        \n                <tr>\n                    <td>f11.ts</td>\n                    <td><code></code></td>\n                    <td>\u{274c}</td>\n                    <td>\u{274c}</td>\n                    <td><code>useId</code></td>\n                    <td>Function Expression <code>const f = () =>{...}</code></td>\n                </tr>\n        \n            </tbody>\n        </table>\n    </body>\n    </html>\n    ");
}
