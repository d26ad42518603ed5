//! The report page: a table with one row for each file, as HTML text.

use vstd::prelude::*;
use vstd::string::StringExecFns;
use crate::report::names;
use crate::report::FileExportType;
use crate::report::Report;
use crate::report::ReportView;
use crate::reports::Reports;

verus! {

/// What the page starts with, up to the number of files.
pub const PAGE_HEAD: &'static str = "<!DOCTYPE html>\
    \n    <html>\
    \n        <head>\
    \n            <title>React Hooks Manuel Report</title>\
    \n            <style>\
    \n                body { font-family: Arial, sans-serif; margin: 20px; }\
    \n                h1 { color: #333; }\
    \n                table { width: 100%; border-collapse: collapse; margin-top: 20px; }\
    \n                th, td { border: 1px solid #ccc; padding: 8px; text-align: left; }\
    \n                th { background-color: #f4f4f4; }\
    \n                tr:nth-child(even) { background-color: #f9f9f9; }\
    \n            </style>\
    \n        </head>\
    \n    <body>\
    \n        <h1>Custom React Hooks Analyzer Report</h1>\
    \n        <p>Files visited: ";

/// What stands between the number of files and the rows.
pub const PAGE_MIDDLE: &'static str = "</p>\
    \n        <table>\
    \n            <thead>\
    \n                <tr>\
    \n                    <th>File Path</th>\
    \n                    <th>Hook Name</th>\
    \n                    <th>Is valid custom hook</th>\
    \n                    <th><code>use[HookName]</code> prefix</th>\
    \n                    <th>Used default hooks</th>\
    \n                    <th>Export Method</th>\
    \n                </tr>\
    \n            </thead>\
    \n            <tbody>";

/// What the page ends with, after the rows.
pub const PAGE_TAIL: &'static str = "\
    \n            </tbody>\
    \n        </table>\
    \n    </body>\
    \n    </html>\
    \n    ";

/// What a row starts with, up to the path of the file.
pub const ROW_OPEN: &'static str = "\n                <tr>\n                    <td>";

/// What stands between the path and the exported name.
pub const AFTER_PATH: &'static str = "</td>\n                    <td><code>";

/// What stands between the exported name and the mark for a valid custom hook.
pub const AFTER_NAME: &'static str = "</code></td>\n                    <td>";

/// What stands between the mark for a valid custom hook and the mark for the prefix.
pub const AFTER_VALID: &'static str = "</td>\n                    <td>";

/// What stands between the mark for the prefix and the hooks called.
pub const AFTER_PREFIX: &'static str = "</td>\n                    <td><code>";

/// What stands between the hooks called and the kind of export.
pub const AFTER_HOOKS: &'static str = "</code></td>\n                    <td>";

/// What a row ends with.
pub const ROW_CLOSE: &'static str = "</td>\n                </tr>\n        ";

/// The mark for what holds.
pub const YES: &'static str = "\u{2705}";

/// The mark for what does not hold.
pub const NO: &'static str = "\u{274c}";

/// What stands between two hooks of a row.
pub const HOOK_SEPARATOR: &'static str = ", ";

/// How an export by a function declaration is described.
pub const FUNCTION_EXPORT: &'static str =
    "Function Declaration <code>function f(\u{2026}) {\u{2026}}</code>";

/// How an export by a variable is described.
pub const ARROW_EXPORT: &'static str = "Function Expression <code>const f = () =>{...}</code>";

/// The decimal digit for a number below ten.
pub open spec fn digit(value: nat) -> char
    recommends
        value < 10,
{
    (48 + value) as u8 as char
}

/// A number in decimal notation, without leading zeros.
pub open spec fn decimal(value: nat) -> Seq<char>
    decreases value,
{
    if value < 10 {
        seq![digit(value)]
    } else {
        decimal(value / 10).push(digit(value % 10))
    }
}

/// The items one after the other, with `separator` between each two.
pub open spec fn joined(items: Seq<Seq<char>>, separator: Seq<char>) -> Seq<char>
    decreases items.len(),
{
    if items.len() == 0 {
        Seq::empty()
    } else if items.len() == 1 {
        items[0]
    } else {
        joined(items.drop_last(), separator) + separator + items.last()
    }
}

/// The mark for a flag.
pub open spec fn mark(flag: bool) -> Seq<char> {
    if flag {
        YES@
    } else {
        NO@
    }
}

/// The description of a kind of export.
pub open spec fn export_label(kind: FileExportType) -> Seq<char> {
    match kind {
        FileExportType::Function => FUNCTION_EXPORT@,
        FileExportType::Arrow => ARROW_EXPORT@,
    }
}

/// The row of the file at `path` with the report `report`: the path, the
/// exported name, whether the file is a valid custom hook, whether the name
/// carries the prefix, the hooks called, and the kind of export.
pub open spec fn row(path: Seq<char>, report: ReportView) -> Seq<char> {
    ROW_OPEN@ + path + AFTER_PATH@ + report.hook_name + AFTER_NAME@ + mark(
        report.is_valid_custom_hook(),
    ) + AFTER_VALID@ + mark(report.export_use_prefix) + AFTER_PREFIX@ + joined(
        report.hooks,
        HOOK_SEPARATOR@,
    ) + AFTER_HOOKS@ + export_label(report.export_type) + ROW_CLOSE@
}

/// The rows of the files at `paths`, in their order.
pub open spec fn rows(paths: Seq<Seq<char>>, reports: Map<Seq<char>, ReportView>) -> Seq<char>
    decreases paths.len(),
{
    if paths.len() == 0 {
        Seq::empty()
    } else {
        rows(paths.drop_last(), reports) + row(paths.last(), reports[paths.last()])
    }
}

/// The page for the reports `reports` of the files at `paths`.
pub open spec fn page(paths: Seq<Seq<char>>, reports: Map<Seq<char>, ReportView>) -> Seq<char> {
    PAGE_HEAD@ + decimal(paths.len()) + PAGE_MIDDLE@ + rows(paths, reports) + PAGE_TAIL@
}

/// The text of one decimal digit.
fn digit_text(value: usize) -> (text: &'static str)
    requires
        value < 10,
    ensures
        text@ == seq![digit(value as nat)],
{
    proof {
        reveal_strlit("0");
        reveal_strlit("1");
        reveal_strlit("2");
        reveal_strlit("3");
        reveal_strlit("4");
        reveal_strlit("5");
        reveal_strlit("6");
        reveal_strlit("7");
        reveal_strlit("8");
        reveal_strlit("9");
    }
    match value {
        0 => "0",
        1 => "1",
        2 => "2",
        3 => "3",
        4 => "4",
        5 => "5",
        6 => "6",
        7 => "7",
        8 => "8",
        _ => "9",
    }
}

/// Adds `value` in decimal notation to the end of `text`.
pub fn append_decimal(text: &mut String, value: usize)
    ensures
        final(text)@ == old(text)@ + decimal(value as nat),
    decreases value,
{
    if value >= 10 {
        append_decimal(text, value / 10);
    }
    text.append(digit_text(value % 10));
}

/// Adds the items, with `separator` between each two, to the end of `text`.
pub fn append_joined(text: &mut String, items: &Vec<String>, separator: &str)
    ensures
        final(text)@ == old(text)@ + joined(names(items@), separator@),
{
    let ghost all = names(items@);
    let n: usize = items.len();
    let mut i: usize = 0;
    while i < n
        invariant
            i <= n,
            n == items@.len(),
            all == names(items@),
            text@ == old(text)@ + joined(all.subrange(0, i as int), separator@),
        decreases n - i,
    {
        proof {
            assert(all.subrange(0, i + 1).drop_last() =~= all.subrange(0, i as int));
        }
        if i > 0 {
            text.append(separator);
        }
        text.append(items[i].as_str());
        i += 1;
    }
    proof {
        assert(all.subrange(0, n as int) =~= all);
    }
}

/// The text of the mark for a flag.
fn mark_text(flag: bool) -> (text: &'static str)
    ensures
        text@ == mark(flag),
{
    if flag {
        YES
    } else {
        NO
    }
}

/// The text that describes a kind of export.
fn export_text(kind: FileExportType) -> (text: &'static str)
    ensures
        text@ == export_label(kind),
{
    match kind {
        FileExportType::Function => FUNCTION_EXPORT,
        FileExportType::Arrow => ARROW_EXPORT,
    }
}

/// Adds the row of the file at `path` to the end of `text`.
pub fn append_row(text: &mut String, path: &str, report: &Report)
    ensures
        final(text)@ == old(text)@ + row(path@, report@),
{
    text.append(ROW_OPEN);
    text.append(path);
    text.append(AFTER_PATH);
    text.append(report.hook_name().as_str());
    text.append(AFTER_NAME);
    text.append(mark_text(report.is_valid_custom_hook()));
    text.append(AFTER_VALID);
    text.append(mark_text(report.export_use_prefix()));
    text.append(AFTER_PREFIX);
    append_joined(text, report.hooks(), HOOK_SEPARATOR);
    text.append(AFTER_HOOKS);
    text.append(export_text(report.export_type()));
    text.append(ROW_CLOSE);
}

/// The report page for `results`: one row for each file, in the order in
/// which the files came.
pub fn render(results: &Reports) -> (html: String)
    ensures
        html@ == page(results.paths(), results@),
{
    let count: usize = results.len();
    let mut html = String::from_str(PAGE_HEAD);
    append_decimal(&mut html, count);
    html.append(PAGE_MIDDLE);
    let ghost paths = results.paths();
    let ghost start = html@;
    let mut i: usize = 0;
    while i < count
        invariant
            i <= count,
            count == paths.len(),
            paths == results.paths(),
            start == PAGE_HEAD@ + decimal(count as nat) + PAGE_MIDDLE@,
            html@ == start + rows(paths.subrange(0, i as int), results@),
        decreases count - i,
    {
        proof {
            assert(paths.subrange(0, i + 1).drop_last() =~= paths.subrange(0, i as int));
        }
        append_row(&mut html, results.path_at(i).as_str(), results.report_at(i));
        i += 1;
    }
    proof {
        assert(paths.subrange(0, count as int) =~= paths);
    }
    html.append(PAGE_TAIL);
    html
}

} // verus!
