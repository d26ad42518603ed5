//! Analysis of JavaScript and TypeScript modules for the custom hook
//! convention: a module follows it when the name it exports starts with
//! `use` and the module calls at least one of React's built-in hooks.
//!
//! The library takes the syntax tree of a module as the calls and export
//! declarations that it holds (`syntax`); a parser hands them over. What
//! they mean is stated in `analysis` and computed in `visitor`; the result
//! is a `report::Report` for the file, kept with those of other files in
//! `reports::Reports` and shown as a page by `reporter`. `discovery` holds
//! the rules by which the files of a directory tree are chosen, and adds
//! the report of a file to those of the scan.

pub mod text;
pub mod registry;
pub mod report;
pub mod reports;
pub mod syntax;
pub mod analysis;
pub mod visitor;
pub mod discovery;
pub mod reporter;
