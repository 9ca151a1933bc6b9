//! Locations of glue functions in their source files.

use vstd::prelude::*;
use vstd::string::StringExecFns;

use crate::text::{decimal, decimal_text};

verus! {

/// The location of a glue function as the generated code records it: its
/// file and line.
#[derive(Debug, Clone)]
pub struct StaticGlueCodeLocation {
    pub file: &'static str,
    pub line: u32,
}

/// A location written as `file:line`.
pub open spec fn file_line_text(file: Seq<char>, line: nat) -> Seq<char> {
    file + ":"@ + decimal(line)
}

/// Writes `file` and `line` as `file:line`.
fn write_file_line(file: &str, line: u64) -> (t: String)
    ensures
        t@ == file_line_text(file@, line as nat),
{
    let mut t = String::from_str(file);
    t.append(":");
    let number = decimal_text(line);
    t.append(number.as_str());
    t
}

impl StaticGlueCodeLocation {
    /// The location written as `file:line`.
    pub fn to_text(&self) -> (t: String)
        ensures
            t@ == file_line_text(self.file@, self.line as nat),
    {
        write_file_line(self.file, self.line as u64)
    }
}

/// The location of a glue function: its file path and line number.
#[derive(Debug, Copy, Clone)]
pub struct CodeLocation {
    pub file_path: &'static str,
    pub line_number: usize,
}

impl CodeLocation {
    /// The location written as `file_path:line_number`.
    pub fn to_text(&self) -> (t: String)
        ensures
            t@ == file_line_text(self.file_path@, self.line_number as nat),
    {
        write_file_line(self.file_path, self.line_number as u64)
    }
}

} // verus!
