//! The text of the three queries.
//!
//! File, line and name go into the text as they are. Nothing is escaped:
//! a value that holds a double quote ends the string it stands in, so these
//! builders are for values that the caller made itself.

use crate::text::{decimal, decimal_digits};
use vstd::prelude::*;
use vstd::string::*;

verus! {

/// The variable query up to the file.
pub const VARIABLE_QUERY_FILE: &'static str =
    "import cpp\n\nfrom VariableAccess a, Variable v\nwhere\n  a.getFile().getRelativePath() = \"";

/// The variable query between file and line.
pub const VARIABLE_QUERY_LINE: &'static str = "\" and\n  a.getLocation().getStartLine() = ";

/// The variable query between line and name.
pub const VARIABLE_QUERY_NAME: &'static str = " and\n  a.getTarget() = v and\n  v.getName() = \"";

/// The variable query after the name: what it selects.
pub const VARIABLE_QUERY_SELECT: &'static str =
    "\"\nselect\n  v.getFile().getRelativePath() as filename,\n  v.getLocation().getStartLine() as startline,\n  v.getLocation().getEndLine() as endline\n";

/// The function query up to the file.
pub const FUNCTION_QUERY_FILE: &'static str =
    "import cpp\n\nfrom FunctionCall c, Function f, string flag\nwhere\n  c.getFile().getRelativePath() = \"";

/// The function query between file and line.
pub const FUNCTION_QUERY_LINE: &'static str = "\" and\n  c.getLocation().getStartLine() = ";

/// The function query between line and name.
pub const FUNCTION_QUERY_NAME: &'static str = " and\n  c.getTarget() = f and\n  (f.getName() = \"";

/// The function query between the name and the name as a pattern.
pub const FUNCTION_QUERY_PATTERN: &'static str = "\" or f.getQualifiedName().matches(\"%";

/// The function query after the pattern: the flag and what it selects.
pub const FUNCTION_QUERY_SELECT: &'static str =
    "%\")) and\n  (f.isVirtual() and flag = \"true\" or not f.isVirtual() and flag = \"false\")\nselect\n  f.getQualifiedName() as name,\n  f.getFile().getRelativePath() as filename,\n  f.getLocation().getStartLine() as startline,\n  f.getLocation().getEndLine() as endline,\n  flag as is_virtual\n";

/// The override query up to the name.
pub const OVERRIDE_QUERY_NAME: &'static str =
    "import cpp\n\nfrom MemberFunction base, MemberFunction f\nwhere\n  base.getQualifiedName() = \"";

/// The override query after the name: what it selects.
pub const OVERRIDE_QUERY_SELECT: &'static str =
    "\" and\n  f.overrides(base)\nselect\n  f.getQualifiedName() as name,\n  f.getFile().getRelativePath() as filename,\n  f.getLocation().getStartLine() as startline,\n  f.getLocation().getEndLine() as endline\n";

/// The query for the variable called `name` that is accessed at line
/// `line` of `file`. It selects the file and the first and last line of
/// the variable's declaration.
pub open spec fn variable_query_text(file: Seq<char>, line: nat, name: Seq<char>) -> Seq<char> {
    VARIABLE_QUERY_FILE@ + file + VARIABLE_QUERY_LINE@ + decimal_digits(line)
        + VARIABLE_QUERY_NAME@ + name + VARIABLE_QUERY_SELECT@
}

/// The query for the functions that a call at line `line` of `file` may
/// reach and whose name is `name` or whose qualified name holds `name`.
/// It selects each function's qualified name, file, first and last line,
/// and whether the function is virtual.
pub open spec fn function_query_text(file: Seq<char>, line: nat, name: Seq<char>) -> Seq<char> {
    FUNCTION_QUERY_FILE@ + file + FUNCTION_QUERY_LINE@ + decimal_digits(line)
        + FUNCTION_QUERY_NAME@ + name + FUNCTION_QUERY_PATTERN@ + name + FUNCTION_QUERY_SELECT@
}

/// The query for the functions that override the virtual function with the
/// qualified name `name`. It selects each one's qualified name, file, and
/// first and last line.
pub open spec fn override_query_text(name: Seq<char>) -> Seq<char> {
    OVERRIDE_QUERY_NAME@ + name + OVERRIDE_QUERY_SELECT@
}

/// Writes the variable-definition query.
pub fn variable_query(file: &str, line: u32, name: &str) -> (query: String)
    ensures
        query@ == variable_query_text(file@, line as nat, name@),
{
    let mut query = String::from_str(VARIABLE_QUERY_FILE);
    query.append(file);
    query.append(VARIABLE_QUERY_LINE);
    query.append(decimal(line as u64).as_str());
    query.append(VARIABLE_QUERY_NAME);
    query.append(name);
    query.append(VARIABLE_QUERY_SELECT);
    query
}

/// Writes the function-call-target query.
pub fn function_query(file: &str, line: u32, name: &str) -> (query: String)
    ensures
        query@ == function_query_text(file@, line as nat, name@),
{
    let mut query = String::from_str(FUNCTION_QUERY_FILE);
    query.append(file);
    query.append(FUNCTION_QUERY_LINE);
    query.append(decimal(line as u64).as_str());
    query.append(FUNCTION_QUERY_NAME);
    query.append(name);
    query.append(FUNCTION_QUERY_PATTERN);
    query.append(name);
    query.append(FUNCTION_QUERY_SELECT);
    query
}

/// Writes the override query.
pub fn override_query(name: &str) -> (query: String)
    ensures
        query@ == override_query_text(name@),
{
    let mut query = String::from_str(OVERRIDE_QUERY_NAME);
    query.append(name);
    query.append(OVERRIDE_QUERY_SELECT);
    query
}

} // verus!
