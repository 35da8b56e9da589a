use vstd::prelude::*;
use crate::decimal::{decimal, push_decimal};

verus! {

/// `Name: {name} Version: {version}`.
pub open spec fn spec_banner(name: Seq<char>, version: Seq<char>) -> Seq<char> {
    "Name: "@ + name + " Version: "@ + version
}

/// `{ "filename": "{file}", "line": {line}, "data": "{data}" }`, the record
/// a log line carries; its parts are written as given, without escaping.
pub open spec fn spec_file_and_line(file: Seq<char>, line: nat, data: Seq<char>) -> Seq<char> {
    "{ \"filename\": \""@ + file + "\", \"line\": "@ + decimal(line) + ", \"data\": \""@ + data
        + "\" }"@
}

/// The start-up line naming the program and its version.
pub fn startup_banner(name: &str, version: &str) -> (s: String)
    ensures
        s@ == spec_banner(name@, version@),
{
    let mut s = String::from_str("Name: ");
    s.append(name);
    s.append(" Version: ");
    s.append(version);
    s
}

/// The JSON-shaped record that tells where a log line was emitted and what it says.
pub fn format_file_and_line(file: &str, line: u32, data: &str) -> (s: String)
    ensures
        s@ == spec_file_and_line(file@, line as nat, data@),
{
    let mut s = String::from_str("{ \"filename\": \"");
    s.append(file);
    s.append("\", \"line\": ");
    push_decimal(&mut s, line as u64);
    s.append(", \"data\": \"");
    s.append(data);
    s.append("\" }");
    s
}

} // verus!
