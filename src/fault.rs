use vstd::prelude::*;
use vstd::string::StringExecFns;

use crate::error::{decimal, push_decimal};

verus! {

/// The line logged for an unrecoverable fault:
/// `panicked at <file>:<line>:<column>:` and the message on the next line.
pub open spec fn fault_report(file: Seq<char>, line: u32, column: u32, message: Seq<char>) -> Seq<
    char,
> {
    "panicked at "@ + file + ":"@ + decimal(line as nat) + ":"@ + decimal(column as nat) + ":\n"@
        + message
}

/// Renders the report of an unrecoverable fault at `file:line:column`.
/// The device logs it and then halts in a safe loop; it never restarts on
/// its own.
pub fn panic(file: &str, line: u32, column: u32, message: &str) -> (r: String)
    ensures
        r@ == fault_report(file@, line, column, message@),
{
    let mut s = String::from_str("panicked at ");
    s.append(file);
    s.append(":");
    push_decimal(&mut s, line as u64);
    s.append(":");
    push_decimal(&mut s, column as u64);
    s.append(":\n");
    s.append(message);
    s
}

} // verus!
