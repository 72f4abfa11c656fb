//! The command line that the startup entry runs.

use vstd::prelude::*;
use vstd::string::StringExecFns;

verus! {

/// The command for the executable at `exe`: its path in double quotes, then
/// the argument `run`.
pub open spec fn spec_autostart_command(exe: Seq<char>) -> Seq<char> {
    "\""@ + exe + "\" run"@
}

/// The command that starts the executable at `exe` when the user logs in.
pub fn autostart_command(exe: &str) -> (r: String)
    ensures
        r@ == spec_autostart_command(exe@),
{
    String::from_str("\"").concat(exe).concat("\" run")
}

} // verus!
