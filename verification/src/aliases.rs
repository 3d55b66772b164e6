//! Selection of a command line by the name the executable runs under.

use vstd::prelude::*;
use vstd::string::StringExecFns;

verus! {

/// The one name under which the executable is a known alias.
pub open spec fn known_alias() -> Seq<char> {
    "true"@
}

/// The message that rejects `alias`.
pub open spec fn unknown_alias_message(alias: Seq<char>) -> Seq<char> {
    "not a known alias: "@ + alias
}

/// Accepts `alias` when it is the known alias, and otherwise says which name
/// was not recognised.
pub fn match_alias(alias: &str) -> (r: Result<(), String>)
    ensures
        alias@ == known_alias() <==> r is Ok,
        r matches Err(message) ==> message@ == unknown_alias_message(alias@),
{
    let name = alias.to_owned();
    let known = String::from_str("true");
    if name == known {
        Ok(())
    } else {
        Err(String::from_str("not a known alias: ").concat(alias))
    }
}

} // verus!
