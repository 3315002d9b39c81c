use vstd::prelude::*;
use vstd::string::StringExecFns;

verus! {

/// Builds the greeting shown to a caller: a fixed salutation and sign-off
/// around the given name. Pure: the result depends on `name` alone.
pub fn greet(name: &str) -> (r: String)
    ensures
        r@ == "Hello, "@ + name@ + "! You've been greeted from Rust!"@,
{
    let mut out: String = "Hello, ".to_owned();
    out.append(name);
    out.append("! You've been greeted from Rust!");
    out
}

} // verus!
