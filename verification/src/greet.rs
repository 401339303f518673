//! The greeting route's text, the one piece of the HTTP surface beside the
//! dispatcher with observable content.

use vstd::prelude::*;
use vstd::string::StringExecFns;

verus! {

/// The greeting for a named caller.
pub fn greet_with_name(name: &str) -> (r: String)
    ensures
        r@ == "Hello, "@ + name@ + "!"@,
{
    let mut out = "Hello, ".to_owned();
    out.append(name);
    out.append("!");
    out
}

/// The greeting where no name was given.
pub fn greet_default() -> (r: String)
    ensures
        r@ == "Hello, world!"@,
{
    let r = greet_with_name("world");
    proof {
        reveal_strlit("Hello, ");
        reveal_strlit("world");
        reveal_strlit("!");
        reveal_strlit("Hello, world!");
        assert(r@ =~= "Hello, world!"@);
    }
    r
}

} // verus!
