//! The greeting command: a fixed template with the caller's name
//! substituted verbatim.

use vstd::prelude::*;
use vstd::string::StringExecFns;

verus! {

/// The greeting for `name`: the fixed template's prefix, then the name
/// unchanged, then the fixed template's suffix.
pub open spec fn greeting_of(name: Seq<char>) -> Seq<char> {
    "Hello, "@ + name + "! You've been greeted from Rust!"@
}

/// Formats the greeting for `name`. Pure and total: no input is rejected,
/// and the result is exactly the template with `name` substituted.
pub fn greet(name: &str) -> (r: String)
    ensures
        r@ == greeting_of(name@),
{
    let mut r = String::from_str("Hello, ");
    r.append(name);
    r.append("! You've been greeted from Rust!");
    r
}

/// The greeting is a function of the name alone: any two results formed
/// for the same name are equal, so repeated calls with the same input
/// always return the same greeting.
pub proof fn lemma_greeting_deterministic(name: Seq<char>, r1: Seq<char>, r2: Seq<char>)
    requires
        r1 == greeting_of(name),
        r2 == greeting_of(name),
    ensures
        r1 == r2,
{
}

/// The name is substituted verbatim: the greeting starts with the
/// template's prefix, ends with its suffix, and holds the name unchanged
/// in between — whatever the name holds, the template's own text included.
pub proof fn lemma_greeting_substitutes_verbatim(name: Seq<char>)
    ensures
        greeting_of(name).len() == "Hello, "@.len() + name.len()
            + "! You've been greeted from Rust!"@.len(),
        greeting_of(name).subrange(0, "Hello, "@.len() as int) == "Hello, "@,
        greeting_of(name).subrange(
            "Hello, "@.len() as int,
            "Hello, "@.len() + name.len() as int,
        ) == name,
        greeting_of(name).subrange(
            "Hello, "@.len() + name.len() as int,
            greeting_of(name).len() as int,
        ) == "! You've been greeted from Rust!"@,
{
    assert(greeting_of(name).subrange(0, "Hello, "@.len() as int) =~= "Hello, "@);
    assert(greeting_of(name).subrange(
        "Hello, "@.len() as int,
        "Hello, "@.len() + name.len() as int,
    ) =~= name);
    assert(greeting_of(name).subrange(
        "Hello, "@.len() + name.len() as int,
        greeting_of(name).len() as int,
    ) =~= "! You've been greeted from Rust!"@);
}

} // verus!

