//! The one invocable operation of the backend: a total greeting
//! command that echoes its argument into a fixed template.

use vstd::prelude::*;
use vstd::string::StringExecFns;

verus! {

/// The greeting for a given name: the fixed salutation, the name
/// verbatim, and the closing mark.
pub open spec fn greeting_of(name: Seq<char>) -> Seq<char> {
    "Hello, "@ + name + "!"@
}

/// The command handler. Total over its domain: every string, empty,
/// whitespace-only or non-ASCII, is accepted and echoed verbatim into
/// the result; no input is rejected and nothing observable is mutated.
pub fn greet(name: String) -> (r: String)
    ensures
        r@ == greeting_of(name@),
{
    let mut r = String::from_str("Hello, ");
    r.append(name.as_str());
    r.append("!");
    r
}

/// Repeated calls agree: the greeting is a function of the name alone,
/// so two results for one name are the same sequence of characters.
pub proof fn lemma_greet_repeatable(name: Seq<char>, r1: Seq<char>, r2: Seq<char>)
    requires
        r1 == greeting_of(name),
        r2 == greeting_of(name),
    ensures
        r1 == r2,
{
}

/// The greeting carries the name verbatim: eight fixed characters
/// surround it, the salutation before and the closing mark after.
pub proof fn lemma_greeting_shape(name: Seq<char>)
    ensures
        greeting_of(name).len() == name.len() + 8,
        greeting_of(name).subrange(7, name.len() + 7 as int) == name,
        greeting_of(name)[name.len() + 7 as int] == '!',
{
    reveal_strlit("Hello, ");
    reveal_strlit("!");
    assert(greeting_of(name).subrange(7, name.len() + 7 as int) =~= name);
}

} // verus!
