//! The greeting formatter: a pure bridge operation that embeds a caller-supplied
//! name in a fixed salutation.

use vstd::prelude::*;

verus! {

/// The greeting built for `name`: a fixed salutation, the name itself, then a
/// fixed closing phrase.
pub open spec fn greet_spec(name: Seq<char>) -> Seq<char> {
    "Hello, "@ + name + "! You've been greeted from Rust!"@
}

/// Formats the greeting for `name`. Pure: the result is a function of `name`
/// alone, with no side effects and no failure path.
pub fn greet(name: &str) -> (r: String)
    ensures
        r@ == greet_spec(name@),
{
    let mut r = String::from_str("Hello, ");
    r.append(name);
    r.append("! You've been greeted from Rust!");
    proof {
        assert(r@ =~= greet_spec(name@));
    }
    r
}

/// The greeting always contains the name it was built from, as a contiguous
/// substring.
pub proof fn lemma_greet_contains_name(name: Seq<char>)
    ensures
        exists|i: int|
            0 <= i && i + name.len() <= greet_spec(name).len()
                && #[trigger] greet_spec(name).subrange(i, i + name.len() as int) == name,
{
    let i = "Hello, "@.len() as int;
    assert(greet_spec(name).subrange(i, i + name.len() as int) =~= name);
}

/// The greeting is deterministic: any two results that `greet` may return for
/// the same name are the same string.
pub proof fn lemma_greet_deterministic(name: &str, r1: String, r2: String)
    requires
        call_ensures(greet, (name,), r1),
        call_ensures(greet, (name,), r2),
    ensures
        r1@ == r2@,
{
}

} // verus!
