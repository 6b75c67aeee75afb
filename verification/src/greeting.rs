use vstd::prelude::*;
use vstd::string::StringExecFns;

verus! {

/// The exact character sequence that greeting a given name produces.
pub open spec fn greeting_of(name: Seq<char>) -> Seq<char> {
    "Hello, "@ + name + "! You've been greeted from Rust!"@
}

/// Format the fixed greeting around a caller-supplied name. Pure and total:
/// it never fails, and the contract pins the result to a function of the
/// name alone.
pub fn greet(name: &str) -> (r: String)
    ensures
        r@ == greeting_of(name@),
{
    let mut r = String::from_str("Hello, ");
    r.append(name);
    r.append("! You've been greeted from Rust!");
    proof {
        assert(r@ =~= greeting_of(name@));
    }
    r
}

/// Every greeting embeds the given name verbatim: the greeting is the name
/// surrounded by a fixed prefix of 7 characters and a fixed suffix, so the
/// characters from position 7 onward, for `name.len()` characters, are
/// exactly the name. Together with `greet`'s contract, which makes the
/// result a function of the name alone, this is the guarantee that greeting
/// is deterministic and never loses the name.
pub proof fn lemma_greeting_contains_name(name: Seq<char>)
    ensures
        greeting_of(name).len() == name.len() + 39,
        greeting_of(name).subrange(7, 7 + name.len() as int) == name,
{
    reveal_strlit("Hello, ");
    reveal_strlit("! You've been greeted from Rust!");
    assert(greeting_of(name).subrange(7, 7 + name.len() as int) =~= name);
}

} // verus!
