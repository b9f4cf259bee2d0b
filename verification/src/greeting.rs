//! The greeting echo, used by the front-end as a connectivity smoke test.

use vstd::prelude::*;
use vstd::string::StringExecFns;

verus! {

/// The text that precedes the caller's name in a greeting.
pub open spec fn greeting_prefix() -> Seq<char> {
    "Hello, "@
}

/// The text that follows the caller's name in a greeting.
pub open spec fn greeting_suffix() -> Seq<char> {
    "! You've been greeted from Rust!"@
}

/// The greeting for `name`: the fixed template with `name` interpolated
/// verbatim, without escaping.
pub open spec fn greeting_text(name: Seq<char>) -> Seq<char> {
    greeting_prefix() + name + greeting_suffix()
}

/// Greets `name`. Accepts any string, including the empty one, and never fails.
pub fn greet(name: &str) -> (reply: String)
    ensures
        reply@ == greeting_text(name@),
{
    let mut reply = String::from_str("Hello, ");
    reply.append(name);
    reply.append("! You've been greeted from Rust!");
    reply
}

/// Whether `part` stands in `whole` at offset `at`, character for character.
pub open spec fn occurs_at(whole: Seq<char>, part: Seq<char>, at: int) -> bool {
    &&& 0 <= at
    &&& at + part.len() <= whole.len()
    &&& whole.subrange(at, at + part.len() as int) == part
}

/// The greeting for any name, the empty one and those outside ASCII included,
/// holds the name verbatim: it stands right behind the seven characters of the
/// prefix, and the template adds thirty-nine characters in all.
pub proof fn lemma_greeting_contains_name(name: Seq<char>)
    ensures
        occurs_at(greeting_text(name), name, 7),
        greeting_text(name).len() == name.len() + 39,
{
    reveal_strlit("Hello, ");
    reveal_strlit("! You've been greeted from Rust!");
    assert(greeting_text(name).subrange(7, 7 + name.len() as int) =~= name);
}

/// Different names are given different greetings.
pub proof fn lemma_greeting_tells_names_apart(first: Seq<char>, second: Seq<char>)
    requires
        greeting_text(first) == greeting_text(second),
    ensures
        first == second,
{
    lemma_greeting_contains_name(first);
    lemma_greeting_contains_name(second);
}

} // verus!
