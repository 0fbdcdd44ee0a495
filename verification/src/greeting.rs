//! The greeting itself: the fixed salutation and the text built around a name.

use vstd::prelude::*;
use vstd::string::StringExecFns;

verus! {

/// The salutation that opens every greeting.
pub const GREETING: &'static str = "Hello";

/// The characters of the greeting for `name`: the salutation, a comma and a
/// space, the name as given, and an exclamation mark.
pub open spec fn greeting_text(name: Seq<char>) -> Seq<char> {
    GREETING@ + ", "@ + name + "!"@
}

/// Greets `name`. Any string is accepted, the empty one included, and the
/// name is taken as it is, with no trimming or validation.
pub fn greet(name: &str) -> (greeting: String)
    ensures
        greeting@ == greeting_text(name@),
        greeting@ == "Hello, "@ + name@ + "!"@,
{
    let mut text = String::from_str(GREETING);
    text.append(", ");
    text.append(name);
    text.append("!");
    proof {
        lemma_greeting_text_literal(name@);
    }
    text
}

/// The greeting for any name is the literal text `Hello, ` followed by the
/// name and `!`.
pub proof fn lemma_greeting_text_literal(name: Seq<char>)
    ensures
        greeting_text(name) == "Hello, "@ + name + "!"@,
{
    reveal_strlit("Hello");
    reveal_strlit(", ");
    reveal_strlit("Hello, ");
    assert(GREETING@ + ", "@ =~= "Hello, "@);
}

/// Greeting is a function of the name alone: two calls of `greet` on names
/// with the same characters return the same text, however many calls were
/// made before or between them.
pub proof fn lemma_greeting_repeatable(name: &str, again: &str, first: String, second: String)
    requires
        name@ == again@,
        first@ == greeting_text(name@),
        second@ == greeting_text(again@),
    ensures
        first@ == second@,
{
}

} // verus!
