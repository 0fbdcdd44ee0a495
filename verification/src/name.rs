//! Greeting a name that arrives either borrowed or owned.

use either::Either;
use vstd::prelude::*;

use crate::greeting::greet;
use crate::greeting::greeting_text;

verus! {

/// `either::Either`, the sum type with two cases, declared with its variants
/// so that verified code can match on it: `Left` holds one value of the
/// first parameter's type, `Right` one value of the second's, and a value is
/// always exactly one of the two.
#[verifier::external_type_specification]
#[verifier::reject_recursive_types(L)]
#[verifier::reject_recursive_types(R)]
pub struct ExEither<L, R>(either::Either<L, R>);

/// The characters of the name that `name` carries, whichever side holds it.
pub open spec fn name_text(name: Either<&str, String>) -> Seq<char> {
    match name {
        Either::Left(borrowed) => borrowed@,
        Either::Right(owned) => owned@,
    }
}

/// Greets a name given as a borrowed string (`Left`) or as an owned one
/// (`Right`). The two sides are treated alike: the result is what `greet`
/// returns for the same characters.
pub fn greet_either(name: Either<&str, String>) -> (greeting: String)
    ensures
        greeting@ == greeting_text(name_text(name)),
        greeting@ == "Hello, "@ + name_text(name) + "!"@,
{
    match name {
        Either::Left(borrowed) => greet(borrowed),
        Either::Right(owned) => greet(owned.as_str()),
    }
}

/// A name is greeted as `greet` greets its characters, on whichever side it
/// stands: a borrowed name and an owned name with the same characters get
/// the same greeting.
pub proof fn lemma_sides_greeted_alike(borrowed: &str, owned: String)
    requires
        borrowed@ == owned@,
    ensures
        greeting_text(name_text(Either::Left(borrowed))) == greeting_text(borrowed@),
        greeting_text(name_text(Either::Right(owned))) == greeting_text(borrowed@),
{
}

} // verus!
