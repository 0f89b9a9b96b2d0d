//! The greeting command.

use vstd::prelude::*;
use vstd::string::*;

verus! {

/// The text of the greeting for `name`: the name between a fixed opening and
/// a fixed close.
pub open spec fn greeting_text(name: Seq<char>) -> Seq<char> {
    "Hello, "@ + name + "! You've been greeted from Rust!"@
}

/// `part` stands in `text` at position `at`, character for character.
pub open spec fn occurs_at(text: Seq<char>, part: Seq<char>, at: int) -> bool {
    &&& 0 <= at
    &&& at + part.len() <= text.len()
    &&& text.subrange(at, at + part.len()) == part
}

/// `part` stands somewhere in `text` as one unbroken run of characters.
pub open spec fn contains(text: Seq<char>, part: Seq<char>) -> bool {
    exists|at: int| occurs_at(text, part, at)
}

/// Every greeting holds the name it was made for, unchanged, right behind
/// the opening.
pub proof fn lemma_greeting_contains_name(name: Seq<char>)
    ensures
        occurs_at(greeting_text(name), name, 7),
        contains(greeting_text(name), name),
{
    reveal_strlit("Hello, ");
    assert(greeting_text(name).subrange(7, 7 + name.len() as int) =~= name);
}

/// Greets `name`.
pub fn greet(name: &str) -> (greeting: String)
    ensures
        greeting@ == greeting_text(name@),
        contains(greeting@, name@),
{
    let mut greeting = String::from_str("Hello, ");
    greeting.append(name);
    greeting.append("! You've been greeted from Rust!");
    proof {
        lemma_greeting_contains_name(name@);
    }
    greeting
}

} // verus!
