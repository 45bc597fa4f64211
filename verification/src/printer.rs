//! The greeter: maps a name to its greeting.

use vstd::prelude::*;
use vstd::string::*;

verus! {

/// The greeting owed to `who`: `Hi!` for the empty name, and otherwise `Hi `,
/// the name and `!`, with one space before the name and none after it.
pub open spec fn greeting(who: Seq<char>) -> Seq<char> {
    if who.len() == 0 {
        seq!['H', 'i', '!']
    } else {
        seq!['H', 'i', ' '] + who + seq!['!']
    }
}

/// The greeting owed to a name that may be absent: an absent name is greeted
/// as the empty name is.
pub open spec fn greeting_of(who: Option<Seq<char>>) -> Seq<char> {
    match who {
        Some(name) => greeting(name),
        None => greeting(Seq::empty()),
    }
}

/// An optional name by its characters.
pub open spec fn name_view(who: Option<String>) -> Option<Seq<char>> {
    match who {
        Some(name) => Some(name@),
        None => None,
    }
}

/// The greeter. It holds no state: every greeting depends on the name alone.
pub struct Printer {}

impl Printer {
    /// Greets `who`.
    pub fn say(self: &Self, who: String) -> (said: String)
        ensures
            said@ == greeting(who@),
    {
        if who.as_str().is_empty() {
            proof {
                reveal_strlit("Hi!");
                assert("Hi!"@ =~= seq!['H', 'i', '!']);
            }
            "Hi!".to_owned()
        } else {
            let mut said = "Hi ".to_owned();
            said.append(who.as_str());
            said.append("!");
            proof {
                reveal_strlit("Hi ");
                reveal_strlit("!");
                assert("Hi "@ =~= seq!['H', 'i', ' ']);
                assert("!"@ =~= seq!['!']);
            }
            said
        }
    }

    /// Greets a name that may be absent.
    pub fn say_optional(self: &Self, who: Option<String>) -> (said: String)
        ensures
            said@ == greeting_of(name_view(who)),
    {
        match who {
            Some(name) => self.say(name),
            None => self.say(String::new()),
        }
    }
}

/// Every non-empty name is greeted with `Hi `, the name and `!`.
pub proof fn greeting_of_named(who: Seq<char>)
    requires
        who.len() > 0,
    ensures
        greeting(who) == seq!['H', 'i', ' '] + who + seq!['!'],
        greeting(who).len() == who.len() + 4,
        greeting(who).subrange(3, 3 + who.len() as int) == who,
{
    assert(greeting(who).subrange(3, 3 + who.len() as int) =~= who);
}

/// The absent name and the empty name are greeted alike, with `Hi!`.
pub proof fn greeting_of_nobody()
    ensures
        greeting_of(None) == greeting_of(Some(Seq::empty())),
        greeting_of(None) == seq!['H', 'i', '!'],
{
}

} // verus!
