//! The query of a greeting request: from the raw query string to the name to
//! greet.

use vstd::prelude::*;
use vstd::string::*;
use crate::printer::name_view;

verus! {

/// The error of actix-web's query parser, carried through as an opaque value.
#[verifier::external_type_specification]
#[verifier::external_body]
pub struct ExQueryPayloadError(actix_web::error::QueryPayloadError);

/// The key and value pairs, in the order in which they stand in the
/// url-encoded query string `query`, as actix-web's query parser decodes them;
/// `None` where the parser rejects the string.
pub uninterp spec fn query_pairs(query: Seq<char>) -> Option<Seq<(Seq<char>, Seq<char>)>>;

/// The key and value pairs of a parsed query, each string by its characters.
pub open spec fn pairs_view(pairs: Vec<(String, String)>) -> Seq<(Seq<char>, Seq<char>)> {
    Seq::new(pairs@.len(), |i: int| (pairs@[i].0@, pairs@[i].1@))
}

/// The view of a parser's outcome: the pairs it produced, if any.
pub open spec fn parsed_view(parsed: Option<Vec<(String, String)>>) -> Option<
    Seq<(Seq<char>, Seq<char>)>,
> {
    match parsed {
        Some(pairs) => Some(pairs_view(pairs)),
        None => None,
    }
}

/// Calls `actix_web::web::Query::from_query` for a list of string pairs.
/// Trusted: the outcome depends on the characters of `query` alone; the pairs
/// of a success, and whether the parser rejected the string, are what
/// `query_pairs` names.
#[verifier::external_body]
pub(crate) fn parse_query(query: &str) -> (parsed: Result<
    Vec<(String, String)>,
    actix_web::error::QueryPayloadError,
>)
    ensures
        match parsed {
            Ok(pairs) => query_pairs(query@) == Some(pairs_view(pairs)),
            Err(_) => query_pairs(query@) is None,
        },
{
    match actix_web::web::Query::<Vec<(String, String)>>::from_query(query) {
        Ok(pairs) => Ok(pairs.into_inner()),
        Err(rejected) => Err(rejected),
    }
}

/// The key under which a request names whom to greet.
pub open spec fn who_key() -> Seq<char> {
    seq!['w', 'h', 'o']
}

/// Whether a pair of a query carries the name to greet.
pub open spec fn names_who(pair: (Seq<char>, Seq<char>)) -> bool {
    pair.0 == who_key()
}

/// The pairs of a query that carry the name to greet, in their order.
pub open spec fn who_pairs(pairs: Seq<(Seq<char>, Seq<char>)>) -> Seq<(Seq<char>, Seq<char>)> {
    pairs.filter(|pair: (Seq<char>, Seq<char>)| names_who(pair))
}

/// The name that a list of query pairs asks to greet: the value of the pair
/// keyed `who` where exactly one pair has that key. A query without the key,
/// or with the key more than once, names nobody.
pub open spec fn who_in(pairs: Seq<(Seq<char>, Seq<char>)>) -> Option<Seq<char>> {
    if who_pairs(pairs).len() == 1 {
        Some(who_pairs(pairs)[0].1)
    } else {
        None
    }
}

/// The name that a parser's outcome asks to greet: a rejected query names
/// nobody.
pub open spec fn who_of(parsed: Option<Seq<(Seq<char>, Seq<char>)>>) -> Option<Seq<char>> {
    match parsed {
        Some(pairs) => who_in(pairs),
        None => None,
    }
}

/// The query of a greeting request.
pub struct GreetingQuery {
    pub who: Option<String>,
}

impl GreetingQuery {
    /// The name asked for, by its characters.
    pub open spec fn view(&self) -> Option<Seq<char>> {
        name_view(self.who)
    }

    /// Picks the name to greet out of what the query parser produced.
    pub fn from_parsed(parsed: Option<Vec<(String, String)>>) -> (query: GreetingQuery)
        ensures
            query@ == who_of(parsed_view(parsed)),
    {
        match parsed {
            None => GreetingQuery { who: None },
            Some(pairs) => {
                let key = "who".to_owned();
                proof {
                    reveal_strlit("who");
                    assert(key@ =~= who_key());
                }
                let ghost all = pairs_view(pairs);
                let mut seen: usize = 0;
                let mut first: Option<String> = None;
                let mut i: usize = 0;
                proof {
                    reveal(Seq::filter);
                    assert(all.subrange(0, 0) =~= Seq::empty());
                }
                while i < pairs.len()
                    invariant
                        i <= pairs.len(),
                        all == pairs_view(pairs),
                        key@ == who_key(),
                        seen == who_pairs(all.subrange(0, i as int)).len(),
                        seen <= i,
                        seen == 0 ==> first is None,
                        seen >= 1 ==> first is Some && first->0@ == who_pairs(
                            all.subrange(0, i as int),
                        )[0].1,
                    decreases pairs.len() - i,
                {
                    proof {
                        let before = all.subrange(0, i as int);
                        let after = all.subrange(0, i + 1);
                        reveal(Seq::filter);
                        assert(after.drop_last() =~= before);
                        assert(after.last() == all[i as int]);
                        assert(all[i as int] == (pairs@[i as int].0@, pairs@[i as int].1@));
                    }
                    if pairs[i].0 == key {
                        if seen == 0 {
                            first = Some(pairs[i].1.clone());
                        }
                        seen = seen + 1;
                    }
                    i = i + 1;
                }
                proof {
                    assert(all.subrange(0, i as int) =~= all);
                }
                if seen == 1 {
                    GreetingQuery { who: first }
                } else {
                    GreetingQuery { who: None }
                }
            },
        }
    }

    /// The same query with `name` in the place of an absent name: the policy
    /// of a service that greets somebody by default.
    pub fn or_default(self, name: String) -> (query: GreetingQuery)
        ensures
            query@ == Some(
                match self@ {
                    Some(asked) => asked,
                    None => name@,
                },
            ),
    {
        match self.who {
            Some(asked) => GreetingQuery { who: Some(asked) },
            None => GreetingQuery { who: Some(name) },
        }
    }

    /// Reads the query of a greeting request from its raw, url-encoded query
    /// string. A string that the parser rejects asks for nobody.
    pub fn from_query_string(query: &str) -> (parsed: GreetingQuery)
        ensures
            parsed@ == who_of(query_pairs(query@)),
    {
        match parse_query(query) {
            Ok(pairs) => GreetingQuery::from_parsed(Some(pairs)),
            Err(_) => GreetingQuery::from_parsed(None),
        }
    }
}

} // verus!
