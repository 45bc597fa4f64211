//! The handlers: the greeting handler, from the query of a request to the
//! reply that carries the greeting as JSON, and the schema handler, which
//! replies with the registry's document as JSON.

use vstd::prelude::*;
use vstd::string::*;
use crate::json::{is_plain, json_string, quoted, to_json_string};
use crate::printer::{greeting, greeting_of, Printer};
use crate::query::{query_pairs, who_of, GreetingQuery};
use crate::render::{by_quoting, document_is_plain, document_json, document_text, render_document};
use crate::schema::SchemaRegistry;

verus! {

/// What the greeting handler answers.
pub struct GreetingResponse {
    pub say: String,
}

/// A reply to hand to the HTTP server: a status code and a body.
pub struct HttpReply {
    pub status: u16,
    pub body: String,
}

/// The body of a greeting reply around the JSON literal of the greeting: an
/// object with the one key `say`.
pub open spec fn greeting_body(literal: Seq<char>) -> Seq<char> {
    seq!['{', '"', 's', 'a', 'y', '"', ':'] + literal + seq!['}']
}

impl GreetingResponse {
    /// Frames the JSON literal of a greeting as a reply: status 200 and the
    /// literal under the key `say`.
    pub fn frame(literal: &str) -> (reply: HttpReply)
        ensures
            reply.status == 200,
            reply.body@ == greeting_body(literal@),
    {
        let mut body = "{\"say\":".to_owned();
        body.append(literal);
        body.append("}");
        proof {
            reveal_strlit("{\"say\":");
            reveal_strlit("}");
            assert("{\"say\":"@ =~= seq!['{', '"', 's', 'a', 'y', '"', ':']);
            assert("}"@ =~= seq!['}']);
        }
        HttpReply { status: 200, body }
    }

    /// Serializes the response and frames it as a reply.
    pub fn to_reply(&self) -> (reply: HttpReply)
        ensures
            reply.status == 200,
            reply.body@ == greeting_body(json_string(self.say@)),
            is_plain(self.say@) ==> reply.body@ == greeting_body(quoted(self.say@)),
    {
        GreetingResponse::frame(to_json_string(self.say.as_str()).as_str())
    }
}

/// The framing loses nothing: the literal stands in the body behind the key,
/// so two bodies are equal only where their literals are.
pub proof fn greeting_body_keeps_literal(first: Seq<char>, second: Seq<char>)
    ensures
        greeting_body(first).len() == first.len() + 8,
        greeting_body(first).subrange(7, 7 + first.len() as int) == first,
        greeting_body(first) == greeting_body(second) ==> first == second,
{
    assert(greeting_body(first).subrange(7, 7 + first.len() as int) =~= first);
    assert(greeting_body(second).subrange(7, 7 + second.len() as int) =~= second);
}

/// The greeting of a name that needs no escape needs none either, so its
/// body is the greeting between quotes under the key `say`.
pub proof fn greeting_of_plain_is_plain(who: Seq<char>)
    requires
        is_plain(who),
    ensures
        is_plain(greeting(who)),
        is_plain(greeting_of(Some(who))),
        is_plain(greeting_of(None)),
{
    let hi = seq!['H', 'i', ' '];
    let bang = seq!['!'];
    assert forall|i: int| 0 <= i < greeting(who).len() implies !crate::json::needs_escape(
        #[trigger] greeting(who)[i],
    ) by {
        if who.len() > 0 {
            if i < 3 {
                assert(greeting(who)[i] == hi[i]);
            } else if i < 3 + who.len() {
                assert(greeting(who)[i] == who[i - 3]);
            } else {
                assert(greeting(who)[i] == bang[i - 3 - who.len()]);
            }
        }
    }
    assert(Seq::<char>::empty().len() == 0);
}

/// Computes the response to a greeting query.
pub fn respond(query: GreetingQuery, printer: &Printer) -> (response: GreetingResponse)
    ensures
        response.say@ == greeting_of(query@),
{
    GreetingResponse { say: printer.say_optional(query.who) }
}

/// Handles a greeting request whose query is already parsed: greets whom the
/// query names and replies with the greeting as JSON.
pub fn index(query: GreetingQuery, printer: &Printer) -> (reply: HttpReply)
    ensures
        reply.status == 200,
        reply.body@ == greeting_body(json_string(greeting_of(query@))),
        is_plain(greeting_of(query@)) ==> reply.body@ == greeting_body(
            quoted(greeting_of(query@)),
        ),
{
    respond(query, printer).to_reply()
}

/// Handles a greeting request from its raw query string. A query that does not
/// parse, or that does not name exactly one `who`, is greeted as nobody.
pub fn index_from_query_string(query: &str, printer: &Printer) -> (reply: HttpReply)
    ensures
        reply.status == 200,
        reply.body@ == greeting_body(json_string(greeting_of(who_of(query_pairs(query@))))),
        is_plain(greeting_of(who_of(query_pairs(query@)))) ==> reply.body@ == greeting_body(
            quoted(greeting_of(who_of(query_pairs(query@)))),
        ),
{
    index(GreetingQuery::from_query_string(query), printer)
}

/// Handles a request for the schema: replies with status 200 and the
/// registry's document as JSON. The registry is only read.
pub fn doc(registry: &SchemaRegistry) -> (reply: HttpReply)
    ensures
        reply.status == 200,
        reply.body@ == document_json(registry@),
        document_is_plain(registry@) ==> reply.body@ == document_text(by_quoting(), registry@),
{
    HttpReply { status: 200, body: render_document(registry.describe()) }
}

} // verus!
