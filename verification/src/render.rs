//! The schema document as JSON text: the framing of objects and arrays around
//! the string literals that the JSON encoder writes.

use vstd::prelude::*;
use vstd::string::*;
use crate::json::{is_plain, json_string, quoted, to_json_string};
use crate::schema::{
    document_shape, greeting_route, greeting_shape, schema_route, service_document, who_param,
    DocumentView, FieldView, ParamView, QueryParam, ResponseShape, RouteDescriptor, RouteView,
    SchemaDocument, ShapeField, ShapeView,
};

verus! {

/// The texts of a list of strings, in order.
pub open spec fn texts(items: Vec<String>) -> Seq<Seq<char>> {
    Seq::new(items@.len(), |i: int| items@[i]@)
}

/// The items of a list, separated by commas.
pub open spec fn joined(items: Seq<Seq<char>>) -> Seq<char>
    decreases items.len(),
{
    if items.len() == 0 {
        Seq::empty()
    } else if items.len() == 1 {
        items[0]
    } else {
        joined(items.drop_last()) + ","@ + items.last()
    }
}

/// A JSON array of items that are JSON texts already.
pub open spec fn json_array(items: Seq<Seq<char>>) -> Seq<char> {
    "["@ + joined(items) + "]"@
}

/// The JSON text of a truth value.
pub open spec fn json_bool(value: bool) -> Seq<char> {
    if value {
        "true"@
    } else {
        "false"@
    }
}

/// The numeral of a single decimal digit.
pub open spec fn digit_text(digit: nat) -> Seq<char>
    recommends
        digit < 10,
{
    if digit == 0 {
        "0"@
    } else if digit == 1 {
        "1"@
    } else if digit == 2 {
        "2"@
    } else if digit == 3 {
        "3"@
    } else if digit == 4 {
        "4"@
    } else if digit == 5 {
        "5"@
    } else if digit == 6 {
        "6"@
    } else if digit == 7 {
        "7"@
    } else if digit == 8 {
        "8"@
    } else {
        "9"@
    }
}

/// The decimal numeral of a natural number, without leading zeros.
pub open spec fn decimal(n: nat) -> Seq<char>
    decreases n,
{
    if n < 10 {
        digit_text(n)
    } else {
        decimal(n / 10) + digit_text(n % 10)
    }
}

/// The JSON object of a query parameter around the literals of its strings.
pub open spec fn framed_param(name: Seq<char>, kind: Seq<char>, required: bool) -> Seq<char> {
    "{\"name\":"@ + name + ",\"type\":"@ + kind + ",\"required\":"@ + json_bool(required) + "}"@
}

/// The JSON object of a declared field around the literals of its strings.
pub open spec fn framed_field(name: Seq<char>, kind: Seq<char>) -> Seq<char> {
    "{\"name\":"@ + name + ",\"type\":"@ + kind + "}"@
}

/// The JSON object of a response shape around the literal of its name and the
/// JSON objects of its fields.
pub open spec fn framed_shape(name: Seq<char>, fields: Seq<Seq<char>>) -> Seq<char> {
    "{\"name\":"@ + name + ",\"fields\":"@ + json_array(fields) + "}"@
}

/// The JSON object of a route around the literals of its strings, the JSON
/// objects of its query parameters and the JSON object of its response shape.
pub open spec fn framed_route(
    method: Seq<char>,
    path: Seq<char>,
    params: Seq<Seq<char>>,
    status_code: nat,
    description: Seq<char>,
    response_shape: Seq<char>,
) -> Seq<char> {
    "{\"method\":"@ + method + ",\"path\":"@ + path + ",\"queryParams\":"@ + json_array(params)
        + ",\"statusCode\":"@ + decimal(status_code) + ",\"description\":"@ + description
        + ",\"responseShape\":"@ + response_shape + "}"@
}

/// The JSON object of a document around the literals of its strings and the
/// JSON objects of its routes.
pub open spec fn framed_document(
    title: Seq<char>,
    version: Seq<char>,
    routes: Seq<Seq<char>>,
) -> Seq<char> {
    "{\"title\":"@ + title + ",\"version\":"@ + version + ",\"routes\":"@ + json_array(routes)
        + "}"@
}

/// The way in which the encoder writes a string: as its JSON literal.
pub open spec fn by_encoder() -> spec_fn(Seq<char>) -> Seq<char> {
    |text: Seq<char>| json_string(text)
}

/// The way in which a plain string is written: between two quotes.
pub open spec fn by_quoting() -> spec_fn(Seq<char>) -> Seq<char> {
    |text: Seq<char>| quoted(text)
}

/// The JSON text of a query parameter, its strings written by `write`.
pub open spec fn param_text(write: spec_fn(Seq<char>) -> Seq<char>, param: ParamView) -> Seq<
    char,
> {
    framed_param(write(param.name), write(param.kind), param.required)
}

/// The JSON texts of a list of query parameters, in order.
pub open spec fn params_text(
    write: spec_fn(Seq<char>) -> Seq<char>,
    params: Seq<ParamView>,
) -> Seq<Seq<char>> {
    Seq::new(params.len(), |i: int| param_text(write, params[i]))
}

/// The JSON text of a declared field, its strings written by `write`.
pub open spec fn field_text(write: spec_fn(Seq<char>) -> Seq<char>, field: FieldView) -> Seq<
    char,
> {
    framed_field(write(field.name), write(field.kind))
}

/// The JSON texts of a list of declared fields, in order.
pub open spec fn fields_text(
    write: spec_fn(Seq<char>) -> Seq<char>,
    fields: Seq<FieldView>,
) -> Seq<Seq<char>> {
    Seq::new(fields.len(), |i: int| field_text(write, fields[i]))
}

/// The JSON text of a response shape, its strings written by `write`.
pub open spec fn shape_text(write: spec_fn(Seq<char>) -> Seq<char>, shape: ShapeView) -> Seq<
    char,
> {
    framed_shape(write(shape.name), fields_text(write, shape.fields))
}

/// The JSON text of a route, its strings written by `write`.
pub open spec fn route_text(write: spec_fn(Seq<char>) -> Seq<char>, route: RouteView) -> Seq<
    char,
> {
    framed_route(
        write(route.method),
        write(route.path),
        params_text(write, route.query_params),
        route.status_code as nat,
        write(route.description),
        shape_text(write, route.response_shape),
    )
}

/// The JSON texts of a list of routes, in order.
pub open spec fn routes_text(
    write: spec_fn(Seq<char>) -> Seq<char>,
    routes: Seq<RouteView>,
) -> Seq<Seq<char>> {
    Seq::new(routes.len(), |i: int| route_text(write, routes[i]))
}

/// The JSON text of a document, its strings written by `write`: its title,
/// its version and its routes in the order of their registration.
pub open spec fn document_text(
    write: spec_fn(Seq<char>) -> Seq<char>,
    document: DocumentView,
) -> Seq<char> {
    framed_document(
        write(document.title),
        write(document.version),
        routes_text(write, document.routes),
    )
}

/// The JSON text of a document as the encoder writes its strings.
pub open spec fn document_json(document: DocumentView) -> Seq<char> {
    document_text(by_encoder(), document)
}

/// Whether no string of a query parameter needs an escape.
pub open spec fn param_is_plain(param: ParamView) -> bool {
    is_plain(param.name) && is_plain(param.kind)
}

/// Whether no string of a declared field needs an escape.
pub open spec fn field_is_plain(field: FieldView) -> bool {
    is_plain(field.name) && is_plain(field.kind)
}

/// Whether no string of a response shape needs an escape.
pub open spec fn shape_is_plain(shape: ShapeView) -> bool {
    &&& is_plain(shape.name)
    &&& forall|i: int| 0 <= i < shape.fields.len() ==> field_is_plain(#[trigger] shape.fields[i])
}

/// Whether no string of a route needs an escape.
pub open spec fn route_is_plain(route: RouteView) -> bool {
    &&& is_plain(route.method)
    &&& is_plain(route.path)
    &&& is_plain(route.description)
    &&& shape_is_plain(route.response_shape)
    &&& forall|i: int|
        0 <= i < route.query_params.len() ==> param_is_plain(#[trigger] route.query_params[i])
}

/// Whether no string of a document needs an escape.
pub open spec fn document_is_plain(document: DocumentView) -> bool {
    &&& is_plain(document.title)
    &&& is_plain(document.version)
    &&& forall|i: int|
        0 <= i < document.routes.len() ==> route_is_plain(#[trigger] document.routes[i])
}

fn digit_str(digit: u16) -> (text: &'static str)
    requires
        digit < 10,
    ensures
        text@ == digit_text(digit as nat),
{
    if digit == 0 {
        "0"
    } else if digit == 1 {
        "1"
    } else if digit == 2 {
        "2"
    } else if digit == 3 {
        "3"
    } else if digit == 4 {
        "4"
    } else if digit == 5 {
        "5"
    } else if digit == 6 {
        "6"
    } else if digit == 7 {
        "7"
    } else if digit == 8 {
        "8"
    } else {
        "9"
    }
}

/// Writes a number in decimal.
pub fn render_decimal(n: u16) -> (text: String)
    ensures
        text@ == decimal(n as nat),
    decreases n,
{
    if n < 10 {
        digit_str(n).to_owned()
    } else {
        let mut text = render_decimal(n / 10);
        text.append(digit_str(n % 10));
        text
    }
}

/// Writes a JSON array around items that are JSON texts already.
pub fn frame_array(items: &Vec<String>) -> (text: String)
    ensures
        text@ == json_array(texts(*items)),
{
    let ghost all = texts(*items);
    let mut inner = String::new();
    let mut i: usize = 0;
    assert(all.subrange(0, 0) =~= Seq::empty());
    while i < items.len()
        invariant
            i <= items.len(),
            all == texts(*items),
            inner@ == joined(all.subrange(0, i as int)),
        decreases items.len() - i,
    {
        proof {
            let before = all.subrange(0, i as int);
            let after = all.subrange(0, i + 1);
            assert(after.drop_last() =~= before);
            assert(after.last() == items@[i as int]@);
            if i == 0 {
                assert(Seq::<char>::empty() + items@[0]@ =~= items@[0]@);
            }
        }
        if i > 0 {
            inner.append(",");
        }
        inner.append(items[i].as_str());
        i = i + 1;
    }
    assert(all.subrange(0, i as int) =~= all);
    let mut text = "[".to_owned();
    text.append(inner.as_str());
    text.append("]");
    text
}

/// Writes the JSON object of a query parameter around the literals of its
/// name and its type.
pub fn frame_param(name: &str, kind: &str, required: bool) -> (text: String)
    ensures
        text@ == framed_param(name@, kind@, required),
{
    let mut text = "{\"name\":".to_owned();
    text.append(name);
    text.append(",\"type\":");
    text.append(kind);
    text.append(",\"required\":");
    if required {
        text.append("true");
    } else {
        text.append("false");
    }
    text.append("}");
    text
}

/// Writes the JSON object of a declared field around the literals of its
/// name and its type.
pub fn frame_field(name: &str, kind: &str) -> (text: String)
    ensures
        text@ == framed_field(name@, kind@),
{
    let mut text = "{\"name\":".to_owned();
    text.append(name);
    text.append(",\"type\":");
    text.append(kind);
    text.append("}");
    text
}

/// Writes the JSON object of a response shape around the literal of its name
/// and the JSON objects of its fields.
pub fn frame_shape(name: &str, fields: &Vec<String>) -> (text: String)
    ensures
        text@ == framed_shape(name@, texts(*fields)),
{
    let mut text = "{\"name\":".to_owned();
    text.append(name);
    text.append(",\"fields\":");
    text.append(frame_array(fields).as_str());
    text.append("}");
    text
}

/// Writes the JSON object of a route around the literals of its strings, the
/// JSON objects of its query parameters and the JSON object of its response
/// shape.
pub fn frame_route(
    method: &str,
    path: &str,
    params: &Vec<String>,
    status_code: u16,
    description: &str,
    response_shape: &str,
) -> (text: String)
    ensures
        text@ == framed_route(
            method@,
            path@,
            texts(*params),
            status_code as nat,
            description@,
            response_shape@,
        ),
{
    let mut text = "{\"method\":".to_owned();
    text.append(method);
    text.append(",\"path\":");
    text.append(path);
    text.append(",\"queryParams\":");
    text.append(frame_array(params).as_str());
    text.append(",\"statusCode\":");
    text.append(render_decimal(status_code).as_str());
    text.append(",\"description\":");
    text.append(description);
    text.append(",\"responseShape\":");
    text.append(response_shape);
    text.append("}");
    text
}

/// Writes the JSON object of a document around the literals of its strings
/// and the JSON objects of its routes.
pub fn frame_document(title: &str, version: &str, routes: &Vec<String>) -> (text: String)
    ensures
        text@ == framed_document(title@, version@, texts(*routes)),
{
    let mut text = "{\"title\":".to_owned();
    text.append(title);
    text.append(",\"version\":");
    text.append(version);
    text.append(",\"routes\":");
    text.append(frame_array(routes).as_str());
    text.append("}");
    text
}

/// Writes a query parameter as JSON.
pub fn render_param(param: &QueryParam) -> (text: String)
    ensures
        text@ == param_text(by_encoder(), param@),
        param_is_plain(param@) ==> text@ == param_text(by_quoting(), param@),
{
    let name = to_json_string(param.name.as_str());
    let kind = to_json_string(param.kind.as_str());
    frame_param(name.as_str(), kind.as_str(), param.required)
}

/// Writes a declared field as JSON.
pub fn render_field(field: &ShapeField) -> (text: String)
    ensures
        text@ == field_text(by_encoder(), field@),
        field_is_plain(field@) ==> text@ == field_text(by_quoting(), field@),
{
    let name = to_json_string(field.name.as_str());
    let kind = to_json_string(field.kind.as_str());
    frame_field(name.as_str(), kind.as_str())
}

/// Writes a response shape as JSON, its fields in their order.
pub fn render_shape(shape: &ResponseShape) -> (text: String)
    ensures
        text@ == shape_text(by_encoder(), shape@),
        shape_is_plain(shape@) ==> text@ == shape_text(by_quoting(), shape@),
{
    let name = to_json_string(shape.name.as_str());
    let mut fields: Vec<String> = Vec::new();
    let mut i: usize = 0;
    while i < shape.fields.len()
        invariant
            i <= shape.fields.len(),
            fields@.len() == i,
            forall|k: int|
                0 <= k < i ==> (#[trigger] fields@[k])@ == field_text(
                    by_encoder(),
                    shape@.fields[k],
                ),
            forall|k: int|
                0 <= k < i && field_is_plain(shape@.fields[k]) ==> (#[trigger] fields@[k])@
                    == field_text(by_quoting(), shape@.fields[k]),
        decreases shape.fields.len() - i,
    {
        fields.push(render_field(&shape.fields[i]));
        i = i + 1;
    }
    proof {
        assert(texts(fields) =~= fields_text(by_encoder(), shape@.fields));
        if shape_is_plain(shape@) {
            assert(texts(fields) =~= fields_text(by_quoting(), shape@.fields));
        }
    }
    frame_shape(name.as_str(), &fields)
}

/// Writes a route as JSON.
pub fn render_route(route: &RouteDescriptor) -> (text: String)
    ensures
        text@ == route_text(by_encoder(), route@),
        route_is_plain(route@) ==> text@ == route_text(by_quoting(), route@),
{
    let method = to_json_string(route.method.as_str());
    let path = to_json_string(route.path.as_str());
    let description = to_json_string(route.description.as_str());
    let response_shape = render_shape(&route.response_shape);
    let mut params: Vec<String> = Vec::new();
    let mut i: usize = 0;
    while i < route.query_params.len()
        invariant
            i <= route.query_params.len(),
            params@.len() == i,
            forall|k: int|
                0 <= k < i ==> (#[trigger] params@[k])@ == param_text(
                    by_encoder(),
                    route@.query_params[k],
                ),
            forall|k: int|
                0 <= k < i && param_is_plain(route@.query_params[k]) ==> (#[trigger] params@[k])@
                    == param_text(by_quoting(), route@.query_params[k]),
        decreases route.query_params.len() - i,
    {
        params.push(render_param(&route.query_params[i]));
        i = i + 1;
    }
    proof {
        assert(texts(params) =~= params_text(by_encoder(), route@.query_params));
        if route_is_plain(route@) {
            assert(texts(params) =~= params_text(by_quoting(), route@.query_params));
        }
    }
    frame_route(
        method.as_str(),
        path.as_str(),
        &params,
        route.status_code,
        description.as_str(),
        response_shape.as_str(),
    )
}

/// Writes a document as JSON, its routes in the order of their registration.
pub fn render_document(document: &SchemaDocument) -> (text: String)
    ensures
        text@ == document_json(document@),
        document_is_plain(document@) ==> text@ == document_text(by_quoting(), document@),
{
    let title = to_json_string(document.title.as_str());
    let version = to_json_string(document.version.as_str());
    let mut routes: Vec<String> = Vec::new();
    let mut i: usize = 0;
    while i < document.routes.len()
        invariant
            i <= document.routes.len(),
            routes@.len() == i,
            forall|k: int|
                0 <= k < i ==> (#[trigger] routes@[k])@ == route_text(
                    by_encoder(),
                    document@.routes[k],
                ),
            forall|k: int|
                0 <= k < i && route_is_plain(document@.routes[k]) ==> (#[trigger] routes@[k])@
                    == route_text(by_quoting(), document@.routes[k]),
        decreases document.routes.len() - i,
    {
        routes.push(render_route(&document.routes[i]));
        i = i + 1;
    }
    proof {
        assert(texts(routes) =~= routes_text(by_encoder(), document@.routes));
        if document_is_plain(document@) {
            assert(texts(routes) =~= routes_text(by_quoting(), document@.routes));
        }
    }
    frame_document(title.as_str(), version.as_str(), &routes)
}

/// No string of this service's own document needs an escape: its JSON text
/// holds each of them between two quotes.
pub proof fn service_document_is_plain()
    ensures
        document_is_plain(service_document()),
{
    reveal_strlit("my-rust-webserver");
    reveal_strlit("1.0.0");
    reveal_strlit("GET");
    reveal_strlit("/");
    reveal_strlit("/doc");
    reveal_strlit("say");
    reveal_strlit("doc");
    reveal_strlit("who");
    reveal_strlit("string");
    reveal_strlit("array");
    reveal_strlit("title");
    reveal_strlit("version");
    reveal_strlit("routes");
    reveal_strlit("GreetingResponse");
    reveal_strlit("SchemaDocument");
    assert(is_plain("my-rust-webserver"@));
    assert(is_plain("1.0.0"@));
    assert(is_plain("GET"@));
    assert(is_plain("/"@));
    assert(is_plain("/doc"@));
    assert(is_plain("say"@));
    assert(is_plain("doc"@));
    assert(is_plain("who"@));
    assert(is_plain("string"@));
    assert(is_plain("array"@));
    assert(is_plain("title"@));
    assert(is_plain("version"@));
    assert(is_plain("routes"@));
    assert(is_plain("GreetingResponse"@));
    assert(is_plain("SchemaDocument"@));
    assert(param_is_plain(who_param()));
    assert(shape_is_plain(greeting_shape()));
    assert(shape_is_plain(document_shape()));
    assert(route_is_plain(greeting_route()));
    assert(route_is_plain(schema_route()));
}

} // verus!
