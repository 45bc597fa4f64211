//! The schema registry: the description of the service's routes, registered
//! once and read thereafter.

use vstd::prelude::*;
use vstd::string::*;
use crate::handler::GreetingResponse;
use crate::query::GreetingQuery;

verus! {

/// One query parameter that a route accepts.
pub struct QueryParam {
    pub name: String,
    pub kind: String,
    pub required: bool,
}

/// A query parameter as plain values.
pub struct ParamView {
    pub name: Seq<char>,
    pub kind: Seq<char>,
    pub required: bool,
}

impl View for QueryParam {
    type V = ParamView;

    open spec fn view(&self) -> ParamView {
        ParamView { name: self.name@, kind: self.kind@, required: self.required }
    }
}

/// One field that a response declares.
pub struct ShapeField {
    pub name: String,
    pub kind: String,
}

/// A declared field as plain values.
pub struct FieldView {
    pub name: Seq<char>,
    pub kind: Seq<char>,
}

impl View for ShapeField {
    type V = FieldView;

    open spec fn view(&self) -> FieldView {
        FieldView { name: self.name@, kind: self.kind@ }
    }
}

/// The shape of a response: the name of its schema and the fields that the
/// schema declares, in their order.
pub struct ResponseShape {
    pub name: String,
    pub fields: Vec<ShapeField>,
}

/// A response shape as plain values.
pub struct ShapeView {
    pub name: Seq<char>,
    pub fields: Seq<FieldView>,
}

impl View for ResponseShape {
    type V = ShapeView;

    open spec fn view(&self) -> ShapeView {
        ShapeView {
            name: self.name@,
            fields: Seq::new(self.fields@.len(), |i: int| self.fields@[i]@),
        }
    }
}

/// The description of one route.
pub struct RouteDescriptor {
    pub method: String,
    pub path: String,
    pub query_params: Vec<QueryParam>,
    pub status_code: u16,
    pub description: String,
    pub response_shape: ResponseShape,
}

/// A route description as plain values.
pub struct RouteView {
    pub method: Seq<char>,
    pub path: Seq<char>,
    pub query_params: Seq<ParamView>,
    pub status_code: int,
    pub description: Seq<char>,
    pub response_shape: ShapeView,
}

impl View for RouteDescriptor {
    type V = RouteView;

    open spec fn view(&self) -> RouteView {
        RouteView {
            method: self.method@,
            path: self.path@,
            query_params: Seq::new(self.query_params@.len(), |i: int| self.query_params@[i]@),
            status_code: self.status_code as int,
            description: self.description@,
            response_shape: self.response_shape@,
        }
    }
}

/// The published description of the service.
pub struct SchemaDocument {
    pub title: String,
    pub version: String,
    pub routes: Vec<RouteDescriptor>,
}

/// A schema document as plain values.
pub struct DocumentView {
    pub title: Seq<char>,
    pub version: Seq<char>,
    pub routes: Seq<RouteView>,
}

impl View for SchemaDocument {
    type V = DocumentView;

    open spec fn view(&self) -> DocumentView {
        DocumentView {
            title: self.title@,
            version: self.version@,
            routes: Seq::new(self.routes@.len(), |i: int| self.routes@[i]@),
        }
    }
}

/// Whether `route` is the one served for `method` on `path`.
pub open spec fn serves(route: RouteView, method: Seq<char>, path: Seq<char>) -> bool {
    route.method == method && route.path == path
}

/// Whether some route of `routes` is served for `method` on `path`.
pub open spec fn has_route(routes: Seq<RouteView>, method: Seq<char>, path: Seq<char>) -> bool {
    exists|i: int| 0 <= i < routes.len() && serves(#[trigger] routes[i], method, path)
}

/// No two routes of `routes` share both method and path.
pub open spec fn routes_unique(routes: Seq<RouteView>) -> bool {
    forall|i: int, j: int|
        #![trigger routes[i], routes[j]]
        0 <= i < j < routes.len() ==> !serves(routes[i], routes[j].method, routes[j].path)
}

/// Why a registration was refused.
#[derive(Debug, PartialEq, Eq)]
pub enum SchemaError {
    /// A route with the same method and path is registered already.
    DuplicateRoute,
}

/// The registry that holds the schema document. Routes are registered in
/// order, and no two of them share both method and path.
pub struct SchemaRegistry {
    document: SchemaDocument,
}

impl View for SchemaRegistry {
    type V = DocumentView;

    closed spec fn view(&self) -> DocumentView {
        self.document@
    }
}

impl SchemaRegistry {
    /// The registry's invariant: its routes are unique by method and path.
    pub open spec fn wf(&self) -> bool {
        routes_unique(self@.routes)
    }

    /// A registry with a title, a version and no route.
    pub fn new(title: String, version: String) -> (registry: SchemaRegistry)
        ensures
            registry.wf(),
            registry@ == (DocumentView {
                title: title@,
                version: version@,
                routes: Seq::empty(),
            }),
    {
        let registry = SchemaRegistry {
            document: SchemaDocument { title, version, routes: Vec::new() },
        };
        assert(registry@.routes =~= Seq::empty());
        registry
    }

    /// The place of the first route served for `method` on `path`, if there is
    /// one.
    pub fn find_route(&self, method: &String, path: &String) -> (found: Option<usize>)
        ensures
            match found {
                Some(at) => at < self@.routes.len() && serves(self@.routes[at as int], method@, path@)
                    && !has_route(self@.routes.subrange(0, at as int), method@, path@),
                None => !has_route(self@.routes, method@, path@),
            },
    {
        let ghost routes = self@.routes;
        let mut i: usize = 0;
        while i < self.document.routes.len()
            invariant
                i <= self.document.routes.len(),
                routes == self@.routes,
                routes.len() == self.document.routes.len(),
                forall|k: int| 0 <= k < i ==> !serves(#[trigger] routes[k], method@, path@),
            decreases self.document.routes.len() - i,
        {
            let route = &self.document.routes[i];
            assert(routes[i as int] == route@);
            if route.method == *method && route.path == *path {
                assert(!has_route(routes.subrange(0, i as int), method@, path@)) by {
                    assert forall|k: int| 0 <= k < routes.subrange(0, i as int).len() implies !serves(
                        #[trigger] routes.subrange(0, i as int)[k],
                        method@,
                        path@,
                    ) by {
                        assert(routes.subrange(0, i as int)[k] == routes[k]);
                    }
                }
                return Some(i);
            }
            i = i + 1;
        }
        None
    }

    /// Registers `route` behind the routes registered so far, unless a route
    /// with its method and path is registered already; the registry is then
    /// left as it was.
    pub fn register(&mut self, route: RouteDescriptor) -> (outcome: Result<(), SchemaError>)
        requires
            old(self).wf(),
        ensures
            final(self).wf(),
            match outcome {
                Ok(_) => !has_route(old(self)@.routes, route@.method, route@.path)
                    && final(self)@ == (DocumentView {
                    routes: old(self)@.routes.push(route@),
                    ..old(self)@
                }),
                Err(refusal) => refusal == SchemaError::DuplicateRoute && has_route(
                    old(self)@.routes,
                    route@.method,
                    route@.path,
                ) && final(self)@ == old(self)@,
            },
    {
        match self.find_route(&route.method, &route.path) {
            Some(_) => Err(SchemaError::DuplicateRoute),
            None => {
                let ghost before = self@.routes;
                self.document.routes.push(route);
                proof {
                    let after = self@.routes;
                    assert(after =~= before.push(route@));
                    assert forall|i: int, j: int|
                        #![trigger after[i], after[j]]
                        0 <= i < j < after.len() implies !serves(
                        after[i],
                        after[j].method,
                        after[j].path,
                    ) by {
                        if j < before.len() {
                            assert(after[i] == before[i] && after[j] == before[j]);
                        } else {
                            assert(after[i] == before[i]);
                        }
                    }
                }
                Ok(())
            },
        }
    }

    /// The document as registered. Reading it changes nothing: every call
    /// hands out the same document.
    pub fn describe(&self) -> (document: &SchemaDocument)
        ensures
            document@ == self@,
    {
        &self.document
    }
}

/// The one parameter of a greeting query, as plain values: `who`, an
/// optional string.
pub open spec fn who_param() -> ParamView {
    ParamView { name: "who"@, kind: "string"@, required: false }
}

impl GreetingQuery {
    /// The query parameters that a greeting query declares.
    pub fn get_query_definitions() -> (params: Vec<QueryParam>)
        ensures
            params@.len() == 1,
            params@[0]@ == who_param(),
    {
        let mut params: Vec<QueryParam> = Vec::new();
        params.push(
            QueryParam { name: "who".to_owned(), kind: "string".to_owned(), required: false },
        );
        params
    }
}

/// The shape of a greeting response, as plain values: one field, `say`, a
/// string.
pub open spec fn greeting_shape() -> ShapeView {
    ShapeView {
        name: "GreetingResponse"@,
        fields: seq![FieldView { name: "say"@, kind: "string"@ }],
    }
}

/// The shape of the schema document, as plain values: its title, its version
/// and its routes.
pub open spec fn document_shape() -> ShapeView {
    ShapeView {
        name: "SchemaDocument"@,
        fields: seq![
            FieldView { name: "title"@, kind: "string"@ },
            FieldView { name: "version"@, kind: "string"@ },
            FieldView { name: "routes"@, kind: "array"@ },
        ],
    }
}

impl GreetingResponse {
    /// The shape that a greeting response declares.
    pub fn get_json_schema_definition() -> (shape: ResponseShape)
        ensures
            shape@ == greeting_shape(),
    {
        let mut fields: Vec<ShapeField> = Vec::new();
        fields.push(ShapeField { name: "say".to_owned(), kind: "string".to_owned() });
        let shape = ResponseShape { name: "GreetingResponse".to_owned(), fields };
        assert(shape@.fields =~= greeting_shape().fields);
        shape
    }
}

impl SchemaDocument {
    /// The shape that the schema document declares.
    pub fn get_json_schema_definition() -> (shape: ResponseShape)
        ensures
            shape@ == document_shape(),
    {
        let mut fields: Vec<ShapeField> = Vec::new();
        fields.push(ShapeField { name: "title".to_owned(), kind: "string".to_owned() });
        fields.push(ShapeField { name: "version".to_owned(), kind: "string".to_owned() });
        fields.push(ShapeField { name: "routes".to_owned(), kind: "array".to_owned() });
        let shape = ResponseShape { name: "SchemaDocument".to_owned(), fields };
        assert(shape@.fields =~= document_shape().fields);
        shape
    }
}

/// The description of the greeting route, as plain values.
pub open spec fn greeting_route() -> RouteView {
    RouteView {
        method: "GET"@,
        path: "/"@,
        query_params: seq![who_param()],
        status_code: 200,
        description: "say"@,
        response_shape: greeting_shape(),
    }
}

/// The description of the schema route, as plain values.
pub open spec fn schema_route() -> RouteView {
    RouteView {
        method: "GET"@,
        path: "/doc"@,
        query_params: Seq::empty(),
        status_code: 200,
        description: "doc"@,
        response_shape: document_shape(),
    }
}

/// The document that describes this service, as plain values: the greeting
/// route, then the schema route.
pub open spec fn service_document() -> DocumentView {
    DocumentView {
        title: "my-rust-webserver"@,
        version: "1.0.0"@,
        routes: seq![greeting_route(), schema_route()],
    }
}

/// Describes the greeting route: `GET /` with the optional string parameter
/// `who`, answered with status 200.
pub fn describe_greeting_route() -> (route: RouteDescriptor)
    ensures
        route@ == greeting_route(),
{
    let route = RouteDescriptor {
        method: "GET".to_owned(),
        path: "/".to_owned(),
        query_params: GreetingQuery::get_query_definitions(),
        status_code: 200,
        description: "say".to_owned(),
        response_shape: GreetingResponse::get_json_schema_definition(),
    };
    assert(route@.query_params =~= greeting_route().query_params);
    route
}

/// Describes the schema route: `GET /doc` without query parameters, answered
/// with status 200 and the schema document.
pub fn describe_schema_route() -> (route: RouteDescriptor)
    ensures
        route@ == schema_route(),
{
    let route = RouteDescriptor {
        method: "GET".to_owned(),
        path: "/doc".to_owned(),
        query_params: Vec::new(),
        status_code: 200,
        description: "doc".to_owned(),
        response_shape: SchemaDocument::get_json_schema_definition(),
    };
    assert(route@.query_params =~= schema_route().query_params);
    route
}

/// Builds the registry of this service: its title, its version and one
/// description for each route that the service exposes, the greeting route
/// first.
pub fn get_openapi_spec() -> (registry: SchemaRegistry)
    ensures
        registry.wf(),
        registry@ == service_document(),
{
    let mut registry = SchemaRegistry::new("my-rust-webserver".to_owned(), "1.0.0".to_owned());
    let _ = registry.register(describe_greeting_route());
    assert(registry@.routes =~= seq![greeting_route()]);
    proof {
        reveal_strlit("/");
        reveal_strlit("/doc");
        assert("/"@.len() != "/doc"@.len());
    }
    let _ = registry.register(describe_schema_route());
    assert(registry@.routes =~= seq![greeting_route(), schema_route()]);
    registry
}

/// Two readings of one registry give structurally identical documents.
pub proof fn describe_is_idempotent(
    registry: SchemaRegistry,
    first: SchemaDocument,
    second: SchemaDocument,
)
    requires
        first@ == registry@,
        second@ == registry@,
    ensures
        first@ == second@,
        first@.routes.len() == second@.routes.len(),
        forall|i: int| 0 <= i < first@.routes.len() ==> first@.routes[i] == second@.routes[i],
{
}

} // verus!
