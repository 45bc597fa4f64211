use greeting_service::handler::doc;
use greeting_service::json::to_json_string;
use greeting_service::render::{
    frame_array, frame_document, frame_field, frame_param, frame_route, frame_shape,
    render_decimal, render_document, render_field, render_param, render_route, render_shape,
};
use greeting_service::schema::{
    get_openapi_spec, QueryParam, ResponseShape, RouteDescriptor, SchemaDocument, SchemaRegistry,
    ShapeField,
};

const GREETING_ROUTE: &str = "{\"method\":\"GET\",\"path\":\"/\",\"queryParams\":[{\"name\":\"who\",\"type\":\"string\",\"required\":false}],\"statusCode\":200,\"description\":\"say\",\"responseShape\":{\"name\":\"GreetingResponse\",\"fields\":[{\"name\":\"say\",\"type\":\"string\"}]}}";

const SCHEMA_ROUTE: &str = "{\"method\":\"GET\",\"path\":\"/doc\",\"queryParams\":[],\"statusCode\":200,\"description\":\"doc\",\"responseShape\":{\"name\":\"SchemaDocument\",\"fields\":[{\"name\":\"title\",\"type\":\"string\"},{\"name\":\"version\",\"type\":\"string\"},{\"name\":\"routes\",\"type\":\"array\"}]}}";

#[test]
fn test_doc() {
    let registry = get_openapi_spec();
    let reply = doc(&registry);
    assert_eq!(reply.status, 200);
}

#[test]
fn doc_replies_with_the_service_document() {
    let registry = get_openapi_spec();
    let reply = doc(&registry);
    assert_eq!(reply.status, 200);
    assert_eq!(
        reply.body,
        format!(
            "{{\"title\":\"my-rust-webserver\",\"version\":\"1.0.0\",\"routes\":[{},{}]}}",
            GREETING_ROUTE, SCHEMA_ROUTE
        )
    );
}

#[test]
fn doc_body_is_json_that_describes_the_greeting_route() {
    let reply = doc(&get_openapi_spec());
    assert_eq!(reply.status, 200);
    let parsed: serde_json::Value = serde_json::from_str(&reply.body).unwrap();
    assert_eq!(parsed.get("title").and_then(|v| v.as_str()), Some("my-rust-webserver"));
    assert_eq!(parsed.get("version").and_then(|v| v.as_str()), Some("1.0.0"));
    let routes = parsed.get("routes").and_then(|v| v.as_array()).unwrap();
    assert!(!routes.is_empty());
    let greeting = routes
        .iter()
        .find(|r| r.get("path").and_then(|v| v.as_str()) == Some("/"))
        .unwrap();
    assert_eq!(greeting.get("method").and_then(|v| v.as_str()), Some("GET"));
    assert_eq!(greeting.get("statusCode").and_then(|v| v.as_u64()), Some(200));
    let params = greeting.get("queryParams").and_then(|v| v.as_array()).unwrap();
    assert_eq!(params.len(), 1);
    assert_eq!(params[0].get("name").and_then(|v| v.as_str()), Some("who"));
    assert_eq!(params[0].get("type").and_then(|v| v.as_str()), Some("string"));
    assert_eq!(params[0].get("required").and_then(|v| v.as_bool()), Some(false));
    let shape = greeting.get("responseShape").unwrap();
    assert_eq!(shape.get("name").and_then(|v| v.as_str()), Some("GreetingResponse"));
    let fields = shape.get("fields").and_then(|v| v.as_array()).unwrap();
    assert_eq!(fields.len(), 1);
    assert_eq!(fields[0].get("name").and_then(|v| v.as_str()), Some("say"));
    assert_eq!(fields[0].get("type").and_then(|v| v.as_str()), Some("string"));
    let schema = routes
        .iter()
        .find(|r| r.get("path").and_then(|v| v.as_str()) == Some("/doc"))
        .unwrap();
    assert_eq!(schema.get("method").and_then(|v| v.as_str()), Some("GET"));
    assert_eq!(schema.get("queryParams").and_then(|v| v.as_array()).map(|p| p.len()), Some(0));
}

#[test]
fn doc_twice_gives_the_same_body() {
    let registry = get_openapi_spec();
    assert_eq!(doc(&registry).body, doc(&registry).body);
}

#[test]
fn doc_of_an_empty_registry_has_an_empty_routes_array() {
    let registry = SchemaRegistry::new("t".to_owned(), "0".to_owned());
    let reply = doc(&registry);
    assert_eq!(reply.status, 200);
    assert_eq!(reply.body, "{\"title\":\"t\",\"version\":\"0\",\"routes\":[]}");
}

#[test]
fn to_json_string_keeps_plain_text_between_quotes() {
    for text in ["", "Hi Tom!", "my-rust-webserver", "/doc", "été", " ~\u{7f}", "{}[]:,'"] {
        assert_eq!(to_json_string(text), format!("\"{}\"", text));
    }
}

#[test]
fn to_json_string_escapes_quote_backslash_and_controls() {
    for text in ["\"", "\\", "\u{0}", "\u{1f}", "\n", "\t", "\r", "a\u{8}b"] {
        assert_ne!(to_json_string(text), format!("\"{}\"", text));
    }
}

#[test]
fn to_json_string_quotes_and_escapes() {
    assert_eq!(to_json_string(""), "\"\"");
    assert_eq!(to_json_string("Tom"), "\"Tom\"");
    assert_eq!(to_json_string("a\"b\\c\n"), "\"a\\\"b\\\\c\\n\"");
}

#[test]
fn render_decimal_writes_plain_numerals() {
    assert_eq!(render_decimal(0), "0");
    assert_eq!(render_decimal(7), "7");
    assert_eq!(render_decimal(10), "10");
    assert_eq!(render_decimal(200), "200");
    assert_eq!(render_decimal(404), "404");
    assert_eq!(render_decimal(9999), "9999");
    assert_eq!(render_decimal(u16::MAX), "65535");
}

#[test]
fn frame_array_separates_items_by_commas() {
    assert_eq!(frame_array(&Vec::new()), "[]");
    assert_eq!(frame_array(&vec!["1".to_owned()]), "[1]");
    assert_eq!(frame_array(&vec!["1".to_owned(), "{}".to_owned(), "\"a\"".to_owned()]), "[1,{},\"a\"]");
}

#[test]
fn frame_param_writes_the_three_fields() {
    assert_eq!(
        frame_param("\"who\"", "\"string\"", true),
        "{\"name\":\"who\",\"type\":\"string\",\"required\":true}"
    );
    assert_eq!(frame_param("1", "2", false), "{\"name\":1,\"type\":2,\"required\":false}");
}

#[test]
fn frame_route_writes_the_fields_in_order() {
    let params = vec!["P".to_owned(), "Q".to_owned()];
    assert_eq!(
        frame_route("M", "A", &params, 201, "D", "S"),
        "{\"method\":M,\"path\":A,\"queryParams\":[P,Q],\"statusCode\":201,\"description\":D,\"responseShape\":S}"
    );
}

#[test]
fn frame_document_writes_the_fields_in_order() {
    let routes = vec!["R1".to_owned(), "R2".to_owned()];
    assert_eq!(
        frame_document("T", "V", &routes),
        "{\"title\":T,\"version\":V,\"routes\":[R1,R2]}"
    );
}

#[test]
fn render_param_escapes_its_strings() {
    let param = QueryParam { name: "a\"b".to_owned(), kind: "string".to_owned(), required: true };
    assert_eq!(
        render_param(&param),
        "{\"name\":\"a\\\"b\",\"type\":\"string\",\"required\":true}"
    );
}

#[test]
fn render_route_of_the_service_routes() {
    let registry = get_openapi_spec();
    assert_eq!(render_route(&registry.describe().routes[0]), GREETING_ROUTE);
    assert_eq!(render_route(&registry.describe().routes[1]), SCHEMA_ROUTE);
}

#[test]
fn frame_field_writes_name_and_type() {
    assert_eq!(frame_field("\"say\"", "\"string\""), "{\"name\":\"say\",\"type\":\"string\"}");
    assert_eq!(frame_field("N", "K"), "{\"name\":N,\"type\":K}");
}

#[test]
fn frame_shape_writes_name_and_fields() {
    assert_eq!(frame_shape("N", &Vec::new()), "{\"name\":N,\"fields\":[]}");
    assert_eq!(
        frame_shape("N", &vec!["F".to_owned(), "G".to_owned()]),
        "{\"name\":N,\"fields\":[F,G]}"
    );
}

#[test]
fn render_shape_escapes_its_strings() {
    let field = ShapeField { name: "a\\b".to_owned(), kind: "string".to_owned() };
    assert_eq!(render_field(&field), "{\"name\":\"a\\\\b\",\"type\":\"string\"}");
    let shape = ResponseShape { name: "Q\"".to_owned(), fields: vec![field] };
    assert_eq!(
        render_shape(&shape),
        "{\"name\":\"Q\\\"\",\"fields\":[{\"name\":\"a\\\\b\",\"type\":\"string\"}]}"
    );
}

#[test]
fn render_document_keeps_registration_order() {
    let route = |path: &str| RouteDescriptor {
        method: "GET".to_owned(),
        path: path.to_owned(),
        query_params: Vec::new(),
        status_code: 204,
        description: "d".to_owned(),
        response_shape: ResponseShape { name: "S".to_owned(), fields: Vec::new() },
    };
    let document = SchemaDocument {
        title: "t".to_owned(),
        version: "v".to_owned(),
        routes: vec![route("/z"), route("/a")],
    };
    let text = render_document(&document);
    let parsed: serde_json::Value = serde_json::from_str(&text).unwrap();
    let paths: Vec<&str> = parsed["routes"]
        .as_array()
        .unwrap()
        .iter()
        .map(|r| r["path"].as_str().unwrap())
        .collect();
    assert_eq!(paths, vec!["/z", "/a"]);
    assert_eq!(
        text,
        "{\"title\":\"t\",\"version\":\"v\",\"routes\":[{\"method\":\"GET\",\"path\":\"/z\",\"queryParams\":[],\"statusCode\":204,\"description\":\"d\",\"responseShape\":{\"name\":\"S\",\"fields\":[]}},{\"method\":\"GET\",\"path\":\"/a\",\"queryParams\":[],\"statusCode\":204,\"description\":\"d\",\"responseShape\":{\"name\":\"S\",\"fields\":[]}}]}"
    );
}
