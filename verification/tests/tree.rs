use endpoints::chain::{parse_chain_to, to_array};
use endpoints::endpoint::Endpoint;
use endpoints::error::{ErrorKind, ParseError};
use endpoints::normalize::expr_to_str;
use endpoints::parse::parse_endpoints;
use endpoints::record::{parse_record, Definition};
use endpoints::syntax::{Expr, ExprKind, FieldValue, Member, Span, StructLit};

fn at(id: usize) -> Span {
    Span { id }
}

fn string(value: &str, id: usize) -> Expr {
    Expr { kind: ExprKind::Str(value.to_string()), text: format!("{:?}", value), span: at(id) }
}

fn ident(text: &str, id: usize) -> Expr {
    Expr { kind: ExprKind::Other, text: text.to_string(), span: at(id) }
}

fn array(elems: Vec<Expr>, text: &str, id: usize) -> Expr {
    Expr { kind: ExprKind::Array(elems), text: text.to_string(), span: at(id) }
}

fn named(name: &str, name_id: usize, expr: Expr, id: usize) -> FieldValue {
    FieldValue {
        member: Member::Named { name: name.to_string(), span: at(name_id) },
        expr,
        span: at(id),
    }
}

fn record_of(path: Vec<&str>, path_id: usize, fields: Vec<FieldValue>, id: usize) -> Expr {
    Expr {
        kind: ExprKind::Struct(StructLit {
            path: path.into_iter().map(|segment| segment.to_string()).collect(),
            path_span: at(path_id),
            fields,
        }),
        text: "Endpoint { .. }".to_string(),
        span: at(id),
    }
}

fn endpoint(path_id: usize, fields: Vec<FieldValue>) -> Expr {
    record_of(vec!["Endpoint"], path_id, fields, path_id + 1)
}

fn simple(path: &str, method: &str, base: usize) -> Expr {
    endpoint(
        base,
        vec![
            named("path", base + 2, string(path, base + 3), base + 4),
            named("method", base + 5, string(method, base + 6), base + 7),
        ],
    )
}

fn list(elems: Vec<Expr>) -> Expr {
    array(elems, "[ .. ]", 0)
}

fn failure(parsed: Result<Vec<Endpoint>, ParseError>) -> ParseError {
    match parsed {
        Ok(endpoints) => panic!("parsed to {:?}", endpoints),
        Err(refusal) => refusal,
    }
}

fn success(parsed: Result<Vec<Endpoint>, ParseError>) -> Vec<Endpoint> {
    match parsed {
        Ok(endpoints) => endpoints,
        Err(refusal) => panic!("refused: {:?}", refusal),
    }
}

fn chain(names: &[&str]) -> Option<Vec<String>> {
    Some(names.iter().map(|name| name.to_string()).collect())
}

#[test]
fn string_literal_normalizes_to_its_value() {
    let text = expr_to_str(&string("/users/", 1));
    assert_eq!(text, "/users/");
    assert!(!text.contains('"'));
    assert!(!text.contains('\\'));
}

#[test]
fn string_literal_value_is_kept_verbatim() {
    assert_eq!(expr_to_str(&string("", 1)), "");
    assert_eq!(expr_to_str(&string("a \"quoted\" \\ word\n", 1)), "a \"quoted\" \\ word\n");
}

#[test]
fn other_nodes_normalize_to_their_surface_syntax() {
    assert_eq!(expr_to_str(&ident("someIdentifier", 1)), "someIdentifier");
    assert_eq!(expr_to_str(&ident("consts :: PING", 1)), "consts :: PING");
    assert_eq!(expr_to_str(&ident("1 + 2", 1)), "1 + 2");
    assert_eq!(expr_to_str(&array(vec![string("a", 2)], "[\"a\"]", 1)), "[\"a\"]");
    assert_eq!(expr_to_str(&simple("/a/", "GET", 10)), "Endpoint { .. }");
}

#[test]
fn to_array_hands_out_the_elements() {
    let input = array(vec![string("a", 2), ident("b", 3)], "[\"a\", b]", 1);
    let elems = to_array(&input).expect("a list");
    assert_eq!(elems.len(), 2);
    assert_eq!(elems[0].span, at(2));
    assert_eq!(elems[1].span, at(3));
    let refusal = to_array(&string("a", 7)).expect_err("no list");
    assert_eq!(refusal.kind, ErrorKind::Structure);
    assert_eq!(refusal.message, "not an array");
    assert_eq!(refusal.span, at(7));
    assert_eq!(refusal.field, None);
}

#[test]
fn chain_keeps_source_order() {
    let input = array(vec![string("a", 2), string("b", 3), string("c", 4)], "[..]", 1);
    assert_eq!(parse_chain_to(&input).expect("a chain"), vec!["a", "b", "c"]);
}

#[test]
fn chain_that_is_no_list_is_refused() {
    let refusal = parse_chain_to(&ident("someIdentifier", 9)).expect_err("no list");
    assert_eq!(refusal.kind, ErrorKind::Structure);
    assert_eq!(refusal.message, "not an array");
    assert_eq!(refusal.span, at(9));
    assert_eq!(refusal.field, None);
    let refusal = parse_chain_to(&string("a", 4)).expect_err("no list");
    assert_eq!(refusal.kind, ErrorKind::Structure);
    assert_eq!(refusal.span, at(4));
}

#[test]
fn empty_chain_is_valid() {
    let parsed = parse_chain_to(&array(vec![], "[]", 1)).expect("a chain");
    assert!(parsed.is_empty());
}

#[test]
fn chain_keeps_duplicates_and_takes_any_element() {
    let input = array(
        vec![string("a", 2), ident("b", 3), string("a", 4), array(vec![], "[]", 5)],
        "[..]",
        1,
    );
    assert_eq!(parse_chain_to(&input).expect("a chain"), vec!["a", "b", "a", "[]"]);
}

#[test]
fn two_records_parse_in_order() {
    let input = list(vec![
        simple("/ping/", "GET", 10),
        endpoint(
            20,
            vec![
                named("path", 22, string("/chain/", 23), 24),
                named("method", 25, string("POST", 26), 27),
                named("chain_to", 28, array(vec![string("ping", 30)], "[\"ping\"]", 29), 31),
            ],
        ),
    ]);
    let endpoints = success(parse_endpoints(&input));
    assert_eq!(endpoints.len(), 2);
    assert_eq!(endpoints[0].path, "/ping/");
    assert_eq!(endpoints[0].method, "GET");
    assert_eq!(endpoints[0].chain_to, None);
    assert_eq!(endpoints[1].path, "/chain/");
    assert_eq!(endpoints[1].method, "POST");
    assert_eq!(endpoints[1].chain_to, chain(&["ping"]));
}

#[test]
fn unknown_field_fails_the_whole_list() {
    let input = list(vec![
        simple("/ping/", "GET", 10),
        endpoint(
            20,
            vec![
                named("path", 22, string("/a/", 23), 24),
                named("foo", 25, string("bar", 26), 27),
                named("method", 28, string("GET", 29), 30),
            ],
        ),
    ]);
    let refusal = failure(parse_endpoints(&input));
    assert_eq!(refusal.kind, ErrorKind::UnknownField);
    assert_eq!(refusal.field.as_deref(), Some("foo"));
    assert_eq!(refusal.message, "unknown field name: foo");
    assert_eq!(refusal.span, at(26));
}

#[test]
fn as_many_descriptors_as_records() {
    let paths = ["/a/", "/b/", "/c/", "/d/", "/e/"];
    let methods = ["GET", "PUT", "HEAD", "TRACE", "PATCH"];
    let mut records = Vec::new();
    for i in 0..paths.len() {
        records.push(simple(paths[i], methods[i], 10 * (i + 1)));
    }
    let endpoints = success(parse_endpoints(&list(records)));
    assert_eq!(endpoints.len(), 5);
    for i in 0..paths.len() {
        assert_eq!(endpoints[i].path, paths[i]);
        assert_eq!(endpoints[i].method, methods[i]);
        assert_eq!(endpoints[i].chain_to, None);
    }
}

#[test]
fn empty_list_gives_no_descriptor() {
    assert!(success(parse_endpoints(&list(vec![]))).is_empty());
}

#[test]
fn equal_records_are_both_kept() {
    let input = list(vec![simple("/a/", "GET", 10), simple("/a/", "GET", 20)]);
    let endpoints = success(parse_endpoints(&input));
    assert_eq!(endpoints.len(), 2);
    assert_eq!(endpoints[0].path, "/a/");
    assert_eq!(endpoints[1].path, "/a/");
}

#[test]
fn input_that_is_no_list_is_refused() {
    let refusal = failure(parse_endpoints(&simple("/a/", "GET", 10)));
    assert_eq!(refusal.kind, ErrorKind::Structure);
    assert_eq!(refusal.message, "not an array");
    assert_eq!(refusal.span, at(11));
    assert_eq!(refusal.field, None);
    let refusal = failure(parse_endpoints(&ident("ENDPOINTS", 3)));
    assert_eq!(refusal.kind, ErrorKind::Structure);
    assert_eq!(refusal.span, at(3));
}

#[test]
fn element_that_is_no_record_is_refused() {
    let input = list(vec![simple("/a/", "GET", 10), string("/b/", 20)]);
    let refusal = failure(parse_endpoints(&input));
    assert_eq!(refusal.kind, ErrorKind::Structure);
    assert_eq!(refusal.message, "not a structure");
    assert_eq!(refusal.span, at(20));
    let refusal = parse_record(&array(vec![], "[]", 5)).expect_err("no record");
    assert_eq!(refusal.message, "not a structure");
    assert_eq!(refusal.span, at(5));
}

#[test]
fn qualified_type_name_is_refused() {
    let fields = vec![
        named("path", 2, string("/a/", 3), 4),
        named("method", 5, string("GET", 6), 7),
    ];
    let refusal =
        parse_record(&record_of(vec!["api", "Endpoint"], 40, fields, 41)).expect_err("qualified");
    assert_eq!(refusal.kind, ErrorKind::Structure);
    assert_eq!(refusal.message, "a single path segment is expected");
    assert_eq!(refusal.span, at(40));
    let refusal = parse_record(&record_of(vec![], 42, vec![], 43)).expect_err("no segment");
    assert_eq!(refusal.message, "a single path segment is expected");
    assert_eq!(refusal.span, at(42));
}

#[test]
fn other_type_name_is_refused() {
    let fields = vec![
        named("path", 2, string("/a/", 3), 4),
        named("method", 5, string("GET", 6), 7),
    ];
    let refusal = parse_record(&record_of(vec!["Route"], 40, fields, 41)).expect_err("other type");
    assert_eq!(refusal.kind, ErrorKind::Structure);
    assert_eq!(refusal.message, "structure must be of type `Endpoint`");
    assert_eq!(refusal.span, at(40));
    let refusal =
        parse_record(&record_of(vec!["endpoint"], 44, vec![], 45)).expect_err("other type");
    assert_eq!(refusal.message, "structure must be of type `Endpoint`");
}

#[test]
fn type_name_is_checked_before_the_fields() {
    let fields = vec![named("foo", 2, string("bar", 3), 4)];
    let refusal = parse_record(&record_of(vec!["Route"], 40, fields, 41)).expect_err("other type");
    assert_eq!(refusal.message, "structure must be of type `Endpoint`");
}

#[test]
fn positional_field_is_refused() {
    let input = endpoint(
        10,
        vec![
            named("path", 12, string("/a/", 13), 14),
            FieldValue { member: Member::Unnamed, expr: string("GET", 16), span: at(17) },
        ],
    );
    let refusal = parse_record(&input).expect_err("positional");
    assert_eq!(refusal.kind, ErrorKind::Structure);
    assert_eq!(refusal.message, "field should be named");
    assert_eq!(refusal.span, at(17));
    assert_eq!(refusal.field, None);
}

#[test]
fn repeated_path_is_refused() {
    let input = endpoint(
        10,
        vec![
            named("path", 12, string("/a/", 13), 14),
            named("path", 15, string("/b/", 16), 17),
            named("method", 18, string("GET", 19), 20),
        ],
    );
    let refusal = failure(parse_endpoints(&list(vec![input])));
    assert_eq!(refusal.kind, ErrorKind::DuplicateField);
    assert_eq!(refusal.field.as_deref(), Some("path"));
    assert_eq!(refusal.message, "is already defined");
    assert_eq!(refusal.span, at(15));
}

#[test]
fn repeated_method_and_chain_are_refused() {
    let input = endpoint(
        10,
        vec![
            named("method", 12, string("GET", 13), 14),
            named("method", 15, string("PUT", 16), 17),
        ],
    );
    let refusal = parse_record(&input).expect_err("repeated");
    assert_eq!(refusal.kind, ErrorKind::DuplicateField);
    assert_eq!(refusal.field.as_deref(), Some("method"));
    assert_eq!(refusal.span, at(15));
    let input = endpoint(
        10,
        vec![
            named("chain_to", 12, array(vec![], "[]", 13), 14),
            named("path", 15, string("/a/", 16), 17),
            named("chain_to", 18, array(vec![string("a", 20)], "[\"a\"]", 19), 21),
            named("method", 22, string("GET", 23), 24),
        ],
    );
    let refusal = parse_record(&input).expect_err("repeated");
    assert_eq!(refusal.kind, ErrorKind::DuplicateField);
    assert_eq!(refusal.field.as_deref(), Some("chain_to"));
    assert_eq!(refusal.message, "is already defined");
    assert_eq!(refusal.span, at(18));
}

#[test]
fn repetition_is_found_before_the_value_is_checked() {
    let input = endpoint(
        10,
        vec![
            named("path", 12, string("/a/", 13), 14),
            named("path", 15, string("broken", 16), 17),
        ],
    );
    let refusal = parse_record(&input).expect_err("repeated");
    assert_eq!(refusal.kind, ErrorKind::DuplicateField);
    assert_eq!(refusal.span, at(15));
}

#[test]
fn record_without_method_is_refused() {
    let input = endpoint(10, vec![named("path", 12, string("/a/", 13), 14)]);
    let refusal = failure(parse_endpoints(&list(vec![input])));
    assert_eq!(refusal.kind, ErrorKind::MissingRequiredField);
    assert_eq!(refusal.field.as_deref(), Some("method"));
    assert_eq!(refusal.message, "missing field `method`");
    assert_eq!(refusal.span, at(10));
}

#[test]
fn record_without_path_is_refused() {
    let input = endpoint(
        10,
        vec![
            named("method", 12, string("GET", 13), 14),
            named("chain_to", 15, array(vec![], "[]", 16), 17),
        ],
    );
    let refusal = parse_record(&input).expect_err("no path");
    assert_eq!(refusal.kind, ErrorKind::MissingRequiredField);
    assert_eq!(refusal.field.as_deref(), Some("path"));
    assert_eq!(refusal.message, "missing field `path`");
    assert_eq!(refusal.span, at(10));
}

#[test]
fn empty_record_lacks_its_path_first() {
    let refusal = parse_record(&endpoint(10, vec![])).expect_err("empty");
    assert_eq!(refusal.kind, ErrorKind::MissingRequiredField);
    assert_eq!(refusal.field.as_deref(), Some("path"));
}

#[test]
fn field_order_is_irrelevant() {
    let forward = endpoint(
        10,
        vec![
            named("path", 12, string("/a/", 13), 14),
            named("method", 15, string("GET", 16), 17),
            named("chain_to", 18, array(vec![ident("b", 20), ident("c", 21)], "[b, c]", 19), 22),
        ],
    );
    let backward = endpoint(
        10,
        vec![
            named("chain_to", 18, array(vec![ident("b", 20), ident("c", 21)], "[b, c]", 19), 22),
            named("method", 15, string("GET", 16), 17),
            named("path", 12, string("/a/", 13), 14),
        ],
    );
    let first = parse_record(&forward).expect("a record");
    let second = parse_record(&backward).expect("a record");
    assert_eq!(first.path, "/a/");
    assert_eq!(first.method, "GET");
    assert_eq!(first.chain_to, chain(&["b", "c"]));
    assert_eq!(second.path, first.path);
    assert_eq!(second.method, first.method);
    assert_eq!(second.chain_to, first.chain_to);
}

#[test]
fn field_values_are_normalized_before_they_are_checked() {
    let input = endpoint(
        10,
        vec![
            named("path", 12, string("/a/", 13), 14),
            named("method", 15, ident("GET", 16), 17),
        ],
    );
    let parsed = parse_record(&input).expect("a record");
    assert_eq!(parsed.method, "GET");
    let input = endpoint(
        10,
        vec![
            named("path", 12, ident("ROOT", 13), 14),
            named("method", 15, string("GET", 16), 17),
        ],
    );
    let refusal = parse_record(&input).expect_err("a constant");
    assert_eq!(refusal.kind, ErrorKind::PathFormat);
    assert_eq!(refusal.message, "path: ROOT should start with `/`");
    assert_eq!(refusal.span, at(13));
}

#[test]
fn bad_path_in_a_record_is_refused() {
    let refusal = failure(parse_endpoints(&list(vec![simple("/a", "GET", 10)])));
    assert_eq!(refusal.kind, ErrorKind::PathFormat);
    assert_eq!(refusal.field.as_deref(), Some("path"));
    assert_eq!(refusal.message, "path: /a should end with `/`");
    assert_eq!(refusal.span, at(13));
}

#[test]
fn bad_method_in_a_record_is_refused() {
    let refusal = failure(parse_endpoints(&list(vec![simple("/a/", "FOO", 10)])));
    assert_eq!(refusal.kind, ErrorKind::InvalidMethod);
    assert_eq!(refusal.field.as_deref(), Some("method"));
    assert_eq!(refusal.message, "unknown method: FOO");
    assert_eq!(refusal.span, at(16));
}

#[test]
fn chain_that_is_no_list_fails_its_record() {
    let input = endpoint(
        10,
        vec![
            named("path", 12, string("/a/", 13), 14),
            named("method", 15, string("GET", 16), 17),
            named("chain_to", 18, ident("someIdentifier", 19), 20),
        ],
    );
    let refusal = failure(parse_endpoints(&list(vec![input])));
    assert_eq!(refusal.kind, ErrorKind::Structure);
    assert_eq!(refusal.message, "not an array");
    assert_eq!(refusal.span, at(19));
}

#[test]
fn chain_may_name_endpoints_that_do_not_exist() {
    let input = endpoint(
        10,
        vec![
            named("path", 12, string("/a/", 13), 14),
            named("method", 15, string("GET", 16), 17),
            named("chain_to", 18, array(vec![string("nowhere", 20)], "[\"nowhere\"]", 19), 21),
        ],
    );
    let endpoints = success(parse_endpoints(&list(vec![input])));
    assert_eq!(endpoints[0].chain_to, chain(&["nowhere"]));
}

#[test]
fn empty_chain_is_kept_as_an_empty_chain() {
    let input = endpoint(
        10,
        vec![
            named("path", 12, string("/a/", 13), 14),
            named("method", 15, string("GET", 16), 17),
            named("chain_to", 18, array(vec![], "[]", 19), 21),
        ],
    );
    let parsed = parse_record(&input).expect("a record");
    assert_eq!(parsed.chain_to, Some(Vec::new()));
}

#[test]
fn first_failure_in_a_record_wins() {
    let input = endpoint(
        10,
        vec![
            named("path", 12, string("a", 13), 14),
            named("method", 15, string("FOO", 16), 17),
            named("foo", 18, string("bar", 19), 20),
        ],
    );
    let refusal = parse_record(&input).expect_err("three failures");
    assert_eq!(refusal.kind, ErrorKind::PathFormat);
    assert_eq!(refusal.message, "path: a must be at least 2 characters");
    assert_eq!(refusal.span, at(13));
}

#[test]
fn first_failing_record_wins() {
    let input = list(vec![
        simple("/a/", "GET", 10),
        simple("/b/", "FOO", 20),
        simple("c", "GET", 30),
        string("x", 40),
    ]);
    let refusal = failure(parse_endpoints(&input));
    assert_eq!(refusal.kind, ErrorKind::InvalidMethod);
    assert_eq!(refusal.message, "unknown method: FOO");
    assert_eq!(refusal.span, at(26));
}

#[test]
fn a_failing_field_hides_a_missing_one() {
    let input = endpoint(10, vec![named("method", 12, string("FOO", 13), 14)]);
    let refusal = parse_record(&input).expect_err("two failures");
    assert_eq!(refusal.kind, ErrorKind::InvalidMethod);
}

#[test]
fn definition_gathers_fields_one_by_one() {
    let definition = Definition::new();
    assert!(!definition.has("path"));
    assert!(!definition.has("method"));
    assert!(!definition.has("chain_to"));
    let definition =
        definition.accept(&named("path", 2, string("/a/", 3), 4)).expect("a valid path");
    assert!(definition.has("path"));
    assert!(!definition.has("method"));
    assert!(!definition.has("foo"));
    assert_eq!(definition.path.as_deref(), Some("/a/"));
    let definition =
        definition.accept(&named("method", 5, string("GET", 6), 7)).expect("a valid method");
    assert!(definition.has("method"));
    assert_eq!(definition.method.as_deref(), Some("GET"));
    assert_eq!(definition.chain_to, None);
    let done = definition.finish(at(9)).expect("both fields");
    assert_eq!(done.path, "/a/");
    assert_eq!(done.method, "GET");
    assert_eq!(done.chain_to, None);
}

#[test]
fn definition_finish_names_what_is_missing() {
    let refusal = Definition::new().finish(at(9)).expect_err("nothing there");
    assert_eq!(refusal.kind, ErrorKind::MissingRequiredField);
    assert_eq!(refusal.field.as_deref(), Some("path"));
    assert_eq!(refusal.span, at(9));
    let definition = Definition { path: Some("/a/".to_string()), method: None, chain_to: None };
    let refusal = definition.finish(at(8)).expect_err("no method");
    assert_eq!(refusal.field.as_deref(), Some("method"));
    assert_eq!(refusal.message, "missing field `method`");
    assert_eq!(refusal.span, at(8));
}
