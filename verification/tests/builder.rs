use request_builder::{BuildError, JsonValue, Method, RequestBuilder, TypedHeader};

#[test]
fn it_works() {
    assert_eq!(2 + 2, 4);
}

#[test]
fn prints() {
    let req = RequestBuilder::get("www.google.ac.kr")
        .query("a", "b")
        .header_raw("c", "d")
        .header_raw("e", "f")
        .content_type_json()
        .accept_json()
        .build()
        .unwrap();
    println!("{:?}", req);
}

#[test]
fn build_keeps_method_and_uri() {
    let req = RequestBuilder::get("http://example.com/path").build().unwrap();
    assert_eq!(req.method, Method::Get);
    assert_eq!(req.uri_text, "http://example.com/path");
    assert_eq!(req.uri.to_string(), "http://example.com/path");

    let req = RequestBuilder::post("http://example.com/other").build().unwrap();
    assert_eq!(req.method, Method::Post);
    assert_eq!(req.uri_text, "http://example.com/other");

    let req = RequestBuilder::put("http://example.com/").build().unwrap();
    assert_eq!(req.method, Method::Put);
    let req = RequestBuilder::delete("http://example.com/").build().unwrap();
    assert_eq!(req.method, Method::Delete);
    let req = RequestBuilder::head("http://example.com/").build().unwrap();
    assert_eq!(req.method, Method::Head);
}

#[test]
fn build_rejects_empty_uri() {
    match RequestBuilder::get("").build() {
        Err(e) => assert_eq!(e, BuildError::InvalidUri),
        Ok(_) => panic!("an empty URI must not parse"),
    }
}

#[test]
fn build_rejects_illegal_characters() {
    match RequestBuilder::get("http://exa mple.com/path").build() {
        Err(e) => assert_eq!(e, BuildError::InvalidUri),
        Ok(_) => panic!("a URI with a space must not parse"),
    }
}

#[test]
fn header_raw_last_write_wins() {
    let b = RequestBuilder::get("http://example.com")
        .header_raw("k", "v")
        .header_raw("k", "v2");
    assert_eq!(b.headers().len(), 1);
    assert_eq!(b.headers().get(&"k".to_string()), Some(&"v2".to_string()));
}

#[test]
fn header_names_are_lowercased() {
    let b = RequestBuilder::get("http://example.com")
        .header_raw("X-Custom", "1")
        .header_raw("x-custom", "2");
    assert_eq!(b.headers().len(), 1);
    assert_eq!(b.headers().get(&"x-custom".to_string()), Some(&"2".to_string()));
}

#[test]
fn clear_header_empties_the_header_set() {
    let b = RequestBuilder::get("http://example.com")
        .header_raw("a", "1")
        .content_type_json()
        .accept("text/html")
        .clear_header();
    assert_eq!(b.headers().len(), 0);
    let b = b.header_raw("b", "2");
    assert_eq!(b.headers().len(), 1);
    assert_eq!(b.headers().get(&"b".to_string()), Some(&"2".to_string()));
}

#[test]
fn clear_query_empties_the_query_map() {
    let b = RequestBuilder::get("http://example.com").query("k", "v").clear_query();
    assert_eq!(b.queries().len(), 0);
}

#[test]
fn query_last_write_wins() {
    let b = RequestBuilder::get("http://example.com").query("a", "1").query("a", "2");
    assert_eq!(b.queries().len(), 1);
    assert_eq!(b.queries().get(&"a".to_string()), Some(&"2".to_string()));
}

#[test]
fn query_from_pairs_merges_in_order() {
    let pairs = vec![
        ("a".to_string(), "1".to_string()),
        ("b".to_string(), "2".to_string()),
        ("a".to_string(), "3".to_string()),
    ];
    let b = RequestBuilder::get("http://example.com")
        .query("a", "0")
        .query("c", "9")
        .query_from_pairs(&pairs);
    assert_eq!(b.queries().len(), 3);
    assert_eq!(b.queries().get(&"a".to_string()), Some(&"3".to_string()));
    assert_eq!(b.queries().get(&"b".to_string()), Some(&"2".to_string()));
    assert_eq!(b.queries().get(&"c".to_string()), Some(&"9".to_string()));
}

#[test]
fn query_from_json_flattens_a_flat_object() {
    let json = JsonValue::Object(vec![
        ("a".to_string(), JsonValue::Number("1".to_string())),
        ("b".to_string(), JsonValue::Text("x".to_string())),
        ("c".to_string(), JsonValue::Null),
    ]);
    let b = RequestBuilder::get("http://example.com").query_from_json(json).unwrap();
    assert_eq!(b.queries().len(), 3);
    assert_eq!(b.queries().get(&"a".to_string()), Some(&"1".to_string()));
    assert_eq!(b.queries().get(&"b".to_string()), Some(&"x".to_string()));
    assert_eq!(b.queries().get(&"c".to_string()), Some(&"".to_string()));
}

#[test]
fn query_from_json_rejects_a_nested_object() {
    let json = JsonValue::Object(vec![(
        "a".to_string(),
        JsonValue::Object(vec![("nested".to_string(), JsonValue::Number("1".to_string()))]),
    )]);
    match RequestBuilder::get("http://example.com").query_from_json(json) {
        Err(e) => assert_eq!(e, BuildError::UnsupportedJsonShape),
        Ok(_) => panic!("a nested object must be rejected"),
    }
}

#[test]
fn query_from_json_rejects_a_non_object() {
    match RequestBuilder::get("http://example.com").query_from_json(JsonValue::Text("x".to_string()))
    {
        Err(e) => assert_eq!(e, BuildError::UnsupportedJsonShape),
        Ok(_) => panic!("a non-object must be rejected"),
    }
    let json = JsonValue::Object(vec![("a".to_string(), JsonValue::Bool(true))]);
    match RequestBuilder::get("http://example.com").query_from_json(json) {
        Err(e) => assert_eq!(e, BuildError::UnsupportedJsonShape),
        Ok(_) => panic!("a boolean field must be rejected"),
    }
}

#[test]
fn content_type_json_sets_the_json_media_type() {
    let b = RequestBuilder::get("http://example.com").content_type_json();
    assert_eq!(
        b.headers().get(&"content-type".to_string()),
        Some(&"application/json".to_string())
    );
}

#[test]
fn content_type_calls_share_one_entry() {
    let b = RequestBuilder::get("http://example.com")
        .header_raw("Content-Type", "text/plain")
        .content_type_x_www_form_urlencoded()
        .content_type("text/csv")
        .content_type_json();
    assert_eq!(b.headers().len(), 1);
    assert_eq!(
        b.headers().get(&"content-type".to_string()),
        Some(&"application/json".to_string())
    );
}

#[test]
fn accept_headers() {
    let b = RequestBuilder::get("http://example.com").accept("text/html");
    assert_eq!(b.headers().get(&"accept".to_string()), Some(&"text/html".to_string()));
    let b = b.accept_json();
    assert_eq!(b.headers().len(), 1);
    assert_eq!(b.headers().get(&"accept".to_string()), Some(&"application/json".to_string()));
}

#[test]
fn typed_headers_overwrite_their_kind() {
    let b = RequestBuilder::get("http://example.com")
        .header(TypedHeader::ContentType("text/plain".to_string()))
        .header(TypedHeader::Accept("text/html".to_string()))
        .header(TypedHeader::ContentType("application/json".to_string()));
    assert_eq!(b.headers().len(), 2);
    assert_eq!(
        b.headers().get(&"content-type".to_string()),
        Some(&"application/json".to_string())
    );
    assert_eq!(b.headers().get(&"accept".to_string()), Some(&"text/html".to_string()));
}

#[test]
fn end_to_end_get_request() {
    let b = RequestBuilder::get("http://example.com/path")
        .query("a", "b")
        .header_raw("c", "d")
        .content_type_json()
        .accept_json();
    assert_eq!(b.queries().get(&"a".to_string()), Some(&"b".to_string()));
    let req = b.build().unwrap();
    assert_eq!(req.method, Method::Get);
    assert_eq!(req.uri.to_string(), "http://example.com/path");
    assert_eq!(req.headers.len(), 3);
    assert_eq!(req.headers.get(&"c".to_string()), Some(&"d".to_string()));
    assert_eq!(
        req.headers.get(&"content-type".to_string()),
        Some(&"application/json".to_string())
    );
    assert_eq!(req.headers.get(&"accept".to_string()), Some(&"application/json".to_string()));
    assert_eq!(req.uri.to_string().contains("a=b"), false);
}

#[test]
fn entries_lists_every_header_once() {
    let b = RequestBuilder::get("http://example.com")
        .header_raw("a", "1")
        .header_raw("b", "2")
        .header_raw("a", "3");
    let entries = b.headers().entries();
    assert_eq!(entries.len(), 2);
    assert!(entries.contains(&("a".to_string(), "3".to_string())));
    assert!(entries.contains(&("b".to_string(), "2".to_string())));
}

#[test]
fn builder_getters_report_the_configuration() {
    let b = RequestBuilder::post("http://example.com/x");
    assert_eq!(b.method(), Method::Post);
    assert_eq!(b.uri().as_str(), "http://example.com/x");
    assert_eq!(b.headers().len(), 0);
    assert_eq!(b.queries().len(), 0);
}
