use interfacer_http::method::{
    check_duplicate, filter_method, gen_args, method_name, Attribute, AttributeError, ContentType,
    Expect, Literal, Meta, ReqArgs, Selected,
};

fn text(name: &str, value: &str) -> Meta {
    Meta::NameValue(name.to_string(), Literal::Str(value.to_string()))
}

fn number(name: &str, value: u64) -> Meta {
    Meta::NameValue(name.to_string(), Literal::Int(value))
}

fn outer(name: &str) -> Attribute {
    Attribute {
        outer: true,
        name: name.to_string(),
    }
}

fn inner(name: &str) -> Attribute {
    Attribute {
        outer: false,
        name: name.to_string(),
    }
}

#[test]
fn defaults() {
    let req = ReqArgs::default();
    assert_eq!(req.path(), "/");
    assert_eq!(req.content_type().content_type(), "application/json");
    assert_eq!(req.content_type().charset(), "utf-8");
    let expect = Expect::default();
    assert_eq!(expect.status(), 200);
    assert_eq!(expect.content_type().content_type(), "application/json");
    assert_eq!(expect.content_type().charset(), "utf-8");
    let content_type = ContentType::default();
    assert_eq!(content_type.content_type(), "application/json");
}

#[test]
fn req_args_load_meta() {
    let mut req = ReqArgs::default();
    req.load_meta(&vec![
        text("path", "/api/user"),
        text("content_type", "application/xml"),
        Meta::Other,
        text("unknown", "x"),
        number("path", 3),
        text("charset", "gbk"),
    ])
    .unwrap();
    assert_eq!(req.path(), "/api/user");
    assert_eq!(req.content_type().content_type(), "application/xml");
    assert_eq!(req.content_type().charset(), "gbk");
    req.load_meta(&vec![text("charset", "big5"), text("charset", "utf-8")])
        .unwrap();
    assert_eq!(req.path(), "/api/user");
    assert_eq!(req.content_type().content_type(), "application/xml");
    assert_eq!(req.content_type().charset(), "utf-8");
}

#[test]
fn later_value_counts() {
    let mut req = ReqArgs::default();
    req.load_meta(&vec![text("path", "/a"), text("path", "/b"), text("Path", "/c")])
        .unwrap();
    assert_eq!(req.path(), "/b");
    let mut content_type = ContentType::default();
    content_type.load_meta(&vec![]).unwrap();
    assert_eq!(content_type.content_type(), "application/json");
    assert_eq!(content_type.charset(), "utf-8");
}

#[test]
fn expect_load_meta() {
    let mut expect = Expect::default();
    expect
        .load_meta(&vec![
            number("status", 404),
            text("status", "500"),
            text("content_type", "text/html"),
            number("status", 201),
        ])
        .unwrap();
    assert_eq!(expect.status(), 201);
    assert_eq!(expect.content_type().content_type(), "text/html");
    assert_eq!(expect.content_type().charset(), "utf-8");
}

#[test]
fn expect_refuses_what_is_no_status() {
    for bad in [0u64, 99, 1000, 65535] {
        let mut expect = Expect::default();
        let err = expect
            .load_meta(&vec![
                number("status", 404),
                text("charset", "gbk"),
                number("status", bad),
                number("status", 500),
            ])
            .unwrap_err();
        assert_eq!(err, AttributeError::InvalidStatus);
        assert_eq!(expect.status(), 404);
        assert_eq!(expect.content_type().charset(), "utf-8");
    }
    for good in [100u64, 999] {
        let mut expect = Expect::default();
        expect.load_meta(&vec![number("status", good)]).unwrap();
        assert_eq!(u64::from(expect.status()), good);
    }
}

#[test]
fn status_is_the_low_sixteen_bits() {
    let mut expect = Expect::default();
    expect.load_meta(&vec![number("status", 65536 + 204)]).unwrap();
    assert_eq!(expect.status(), 204);
    let mut expect = Expect::default();
    let err = expect.load_meta(&vec![number("status", 65536)]).unwrap_err();
    assert_eq!(err, AttributeError::InvalidStatus);
}

#[test]
fn filter_method_finds_both() {
    let attrs = vec![
        outer("doc"),
        outer("expect"),
        inner("get"),
        outer("post"),
        inner("expect"),
        outer("GET"),
    ];
    assert_eq!(
        filter_method(&attrs),
        Ok(Selected {
            req: 3,
            expect: Some(1)
        })
    );
    assert_eq!(
        filter_method(&vec![outer("trace")]),
        Ok(Selected {
            req: 0,
            expect: None
        })
    );
}

#[test]
fn filter_method_wants_a_request() {
    assert_eq!(filter_method(&vec![]), Err(AttributeError::NoRequest));
    assert_eq!(
        filter_method(&vec![outer("expect"), inner("get"), outer("fetch")]),
        Err(AttributeError::NoRequest)
    );
}

#[test]
fn filter_method_refuses_duplicates() {
    assert_eq!(
        filter_method(&vec![outer("get"), outer("post")]),
        Err(AttributeError::Duplicate)
    );
    assert_eq!(
        filter_method(&vec![outer("get"), outer("get")]),
        Err(AttributeError::Duplicate)
    );
    assert_eq!(
        filter_method(&vec![outer("expect"), outer("expect")]),
        Err(AttributeError::Duplicate)
    );
    assert_eq!(
        filter_method(&vec![outer("expect"), outer("doc"), outer("expect"), outer("get")]),
        Err(AttributeError::Duplicate)
    );
}

#[test]
fn method_names() {
    for name in [
        "get", "post", "put", "delete", "head", "options", "connect", "patch", "trace",
    ] {
        assert!(method_name(name), "{}", name);
    }
    for name in ["GET", "expect", "", "fetch", "get "] {
        assert!(!method_name(name), "{}", name);
    }
}

#[test]
fn check_duplicate_wants_an_empty_slot() {
    assert_eq!(check_duplicate(&None), Ok(()));
    assert_eq!(check_duplicate(&Some(0)), Err(AttributeError::Duplicate));
}

#[test]
fn gen_args_from_both_lists() {
    let req = vec![text("path", "/api/user"), text("charset", "gbk")];
    let expect = vec![number("status", 201), text("content_type", "text/html")];
    let args = gen_args(&req, Some(&expect)).unwrap();
    assert_eq!(args.req.path(), "/api/user");
    assert_eq!(args.req.content_type().content_type(), "application/json");
    assert_eq!(args.req.content_type().charset(), "gbk");
    assert_eq!(args.expect.status(), 201);
    assert_eq!(args.expect.content_type().content_type(), "text/html");
    assert_eq!(args.expect.content_type().charset(), "utf-8");
    let args = gen_args(&req, None).unwrap();
    assert_eq!(args.req.path(), "/api/user");
    assert_eq!(args.expect.status(), 200);
    assert_eq!(args.expect.content_type().content_type(), "application/json");
    let err = gen_args(&req, Some(&vec![number("status", 42)])).unwrap_err();
    assert_eq!(err, AttributeError::InvalidStatus);
    let args = gen_args(&vec![number("status", 42)], None).unwrap();
    assert_eq!(args.req.path(), "/");
}

#[test]
fn attribute_messages() {
    assert_eq!(
        AttributeError::Duplicate.message("fetch"),
        "method `fetch` has duplicate attribute"
    );
    assert_eq!(
        AttributeError::NoRequest.message("fetch"),
        "method `fetch` has no request attribute"
    );
    assert_eq!(
        AttributeError::InvalidStatus.message("fetch"),
        "invalid status code: invalid status code"
    );
}
