use rustwebserver::environment::{
    build_environment, header_text, script_environment, Environment, Header,
};

fn header(name: &str, value: &[u8]) -> Header {
    Header { name: name.to_string(), value: value.to_vec() }
}

fn text(value: &str) -> Option<String> {
    Some(value.to_string())
}

#[test]
fn set_replaces_and_get_finds() {
    let mut env = Environment::new();
    assert_eq!(env.len(), 0);
    assert_eq!(env.get("a"), None);
    env.set("a".to_string(), "1".to_string());
    env.set("b".to_string(), "x".to_string());
    env.set("a".to_string(), "2".to_string());
    assert_eq!(env.len(), 2);
    assert_eq!(env.get("a"), text("2"));
    assert_eq!(env.get("b"), text("x"));
    assert_eq!(env.get("A"), None);
    assert_eq!(
        env.into_pairs(),
        vec![("a".to_string(), "2".to_string()), ("b".to_string(), "x".to_string())]
    );
}

#[test]
fn header_text_takes_visible_bytes_only() {
    assert_eq!(header_text(&b"text/html".to_vec()), "text/html");
    assert_eq!(header_text(&b"a\tb ~".to_vec()), "a\tb ~");
    assert_eq!(header_text(&Vec::new()), "");
    assert_eq!(header_text(&vec![b'a', 0x7f]), "");
    assert_eq!(header_text(&vec![b'a', 0x1f, b'b']), "");
    assert_eq!(header_text(&vec![b'a', 0xc3, 0xbc]), "");
    assert_eq!(header_text(&vec![b'o', b'k', b'\n']), "");
}

#[test]
fn headers_method_and_path_become_variables() {
    let headers = vec![header("host", b"example.org"), header("x-bad", &[0xff, 0xfe])];
    let env = build_environment(&headers, "GET", "/scripts/run.sh", &Vec::new());
    assert_eq!(env.get("host"), text("example.org"));
    assert_eq!(env.get("x-bad"), text(""));
    assert_eq!(env.get("Method"), text("GET"));
    assert_eq!(env.get("Path"), text("/scripts/run.sh"));
    assert_eq!(env.len(), 4);
}

#[test]
fn method_and_path_override_headers_of_their_name() {
    let headers = vec![header("Method", b"spoofed"), header("Path", b"/spoofed")];
    let env = build_environment(&headers, "POST", "/scripts/a", &Vec::new());
    assert_eq!(env.get("Method"), text("POST"));
    assert_eq!(env.get("Path"), text("/scripts/a"));
    assert_eq!(env.len(), 2);
}

#[test]
fn repeated_header_keeps_last_value() {
    let headers = vec![header("accept", b"a"), header("accept", b"b")];
    let env = build_environment(&headers, "GET", "/", &Vec::new());
    assert_eq!(env.get("accept"), text("b"));
}

#[test]
fn query_parameters_are_prefixed() {
    let pairs = vec![
        ("name".to_string(), "v".to_string()),
        ("".to_string(), "empty".to_string()),
    ];
    let env = build_environment(&Vec::new(), "GET", "/", &pairs);
    assert_eq!(env.get("Query_name"), text("v"));
    assert_eq!(env.get("Query_"), text("empty"));
    assert_eq!(env.get("name"), None);
}

#[test]
fn query_variable_can_replace_a_header_of_its_name() {
    let headers = vec![header("Query_a", b"from-header")];
    let pairs = vec![("a".to_string(), "from-query".to_string())];
    let env = build_environment(&headers, "GET", "/", &pairs);
    assert_eq!(env.get("Query_a"), text("from-query"));
}

#[test]
fn repeated_query_key_keeps_last_value() {
    let env = script_environment(&Vec::new(), "POST", "/scripts/run.sh", &text("a=1&a=2"));
    assert_eq!(env.get("Query_a"), text("2"));
    assert_eq!(env.len(), 3);
}

#[test]
fn query_string_is_decoded_as_a_form() {
    let env = script_environment(
        &Vec::new(),
        "GET",
        "/scripts/run.sh",
        &text("%23first=%25try%25&two+words=a+b&flag&&k=v=w"),
    );
    assert_eq!(env.get("Query_#first"), text("%try%"));
    assert_eq!(env.get("Query_two words"), text("a b"));
    assert_eq!(env.get("Query_flag"), text(""));
    assert_eq!(env.get("Query_k"), text("v=w"));
    assert_eq!(env.len(), 6);
}

#[test]
fn absent_and_empty_query_add_nothing() {
    let none = script_environment(&Vec::new(), "GET", "/x", &None);
    assert_eq!(none.len(), 2);
    let empty = script_environment(&Vec::new(), "GET", "/x", &text(""));
    assert_eq!(empty.len(), 2);
}

#[test]
fn header_text_agrees_with_the_transport_on_every_byte() {
    for b in 0..=255u8 {
        let value = vec![b'a', b, b'z'];
        if let Ok(parsed) = hyper::header::HeaderValue::from_bytes(&value) {
            assert_eq!(header_text(&value), parsed.to_str().unwrap_or(""), "byte {}", b);
        }
    }
}
