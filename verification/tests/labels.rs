use noiseless_tracing::{http_flavor, http_method_str, Method, Version};

#[test]
fn standard_methods_have_uppercase_labels() {
    assert_eq!(http_method_str(&Method::Options), "OPTIONS");
    assert_eq!(http_method_str(&Method::Get), "GET");
    assert_eq!(http_method_str(&Method::Post), "POST");
    assert_eq!(http_method_str(&Method::Put), "PUT");
    assert_eq!(http_method_str(&Method::Delete), "DELETE");
    assert_eq!(http_method_str(&Method::Head), "HEAD");
    assert_eq!(http_method_str(&Method::Trace), "TRACE");
    assert_eq!(http_method_str(&Method::Connect), "CONNECT");
    assert_eq!(http_method_str(&Method::Patch), "PATCH");
}

#[test]
fn extension_method_keeps_its_token() {
    assert_eq!(http_method_str(&Method::Extension("PROPFIND".to_string())), "PROPFIND");
    assert_eq!(http_method_str(&Method::Extension("get".to_string())), "get");
    assert_eq!(http_method_str(&Method::Extension(String::new())), "");
}

#[test]
fn standard_tokens_name_standard_methods() {
    assert_eq!(Method::from_token("OPTIONS"), Method::Options);
    assert_eq!(Method::from_token("GET"), Method::Get);
    assert_eq!(Method::from_token("POST"), Method::Post);
    assert_eq!(Method::from_token("PUT"), Method::Put);
    assert_eq!(Method::from_token("DELETE"), Method::Delete);
    assert_eq!(Method::from_token("HEAD"), Method::Head);
    assert_eq!(Method::from_token("TRACE"), Method::Trace);
    assert_eq!(Method::from_token("CONNECT"), Method::Connect);
    assert_eq!(Method::from_token("PATCH"), Method::Patch);
}

#[test]
fn other_tokens_name_extensions() {
    assert_eq!(Method::from_token("PROPFIND"), Method::Extension("PROPFIND".to_string()));
    assert_eq!(Method::from_token("get"), Method::Extension("get".to_string()));
    assert_eq!(Method::from_token("GETS"), Method::Extension("GETS".to_string()));
    assert_eq!(Method::from_token("GE"), Method::Extension("GE".to_string()));
    assert_eq!(Method::from_token(""), Method::Extension(String::new()));
}

#[test]
fn label_of_a_token_is_the_token() {
    for token in ["GET", "PATCH", "OPTIONS", "M-SEARCH", "get", "Post", "x"] {
        assert_eq!(http_method_str(&Method::from_token(token)), token);
    }
}

#[test]
fn recognized_versions_have_fixed_flavors() {
    assert_eq!(http_flavor(&Version::Http09), "0.9");
    assert_eq!(http_flavor(&Version::Http10), "1.0");
    assert_eq!(http_flavor(&Version::Http11), "1.1");
    assert_eq!(http_flavor(&Version::Http2), "2.0");
    assert_eq!(http_flavor(&Version::Http3), "3.0");
}

#[test]
fn other_version_falls_back_to_its_debug_text() {
    let flavor = http_flavor(&Version::Other("HTTP/4.0".to_string()));
    assert_eq!(flavor, "HTTP/4.0");
    assert!(!flavor.is_empty());
}
