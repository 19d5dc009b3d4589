use noiseless_tracing::{
    handle_error, ErrorReport, Field, Level, Method, NoiselessRootSpanBuilder, Outcome, Record,
    RequestHead, RequestSpan, Value, Version,
};

fn text(field: Field, value: &str) -> Record {
    Record { field, value: Value::Text(value.to_string()) }
}

fn empty(field: Field) -> Record {
    Record { field, value: Value::Empty }
}

fn status(code: i32) -> Record {
    Record { field: Field::HttpStatusCode, value: Value::Integer(code) }
}

fn not_found_error() -> ErrorReport {
    ErrorReport {
        message: "no such user".to_string(),
        details: "NotFound { user: 7 }".to_string(),
        status_code: 404,
    }
}

fn get_request() -> RequestHead {
    RequestHead { route: None, method: Method::Get, version: Version::Http11 }
}

#[test]
fn start_sets_three_fields_and_declares_three() {
    let request = RequestHead {
        route: Some("/users/{id}".to_string()),
        method: Method::Post,
        version: Version::Http2,
    };
    let span = NoiselessRootSpanBuilder::on_request_start(&request);
    assert_eq!(span.name, "HTTP request");
    assert_eq!(span.level, Level::Info);
    assert_eq!(
        span.records,
        vec![
            text(Field::HttpMethod, "POST"),
            text(Field::HttpRoute, "/users/{id}"),
            text(Field::HttpFlavor, "2.0"),
            empty(Field::HttpStatusCode),
            empty(Field::ExceptionMessage),
            empty(Field::ExceptionDetails),
        ]
    );
    assert_eq!(span.value(Field::HttpStatusCode), Some(&Value::Empty));
    assert_eq!(span.value(Field::ExceptionMessage), Some(&Value::Empty));
    assert_eq!(span.value(Field::ExceptionDetails), Some(&Value::Empty));
    assert_eq!(span.value(Field::OtelStatusCode), None);
    assert_eq!(span.times_set(Field::HttpStatusCode), 0);
}

#[test]
fn start_without_route_uses_default() {
    let span = NoiselessRootSpanBuilder::on_request_start(&get_request());
    assert_eq!(span.value(Field::HttpRoute), Some(&Value::Text("default".to_string())));
}

#[test]
fn start_with_unusual_method_and_version() {
    let request = RequestHead {
        route: Some(String::new()),
        method: Method::Extension("PURGE".to_string()),
        version: Version::Other("HTTP/9.9".to_string()),
    };
    let span = NoiselessRootSpanBuilder::on_request_start(&request);
    assert_eq!(span.value(Field::HttpMethod), Some(&Value::Text("PURGE".to_string())));
    assert_eq!(span.value(Field::HttpRoute), Some(&Value::Text(String::new())));
    assert_eq!(span.value(Field::HttpFlavor), Some(&Value::Text("HTTP/9.9".to_string())));
}

#[test]
fn end_of_plain_response_records_status_and_marker() {
    let mut span = RequestSpan::new("HTTP request", Level::Info);
    let outcome = Outcome::Response { status_code: 201, error: None };
    NoiselessRootSpanBuilder::on_request_end(&mut span, &outcome);
    assert_eq!(span.records, vec![status(201), text(Field::OtelStatusCode, "OK")]);
    assert_eq!(span.value(Field::ExceptionMessage), None);
    assert_eq!(span.value(Field::ExceptionDetails), None);
    assert_eq!(span.name, "HTTP request");
    assert_eq!(span.level, Level::Info);
}

#[test]
fn end_of_response_with_error_uses_the_status_of_the_response() {
    let mut span = RequestSpan::new("HTTP request", Level::Info);
    let outcome = Outcome::Response { status_code: 422, error: Some(not_found_error()) };
    NoiselessRootSpanBuilder::on_request_end(&mut span, &outcome);
    assert_eq!(
        span.records,
        vec![
            text(Field::ExceptionMessage, "no such user"),
            text(Field::ExceptionDetails, "NotFound { user: 7 }"),
            status(422),
        ]
    );
    assert_eq!(span.value(Field::OtelStatusCode), None);
}

#[test]
fn end_of_failure_uses_the_status_of_the_error() {
    let mut span = RequestSpan::new("HTTP request", Level::Info);
    let outcome = Outcome::Failure(not_found_error());
    NoiselessRootSpanBuilder::on_request_end(&mut span, &outcome);
    assert_eq!(
        span.records,
        vec![
            text(Field::ExceptionMessage, "no such user"),
            text(Field::ExceptionDetails, "NotFound { user: 7 }"),
            status(404),
        ]
    );
    assert_eq!(span.value(Field::OtelStatusCode), None);
}

#[test]
fn handle_error_records_texts_then_status() {
    let mut span = RequestSpan::new("probe", Level::Warn);
    span.record(Field::HttpMethod, Value::Text("GET".to_string()));
    let error = ErrorReport {
        message: "boom".to_string(),
        details: "Boom(\"boom\")".to_string(),
        status_code: 500,
    };
    handle_error(&mut span, 418, &error);
    assert_eq!(
        span.records,
        vec![
            text(Field::HttpMethod, "GET"),
            text(Field::ExceptionMessage, "boom"),
            text(Field::ExceptionDetails, "Boom(\"boom\")"),
            status(418),
        ]
    );
    assert_eq!(span.name, "probe");
    assert_eq!(span.level, Level::Warn);
}

#[test]
fn status_is_set_once_on_every_path() {
    let outcomes = vec![
        Outcome::Response { status_code: 200, error: None },
        Outcome::Response { status_code: 400, error: Some(not_found_error()) },
        Outcome::Failure(not_found_error()),
    ];
    for outcome in outcomes {
        let mut span = NoiselessRootSpanBuilder::on_request_start(&get_request());
        assert_eq!(span.times_set(Field::HttpStatusCode), 0);
        NoiselessRootSpanBuilder::on_request_end(&mut span, &outcome);
        assert_eq!(span.times_set(Field::HttpStatusCode), 1);
    }
}

#[test]
fn exception_fields_are_set_exactly_with_an_error() {
    let mut plain = NoiselessRootSpanBuilder::on_request_start(&get_request());
    NoiselessRootSpanBuilder::on_request_end(
        &mut plain,
        &Outcome::Response { status_code: 204, error: None },
    );
    assert_eq!(plain.times_set(Field::ExceptionMessage), 0);
    assert_eq!(plain.times_set(Field::ExceptionDetails), 0);

    let mut failed = NoiselessRootSpanBuilder::on_request_start(&get_request());
    NoiselessRootSpanBuilder::on_request_end(&mut failed, &Outcome::Failure(not_found_error()));
    assert_eq!(failed.times_set(Field::ExceptionMessage), 1);
    assert_eq!(failed.times_set(Field::ExceptionDetails), 1);
    assert_eq!(failed.value(Field::ExceptionMessage), Some(&Value::Text("no such user".to_string())));
    assert_eq!(
        failed.value(Field::ExceptionDetails),
        Some(&Value::Text("NotFound { user: 7 }".to_string()))
    );
    assert_eq!(failed.value(Field::HttpStatusCode), Some(&Value::Integer(404)));
}

#[test]
fn end_leaves_start_fields_alone() {
    let mut span = NoiselessRootSpanBuilder::on_request_start(&get_request());
    NoiselessRootSpanBuilder::on_request_end(&mut span, &Outcome::Failure(not_found_error()));
    assert_eq!(span.value(Field::HttpMethod), Some(&Value::Text("GET".to_string())));
    assert_eq!(span.value(Field::HttpRoute), Some(&Value::Text("default".to_string())));
    assert_eq!(span.value(Field::HttpFlavor), Some(&Value::Text("1.1".to_string())));
    assert_eq!(span.times_set(Field::HttpMethod), 1);
}

#[test]
fn get_without_route_ending_in_plain_404() {
    let mut span = NoiselessRootSpanBuilder::on_request_start(&get_request());
    let outcome = Outcome::Response { status_code: 404, error: None };
    NoiselessRootSpanBuilder::on_request_end(&mut span, &outcome);
    assert_eq!(span.value(Field::HttpMethod), Some(&Value::Text("GET".to_string())));
    assert_eq!(span.value(Field::HttpFlavor), Some(&Value::Text("1.1".to_string())));
    assert_eq!(span.value(Field::HttpRoute), Some(&Value::Text("default".to_string())));
    assert_eq!(span.value(Field::HttpStatusCode), Some(&Value::Integer(404)));
    assert_eq!(span.value(Field::ExceptionMessage), Some(&Value::Empty));
    assert_eq!(span.value(Field::ExceptionDetails), Some(&Value::Empty));
    assert_eq!(span.value(Field::OtelStatusCode), Some(&Value::Text("OK".to_string())));
}

#[test]
fn largest_status_code_is_kept() {
    let mut span = RequestSpan::new("HTTP request", Level::Info);
    let outcome = Outcome::Response { status_code: u16::MAX, error: None };
    NoiselessRootSpanBuilder::on_request_end(&mut span, &outcome);
    assert_eq!(span.value(Field::HttpStatusCode), Some(&Value::Integer(65535)));
}
