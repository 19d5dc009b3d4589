//! The strategy: which records a span gets when its request starts and ends.

use vstd::prelude::*;
use crate::method::{http_method_str, method_label};
use crate::request::{ErrorReport, Outcome, RequestHead};
use crate::span::{
    after_record, current, lemma_current_push, lemma_times_set_push, sets, times_set, Field,
    Level, RecordView, RequestSpan, SpanView, Value, ValueView,
};
use crate::version::{flavor_label, http_flavor};

verus! {

/// The name of every span that the strategy creates.
pub const SPAN_NAME: &'static str = "HTTP request";

/// The route of a request whose routing has resolved no pattern.
pub const DEFAULT_ROUTE: &'static str = "default";

/// The marker that a request without an error leaves in `otel.status_code`.
pub const STATUS_OK: &'static str = "OK";

/// The route label of a request: the matched pattern, or `"default"`.
pub open spec fn route_label(route: Option<String>) -> Seq<char> {
    match route {
        Some(pattern) => pattern@,
        None => "default"@,
    }
}

/// A record that sets `field` to a text.
pub open spec fn text_record(field: Field, text: Seq<char>) -> RecordView {
    RecordView { field: field, value: ValueView::Text(text) }
}

/// A record that declares `field` and leaves it empty.
pub open spec fn empty_record(field: Field) -> RecordView {
    RecordView { field: field, value: ValueView::Empty }
}

/// A record that sets `http.status_code`.
pub open spec fn status_record(status_code: u16) -> RecordView {
    RecordView { field: Field::HttpStatusCode, value: ValueView::Integer(status_code as i32) }
}

/// The records of a span when its request starts: method, route and flavor
/// are set; status code, exception message and exception details are declared
/// and left empty.
pub open spec fn start_records(request: RequestHead) -> Seq<RecordView> {
    seq![
        text_record(Field::HttpMethod, method_label(request.method)),
        text_record(Field::HttpRoute, route_label(request.route)),
        text_record(Field::HttpFlavor, flavor_label(request.version)),
        empty_record(Field::HttpStatusCode),
        empty_record(Field::ExceptionMessage),
        empty_record(Field::ExceptionDetails),
    ]
}

/// The records that an error adds to a span: its message, its details, then
/// the status code.
pub open spec fn error_records(status_code: u16, error: ErrorReport) -> Seq<RecordView> {
    seq![
        text_record(Field::ExceptionMessage, error.message@),
        text_record(Field::ExceptionDetails, error.details@),
        status_record(status_code),
    ]
}

/// The records that the end of a request adds to its span.
pub open spec fn end_records(outcome: Outcome) -> Seq<RecordView> {
    match outcome.error() {
        Some(error) => error_records(outcome.resolved_status(), error),
        None => seq![
            status_record(outcome.resolved_status()),
            text_record(Field::OtelStatusCode, "OK"@),
        ],
    }
}

/// What the fields hold after the records of a starting request: method,
/// route and flavor hold their labels; status code, exception message and
/// exception details are declared and empty, and were never set; the success
/// marker is not there.
pub open spec fn fields_at_start(records: Seq<RecordView>, request: RequestHead) -> bool {
    &&& current(records, Field::HttpMethod) == Some(ValueView::Text(method_label(request.method)))
    &&& current(records, Field::HttpRoute) == Some(ValueView::Text(route_label(request.route)))
    &&& current(records, Field::HttpFlavor) == Some(
        ValueView::Text(flavor_label(request.version)),
    )
    &&& current(records, Field::HttpStatusCode) == Some(ValueView::Empty)
    &&& current(records, Field::ExceptionMessage) == Some(ValueView::Empty)
    &&& current(records, Field::ExceptionDetails) == Some(ValueView::Empty)
    &&& current(records, Field::OtelStatusCode) is None
    &&& times_set(records, Field::HttpStatusCode) == 0
    &&& times_set(records, Field::ExceptionMessage) == 0
    &&& times_set(records, Field::ExceptionDetails) == 0
    &&& times_set(records, Field::OtelStatusCode) == 0
}

/// What the end of a request does to the fields of its span, `before` being
/// the records that the span had and `after` those that it has then.
///
/// The status code is set once more, to the status that the outcome resolves
/// to. With an error, message and details are set once more, to the error's
/// two texts, and the success marker is left as it was. Without one, message
/// and details are left as they were, and the success marker is `"OK"`.
/// Method, route and flavor are left as they were.
pub open spec fn fields_at_end(
    before: Seq<RecordView>,
    after: Seq<RecordView>,
    outcome: Outcome,
) -> bool {
    &&& current(after, Field::HttpStatusCode) == Some(
        ValueView::Integer(outcome.resolved_status() as i32),
    )
    &&& times_set(after, Field::HttpStatusCode) == times_set(before, Field::HttpStatusCode) + 1
    &&& match outcome.error() {
        Some(error) => {
            &&& current(after, Field::ExceptionMessage) == Some(ValueView::Text(error.message@))
            &&& current(after, Field::ExceptionDetails) == Some(ValueView::Text(error.details@))
            &&& times_set(after, Field::ExceptionMessage) == times_set(
                before,
                Field::ExceptionMessage,
            ) + 1
            &&& times_set(after, Field::ExceptionDetails) == times_set(
                before,
                Field::ExceptionDetails,
            ) + 1
            &&& untouched(before, after, Field::OtelStatusCode)
        },
        None => {
            &&& untouched(before, after, Field::ExceptionMessage)
            &&& untouched(before, after, Field::ExceptionDetails)
            &&& current(after, Field::OtelStatusCode) == Some(ValueView::Text("OK"@))
            &&& times_set(after, Field::OtelStatusCode) == times_set(
                before,
                Field::OtelStatusCode,
            ) + 1
        },
    }
    &&& untouched(before, after, Field::HttpMethod)
    &&& untouched(before, after, Field::HttpRoute)
    &&& untouched(before, after, Field::HttpFlavor)
}

/// `field` holds after `after` what it held after `before`, and was set as
/// many times.
pub open spec fn untouched(before: Seq<RecordView>, after: Seq<RecordView>, field: Field) -> bool {
    &&& current(after, field) == current(before, field)
    &&& times_set(after, field) == times_set(before, field)
}

/// The records of a starting request leave the fields as [`fields_at_start`]
/// says.
pub proof fn lemma_start_fields(request: RequestHead)
    ensures
        fields_at_start(start_records(request), request),
{
    let r0 = text_record(Field::HttpMethod, method_label(request.method));
    let r1 = text_record(Field::HttpRoute, route_label(request.route));
    let r2 = text_record(Field::HttpFlavor, flavor_label(request.version));
    let r3 = empty_record(Field::HttpStatusCode);
    let r4 = empty_record(Field::ExceptionMessage);
    let r5 = empty_record(Field::ExceptionDetails);
    let s0 = Seq::<RecordView>::empty();
    let s3 = s0.push(r0).push(r1).push(r2);
    let s6 = s3.push(r3).push(r4).push(r5);
    assert(s6 =~= start_records(request));
    assert forall|field: Field|
        #[trigger] current(s6, field) == after_record(
            after_record(
                after_record(
                    after_record(after_record(after_record(None, r0, field), r1, field), r2, field),
                    r3,
                    field,
                ),
                r4,
                field,
            ),
            r5,
            field,
        ) && times_set(s6, field) == sets(r0, field) + sets(r1, field) + sets(r2, field) by {
        lemma_three_more(s0, r0, r1, r2, field);
        lemma_three_more(s3, r3, r4, r5, field);
    }
}

/// Whatever records a span had, those of an ending request change its fields
/// as [`fields_at_end`] says.
pub proof fn lemma_end_fields(before: Seq<RecordView>, outcome: Outcome)
    ensures
        fields_at_end(before, before + end_records(outcome), outcome),
{
    let after = before + end_records(outcome);
    match outcome.error() {
        Some(error) => {
            let r0 = text_record(Field::ExceptionMessage, error.message@);
            let r1 = text_record(Field::ExceptionDetails, error.details@);
            let r2 = status_record(outcome.resolved_status());
            assert(after =~= before.push(r0).push(r1).push(r2));
            assert forall|field: Field|
                #[trigger] current(after, field) == after_record(
                    after_record(after_record(current(before, field), r0, field), r1, field),
                    r2,
                    field,
                ) && times_set(after, field) == times_set(before, field) + sets(r0, field) + sets(
                    r1,
                    field,
                ) + sets(r2, field) by {
                lemma_three_more(before, r0, r1, r2, field);
            }
        },
        None => {
            let r0 = status_record(outcome.resolved_status());
            let r1 = text_record(Field::OtelStatusCode, "OK"@);
            assert(after =~= before.push(r0).push(r1));
            assert forall|field: Field|
                #[trigger] current(after, field) == after_record(
                    after_record(current(before, field), r0, field),
                    r1,
                    field,
                ) && times_set(after, field) == times_set(before, field) + sets(r0, field) + sets(
                    r1,
                    field,
                ) by {
                lemma_current_push(before, r0, field);
                lemma_current_push(before.push(r0), r1, field);
                lemma_times_set_push(before, r0, field);
                lemma_times_set_push(before.push(r0), r1, field);
            }
        },
    }
}

/// From its start to its end a request sets the status code of its span
/// exactly once, to the status that its outcome resolves to, and sets the
/// exception message and details exactly if the outcome carries an error.
/// Method, route and flavor still hold the labels of the request.
pub proof fn lemma_request_fields(request: RequestHead, outcome: Outcome)
    ensures
        ({
            let records = start_records(request) + end_records(outcome);
            &&& times_set(records, Field::HttpStatusCode) == 1
            &&& current(records, Field::HttpStatusCode) == Some(
                ValueView::Integer(outcome.resolved_status() as i32),
            )
            &&& times_set(records, Field::ExceptionMessage) == (if outcome.error() is Some {
                1nat
            } else {
                0nat
            })
            &&& times_set(records, Field::ExceptionDetails) == times_set(
                records,
                Field::ExceptionMessage,
            )
            &&& outcome.error() is None ==> current(records, Field::ExceptionMessage) == Some(
                ValueView::Empty,
            ) && current(records, Field::ExceptionDetails) == Some(ValueView::Empty)
            &&& current(records, Field::HttpMethod) == Some(
                ValueView::Text(method_label(request.method)),
            )
            &&& current(records, Field::HttpRoute) == Some(
                ValueView::Text(route_label(request.route)),
            )
            &&& current(records, Field::HttpFlavor) == Some(
                ValueView::Text(flavor_label(request.version)),
            )
        }),
{
    lemma_start_fields(request);
    lemma_end_fields(start_records(request), outcome);
}

/// Three more records change what a field holds, and how often it was set,
/// one after the other.
proof fn lemma_three_more(
    records: Seq<RecordView>,
    r0: RecordView,
    r1: RecordView,
    r2: RecordView,
    field: Field,
)
    ensures
        current(records.push(r0).push(r1).push(r2), field) == after_record(
            after_record(after_record(current(records, field), r0, field), r1, field),
            r2,
            field,
        ),
        times_set(records.push(r0).push(r1).push(r2), field) == times_set(records, field) + sets(
            r0,
            field,
        ) + sets(r1, field) + sets(r2, field),
{
    lemma_current_push(records, r0, field);
    lemma_current_push(records.push(r0), r1, field);
    lemma_current_push(records.push(r0).push(r1), r2, field);
    lemma_times_set_push(records, r0, field);
    lemma_times_set_push(records.push(r0), r1, field);
    lemma_times_set_push(records.push(r0).push(r1), r2, field);
}

/// A root-span strategy that records little: three fields when a request
/// starts, and its status code, with the error if there was one, when it ends.
#[derive(Debug, Clone, Copy, PartialEq, Eq)]
pub struct NoiselessRootSpanBuilder;

impl NoiselessRootSpanBuilder {
    /// Creates the span of a request: named `"HTTP request"`, of informational
    /// severity, with the records of [`start_records`].
    pub fn on_request_start(request: &RequestHead) -> (span: RequestSpan)
        ensures
            span@ == (SpanView {
                name: "HTTP request"@,
                level: Level::Info,
                records: start_records(*request),
            }),
            fields_at_start(span@.records, *request),
            request.route is None ==> current(span@.records, Field::HttpRoute) == Some(
                ValueView::Text("default"@),
            ),
    {
        let http_route = match &request.route {
            Some(pattern) => pattern.clone(),
            None => DEFAULT_ROUTE.to_owned(),
        };
        let http_method = http_method_str(&request.method);
        let http_flavor = http_flavor(&request.version);

        let mut span = RequestSpan::new(SPAN_NAME, Level::Info);
        span.record(Field::HttpMethod, Value::Text(http_method));
        span.record(Field::HttpRoute, Value::Text(http_route));
        span.record(Field::HttpFlavor, Value::Text(http_flavor));
        span.record(Field::HttpStatusCode, Value::Empty);
        span.record(Field::ExceptionMessage, Value::Empty);
        span.record(Field::ExceptionDetails, Value::Empty);
        proof {
            assert(span@.records =~= start_records(*request));
            lemma_start_fields(*request);
        }
        span
    }

    /// Records how the request of `span` ended: the records of
    /// [`end_records`] follow those that the span had.
    pub fn on_request_end(span: &mut RequestSpan, outcome: &Outcome)
        ensures
            final(span)@ == (SpanView {
                records: old(span)@.records + end_records(*outcome),
                ..old(span)@
            }),
            fields_at_end(old(span)@.records, final(span)@.records, *outcome),
    {
        proof {
            lemma_end_fields(span@.records, *outcome);
        }
        match outcome {
            Outcome::Response { status_code, error: Some(error) } => {
                handle_error(span, *status_code, error);
            },
            Outcome::Response { status_code, error: None } => {
                let code: i32 = *status_code as i32;
                span.record(Field::HttpStatusCode, Value::Integer(code));
                span.record(Field::OtelStatusCode, Value::Text(STATUS_OK.to_owned()));
                assert(span@.records =~= old(span)@.records + end_records(*outcome));
            },
            Outcome::Failure(error) => {
                handle_error(span, error.status_code, error);
            },
        }
    }
}

/// Records an error on `span`: the message and the details, both already
/// formatted, then the status code.
pub fn handle_error(span: &mut RequestSpan, status_code: u16, error: &ErrorReport)
    ensures
        final(span)@ == (SpanView {
            records: old(span)@.records + error_records(status_code, *error),
            ..old(span)@
        }),
{
    let display = error.message.clone();
    let debug = error.details.clone();
    span.record(Field::ExceptionMessage, Value::Text(display));
    span.record(Field::ExceptionDetails, Value::Text(debug));
    let code: i32 = status_code as i32;
    span.record(Field::HttpStatusCode, Value::Integer(code));
    assert(span@.records =~= old(span)@.records + error_records(status_code, *error));
}

} // verus!
