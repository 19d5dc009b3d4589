//! The span of one request, as the ordered list of records it has been given.
//!
//! A span is named, has a severity, and carries fields. A field is declared by
//! a record with an empty value and set by a record with a text or an integer;
//! once set it can be overwritten, never emptied or removed.

use vstd::prelude::*;

verus! {

/// The fields that a request's span can carry.
#[derive(Debug, Clone, Copy, PartialEq, Eq, Structural, Hash)]
pub enum Field {
    HttpMethod,
    HttpRoute,
    HttpFlavor,
    HttpStatusCode,
    ExceptionMessage,
    ExceptionDetails,
    OtelStatusCode,
}

impl Field {
    /// The dotted name under which the field is recorded.
    pub open spec fn name_text(self) -> Seq<char> {
        match self {
            Field::HttpMethod => "http.method"@,
            Field::HttpRoute => "http.route"@,
            Field::HttpFlavor => "http.flavor"@,
            Field::HttpStatusCode => "http.status_code"@,
            Field::ExceptionMessage => "exception.message"@,
            Field::ExceptionDetails => "exception.details"@,
            Field::OtelStatusCode => "otel.status_code"@,
        }
    }

    /// Returns the dotted name under which the field is recorded.
    pub fn name(self) -> (name: &'static str)
        ensures
            name@ == self.name_text(),
    {
        match self {
            Field::HttpMethod => "http.method",
            Field::HttpRoute => "http.route",
            Field::HttpFlavor => "http.flavor",
            Field::HttpStatusCode => "http.status_code",
            Field::ExceptionMessage => "exception.message",
            Field::ExceptionDetails => "exception.details",
            Field::OtelStatusCode => "otel.status_code",
        }
    }
}

/// The severity of a span.
#[derive(Debug, Clone, Copy, PartialEq, Eq, Structural, Hash)]
pub enum Level {
    Trace,
    Debug,
    Info,
    Warn,
    Error,
}

/// What a record gives a field.
#[derive(Debug, Clone, PartialEq, Eq)]
pub enum Value {
    /// Nothing yet: the field is declared so that it can be set later.
    Empty,
    /// A text that is already fully formatted.
    Text(String),
    /// An integer.
    Integer(i32),
}

/// The mathematical value of a [`Value`].
pub enum ValueView {
    Empty,
    Text(Seq<char>),
    Integer(i32),
}

impl View for Value {
    type V = ValueView;

    open spec fn view(&self) -> ValueView {
        match *self {
            Value::Empty => ValueView::Empty,
            Value::Text(text) => ValueView::Text(text@),
            Value::Integer(number) => ValueView::Integer(number),
        }
    }
}

impl Value {
    /// Tells whether the value is [`Value::Empty`].
    pub fn is_empty(&self) -> (empty: bool)
        ensures
            empty == (self@ is Empty),
    {
        match self {
            Value::Empty => true,
            _ => false,
        }
    }
}

/// One record: a field and the value it is given.
#[derive(Debug, Clone, PartialEq, Eq)]
pub struct Record {
    pub field: Field,
    pub value: Value,
}

/// The mathematical value of a [`Record`].
pub struct RecordView {
    pub field: Field,
    pub value: ValueView,
}

impl View for Record {
    type V = RecordView;

    open spec fn view(&self) -> RecordView {
        RecordView { field: self.field, value: self.value@ }
    }
}

/// The records of a list, each by its view and in the same order.
pub open spec fn records_view(records: Seq<Record>) -> Seq<RecordView> {
    Seq::new(records.len(), |i: int| records[i]@)
}

/// What `field` holds after `records`, in order: nothing if no record names
/// it, else the value of the last record that set it, else empty.
pub open spec fn current(records: Seq<RecordView>, field: Field) -> Option<ValueView>
    decreases records.len(),
{
    if records.len() == 0 {
        None
    } else {
        after_record(current(records.drop_last(), field), records.last(), field)
    }
}

/// What `field` holds once `record` has followed a list after which it held
/// `earlier`.
pub open spec fn after_record(
    earlier: Option<ValueView>,
    record: RecordView,
    field: Field,
) -> Option<ValueView> {
    if record.field != field {
        earlier
    } else if record.value is Empty && earlier is Some {
        earlier
    } else {
        Some(record.value)
    }
}

/// How many records of `records` set `field`, that is, name it with a value
/// that is not empty.
pub open spec fn times_set(records: Seq<RecordView>, field: Field) -> nat
    decreases records.len(),
{
    if records.len() == 0 {
        0
    } else {
        times_set(records.drop_last(), field) + sets(records.last(), field)
    }
}

/// 1 if `record` sets `field`, else 0.
pub open spec fn sets(record: RecordView, field: Field) -> nat {
    if record.field == field && !(record.value is Empty) {
        1
    } else {
        0
    }
}

/// One more record changes what a field holds by [`after_record`].
pub proof fn lemma_current_push(records: Seq<RecordView>, record: RecordView, field: Field)
    ensures
        current(records.push(record), field) == after_record(
            current(records, field),
            record,
            field,
        ),
{
    assert(records.push(record).drop_last() =~= records);
}

/// One more record adds [`sets`] to the number of times a field was set.
pub proof fn lemma_times_set_push(records: Seq<RecordView>, record: RecordView, field: Field)
    ensures
        times_set(records.push(record), field) == times_set(records, field) + sets(record, field),
{
    assert(records.push(record).drop_last() =~= records);
}

/// Further records never remove a field from a span and never empty one that
/// was set: a field that is there stays there, one that holds a value still
/// holds a value, and the number of times it was set does not fall.
pub proof fn lemma_never_removed(records: Seq<RecordView>, more: Seq<RecordView>, field: Field)
    ensures
        current(records, field) is Some ==> current(records + more, field) is Some,
        times_set(records, field) <= times_set(records + more, field),
        (current(records, field) matches Some(value) && !(value is Empty)) ==> (current(
            records + more,
            field,
        ) matches Some(value) && !(value is Empty)),
    decreases more.len(),
{
    if more.len() == 0 {
        assert(records + more =~= records);
    } else {
        lemma_never_removed(records, more.drop_last(), field);
        assert((records + more).drop_last() =~= records + more.drop_last());
    }
}

/// The severity and name of a span together with its records.
pub struct SpanView {
    pub name: Seq<char>,
    pub level: Level,
    pub records: Seq<RecordView>,
}

/// The span of one request.
#[derive(Debug, Clone, PartialEq, Eq)]
pub struct RequestSpan {
    pub name: String,
    pub level: Level,
    pub records: Vec<Record>,
}

impl View for RequestSpan {
    type V = SpanView;

    open spec fn view(&self) -> SpanView {
        SpanView { name: self.name@, level: self.level, records: records_view(self.records@) }
    }
}

impl RequestSpan {
    /// Returns a span of the given name and severity that has no record yet.
    pub fn new(name: &str, level: Level) -> (span: RequestSpan)
        ensures
            span@ == (SpanView { name: name@, level: level, records: Seq::empty() }),
    {
        let span = RequestSpan { name: name.to_owned(), level: level, records: Vec::new() };
        assert(records_view(span.records@) =~= Seq::empty());
        span
    }

    /// Gives `field` the value `value`, as the span's next record.
    pub fn record(&mut self, field: Field, value: Value)
        ensures
            final(self)@ == (SpanView {
                records: old(self)@.records.push(RecordView { field: field, value: value@ }),
                ..old(self)@
            }),
    {
        self.records.push(Record { field: field, value: value });
        assert(records_view(self.records@) =~= records_view(old(self).records@).push(
            RecordView { field: field, value: value@ },
        ));
    }

    /// Returns what `field` holds: `None` if the span never declared it, the
    /// empty value if it was declared and never set, else the value it was
    /// last set to.
    pub fn value(&self, field: Field) -> (held: Option<&Value>)
        ensures
            match held {
                Some(value) => current(self@.records, field) == Some(value@),
                None => current(self@.records, field) is None,
            },
    {
        let ghost all = self@.records;
        let mut found: Option<usize> = None;
        let mut i: usize = 0;
        assert(all.take(0) =~= Seq::empty());
        while i < self.records.len()
            invariant
                all == self@.records,
                all.len() == self.records@.len(),
                i <= self.records@.len(),
                match found {
                    Some(k) => k < i && current(all.take(i as int), field) == Some(all[k as int].value),
                    None => current(all.take(i as int), field) is None,
                },
            decreases self.records@.len() - i,
        {
            let record = &self.records[i];
            proof {
                assert(all.take(i + 1) =~= all.take(i as int).push(all[i as int]));
                lemma_current_push(all.take(i as int), all[i as int], field);
            }
            if record.field == field && (!record.value.is_empty() || found.is_none()) {
                found = Some(i);
            }
            i = i + 1;
        }
        assert(all.take(i as int) =~= all);
        match found {
            Some(k) => Some(&self.records[k].value),
            None => None,
        }
    }

    /// Returns how many of the span's records set `field`.
    pub fn times_set(&self, field: Field) -> (count: usize)
        ensures
            count == times_set(self@.records, field),
    {
        let ghost all = self@.records;
        let mut count: usize = 0;
        let mut i: usize = 0;
        assert(all.take(0) =~= Seq::empty());
        while i < self.records.len()
            invariant
                all == self@.records,
                all.len() == self.records@.len(),
                i <= self.records@.len(),
                count <= i,
                count == times_set(all.take(i as int), field),
            decreases self.records@.len() - i,
        {
            let record = &self.records[i];
            proof {
                assert(all.take(i + 1) =~= all.take(i as int).push(all[i as int]));
                lemma_times_set_push(all.take(i as int), all[i as int], field);
            }
            if record.field == field && !record.value.is_empty() {
                count = count + 1;
            }
            i = i + 1;
        }
        assert(all.take(i as int) =~= all);
        count
    }
}

} // verus!
