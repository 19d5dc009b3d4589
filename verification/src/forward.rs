//! Handing the records of a span on to a span of the `tracing` crate.

use vstd::prelude::*;
use crate::span::{RecordView, RequestSpan, Value};

verus! {

/// `tracing::Span`, the handle of a span in the `tracing` crate. What is
/// behind the handle cannot be seen from here.
#[verifier::external_type_specification]
#[verifier::external_body]
pub struct ExTracingSpan(tracing::Span);

/// Calls `tracing::Span::record` on `span` with the field named `field` and
/// with `text` wrapped by `tracing::field::display`, so that a subscriber gets
/// the text as it is. Nothing is claimed of the call: the span does not say
/// whether it has such a field, nor what its subscriber does with the value.
#[verifier::external_body]
fn span_record_text(span: &tracing::Span, field: &str, text: &str) {
    span.record(field, tracing::field::display(text));
}

/// Calls `tracing::Span::record` on `span` with the field named `field` and
/// the integer `number`. Nothing is claimed of the call, as for a text.
#[verifier::external_body]
fn span_record_integer(span: &tracing::Span, field: &str, number: i32) {
    span.record(field, number);
}

/// How many records of `records` carry a value, whatever their field.
pub open spec fn values_in(records: Seq<RecordView>) -> nat
    decreases records.len(),
{
    if records.len() == 0 {
        0
    } else if records.last().value is Empty {
        values_in(records.drop_last())
    } else {
        values_in(records.drop_last()) + 1
    }
}

impl RequestSpan {
    /// Hands each record that carries a value to `span`, in the order of the
    /// records and under the name of its field, and returns how many it
    /// handed over. Records with an empty value are passed over: a field of
    /// `span` is declared when `span` is created, or not at all.
    pub fn forward_to(&self, span: &tracing::Span) -> (forwarded: usize)
        ensures
            forwarded == values_in(self@.records),
    {
        let ghost all = self@.records;
        let mut forwarded: usize = 0;
        let mut i: usize = 0;
        assert(all.take(0) =~= Seq::empty());
        while i < self.records.len()
            invariant
                all == self@.records,
                all.len() == self.records@.len(),
                i <= self.records@.len(),
                forwarded <= i,
                forwarded == values_in(all.take(i as int)),
            decreases self.records@.len() - i,
        {
            let record = &self.records[i];
            proof {
                assert(all.take(i + 1).drop_last() =~= all.take(i as int));
            }
            match &record.value {
                Value::Empty => {},
                Value::Text(text) => {
                    span_record_text(span, record.field.name(), text.as_str());
                    forwarded = forwarded + 1;
                },
                Value::Integer(number) => {
                    span_record_integer(span, record.field.name(), *number);
                    forwarded = forwarded + 1;
                },
            }
            i = i + 1;
        }
        assert(all.take(i as int) =~= all);
        forwarded
    }
}

} // verus!
