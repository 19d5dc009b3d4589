//! A quiet root-span strategy for HTTP request tracing.
//!
//! The strategy decides which fields a request's span carries when the request
//! starts and which are recorded when it ends. Every decision is made on plain
//! values and proved against a model of the span: the ordered list of field
//! records that the span has been given.

pub mod builder;
pub mod forward;
pub mod method;
pub mod request;
pub mod span;
pub mod version;

pub use builder::{handle_error, NoiselessRootSpanBuilder, DEFAULT_ROUTE, SPAN_NAME, STATUS_OK};
pub use method::{http_method_str, method_label, Method};
pub use request::{ErrorReport, Outcome, RequestHead};
pub use span::{Field, Level, Record, RequestSpan, Value};
pub use version::{flavor_label, http_flavor, Version};
