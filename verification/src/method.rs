//! Request methods and the label under which a span carries them.

use vstd::prelude::*;

verus! {

/// An HTTP request method: one of the nine standard methods, or any other
/// token exactly as the client sent it.
#[derive(Debug, Clone, PartialEq, Eq)]
pub enum Method {
    Options,
    Get,
    Post,
    Put,
    Delete,
    Head,
    Trace,
    Connect,
    Patch,
    /// A method outside the nine standard ones, with its token verbatim.
    Extension(String),
}

/// The label of a method: the uppercase token of a standard method, and the
/// token itself, unchanged, for any other.
pub open spec fn method_label(method: Method) -> Seq<char> {
    match method {
        Method::Options => "OPTIONS"@,
        Method::Get => "GET"@,
        Method::Post => "POST"@,
        Method::Put => "PUT"@,
        Method::Delete => "DELETE"@,
        Method::Head => "HEAD"@,
        Method::Trace => "TRACE"@,
        Method::Connect => "CONNECT"@,
        Method::Patch => "PATCH"@,
        Method::Extension(token) => token@,
    }
}

/// Compares two string slices with `eq` of `str`, std's equality of string
/// slices: it holds exactly if the two are the same sequence of characters.
#[verifier::external_body]
fn same_text(left: &str, right: &str) -> (same: bool)
    ensures
        same == (left@ == right@),
{
    left.eq(right)
}

/// The method that a token names: the standard method of that exact
/// uppercase token, if there is one.
pub open spec fn standard_method(token: Seq<char>) -> Option<Method> {
    if token == "OPTIONS"@ {
        Some(Method::Options)
    } else if token == "GET"@ {
        Some(Method::Get)
    } else if token == "POST"@ {
        Some(Method::Post)
    } else if token == "PUT"@ {
        Some(Method::Put)
    } else if token == "DELETE"@ {
        Some(Method::Delete)
    } else if token == "HEAD"@ {
        Some(Method::Head)
    } else if token == "TRACE"@ {
        Some(Method::Trace)
    } else if token == "CONNECT"@ {
        Some(Method::Connect)
    } else if token == "PATCH"@ {
        Some(Method::Patch)
    } else {
        None
    }
}

/// Each standard method is the one that its own label names, so that no two
/// of the nine labels are the same.
pub proof fn lemma_standard_labels_differ()
    ensures
        standard_method("OPTIONS"@) == Some(Method::Options),
        standard_method("GET"@) == Some(Method::Get),
        standard_method("POST"@) == Some(Method::Post),
        standard_method("PUT"@) == Some(Method::Put),
        standard_method("DELETE"@) == Some(Method::Delete),
        standard_method("HEAD"@) == Some(Method::Head),
        standard_method("TRACE"@) == Some(Method::Trace),
        standard_method("CONNECT"@) == Some(Method::Connect),
        standard_method("PATCH"@) == Some(Method::Patch),
{
    reveal_strlit("OPTIONS");
    reveal_strlit("GET");
    reveal_strlit("POST");
    reveal_strlit("PUT");
    reveal_strlit("DELETE");
    reveal_strlit("HEAD");
    reveal_strlit("TRACE");
    reveal_strlit("CONNECT");
    reveal_strlit("PATCH");
    assert("OPTIONS"@.len() == 7 && "CONNECT"@.len() == 7);
    assert("DELETE"@.len() == 6);
    assert("TRACE"@.len() == 5 && "PATCH"@.len() == 5);
    assert("POST"@.len() == 4 && "HEAD"@.len() == 4);
    assert("GET"@.len() == 3 && "PUT"@.len() == 3);
    // Labels of the same length differ in their first character.
    assert("OPTIONS"@[0] != "CONNECT"@[0]);
    assert("TRACE"@[0] != "PATCH"@[0]);
    assert("POST"@[0] != "HEAD"@[0]);
    assert("GET"@[0] != "PUT"@[0]);
}

impl Method {
    /// Returns the method that a request line names by `token`: a standard
    /// method for its exact uppercase token, and an extension that keeps the
    /// token for any other. The label of the result is the token again.
    pub fn from_token(token: &str) -> (method: Method)
        ensures
            match standard_method(token@) {
                Some(standard) => method == standard,
                None => method matches Method::Extension(kept) && kept@ == token@,
            },
            method_label(method) == token@,
    {
        if same_text(token, "OPTIONS") {
            Method::Options
        } else if same_text(token, "GET") {
            Method::Get
        } else if same_text(token, "POST") {
            Method::Post
        } else if same_text(token, "PUT") {
            Method::Put
        } else if same_text(token, "DELETE") {
            Method::Delete
        } else if same_text(token, "HEAD") {
            Method::Head
        } else if same_text(token, "TRACE") {
            Method::Trace
        } else if same_text(token, "CONNECT") {
            Method::Connect
        } else if same_text(token, "PATCH") {
            Method::Patch
        } else {
            Method::Extension(token.to_owned())
        }
    }
}

/// Returns the label of `method` as an owned string.
pub fn http_method_str(method: &Method) -> (label: String)
    ensures
        label@ == method_label(*method),
{
    match method {
        Method::Options => "OPTIONS".to_owned(),
        Method::Get => "GET".to_owned(),
        Method::Post => "POST".to_owned(),
        Method::Put => "PUT".to_owned(),
        Method::Delete => "DELETE".to_owned(),
        Method::Head => "HEAD".to_owned(),
        Method::Trace => "TRACE".to_owned(),
        Method::Connect => "CONNECT".to_owned(),
        Method::Patch => "PATCH".to_owned(),
        Method::Extension(token) => token.clone(),
    }
}

} // verus!
