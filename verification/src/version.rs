//! Protocol versions and the flavor label under which a span carries them.

use vstd::prelude::*;

verus! {

/// The protocol version of a request.
#[derive(Debug, Clone, PartialEq, Eq)]
pub enum Version {
    Http09,
    Http10,
    Http11,
    Http2,
    Http3,
    /// A version outside the five above, with the debug text of its value.
    Other(String),
}

impl Version {
    /// A version outside the five recognized ones carries a debug text that is
    /// not empty.
    pub open spec fn is_well_formed(self) -> bool {
        match self {
            Version::Other(text) => text@.len() > 0,
            _ => true,
        }
    }
}

/// The flavor label of a version: a fixed `major.minor` literal for each of the
/// five recognized versions, and the debug text of any other.
pub open spec fn flavor_label(version: Version) -> Seq<char> {
    match version {
        Version::Http09 => "0.9"@,
        Version::Http10 => "1.0"@,
        Version::Http11 => "1.1"@,
        Version::Http2 => "2.0"@,
        Version::Http3 => "3.0"@,
        Version::Other(text) => text@,
    }
}

/// Every well-formed version has a flavor label that is not empty.
pub proof fn lemma_flavor_label_not_empty(version: Version)
    requires
        version.is_well_formed(),
    ensures
        flavor_label(version).len() > 0,
{
    reveal_strlit("0.9");
    reveal_strlit("1.0");
    reveal_strlit("1.1");
    reveal_strlit("2.0");
    reveal_strlit("3.0");
}

/// Returns the flavor label of `version` as an owned string.
pub fn http_flavor(version: &Version) -> (label: String)
    ensures
        label@ == flavor_label(*version),
        version.is_well_formed() ==> label@.len() > 0,
{
    proof {
        if version.is_well_formed() {
            lemma_flavor_label_not_empty(*version);
        }
    }
    match version {
        Version::Http09 => "0.9".to_owned(),
        Version::Http10 => "1.0".to_owned(),
        Version::Http11 => "1.1".to_owned(),
        Version::Http2 => "2.0".to_owned(),
        Version::Http3 => "3.0".to_owned(),
        Version::Other(text) => text.clone(),
    }
}

} // verus!
