use vstd::prelude::*;

verus! {

/// Errors reported by the generator.
#[derive(Debug)]
pub enum Error {
    /// Template, rendering, configuration or file errors.
    Message(String),
    /// Errors reported by the Zenkit API client.
    Zenkit(String),
}

/// What `format!("{:?}", s)` gives for a string: the text quoted, with
/// special characters escaped.
pub uninterp spec fn debug_quoted_of(s: Seq<char>) -> Seq<char>;

/// Relies on the `Debug` impl of `str`: the text between double quotes, with
/// escapes; it depends on the characters alone.
#[verifier::external_body]
fn debug_quoted(s: &str) -> (r: String)
    ensures
        r@ == debug_quoted_of(s@),
{
    format!("{:?}", s)
}

impl Error {
    /// The message carried by either variant.
    pub open spec fn text(&self) -> Seq<char> {
        match self {
            Error::Message(s) => s@,
            Error::Zenkit(s) => s@,
        }
    }

    /// Human-readable form of the error: its message in debug (quoted) form.
    pub fn describe(&self) -> (r: String)
        ensures
            r@ == debug_quoted_of(self.text()),
    {
        match self {
            Error::Message(s) => debug_quoted(s.as_str()),
            Error::Zenkit(s) => debug_quoted(s.as_str()),
        }
    }
}

} // verus!
