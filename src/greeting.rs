use vstd::prelude::*;

use crate::append_bytes;
use vstd::string::StringSliceAdditionalSpecFns;
use vstd::utf8::valid_utf8;

verus! {

/// The bytes of a greeting for `name`: a fixed opening, the name, a fixed closing.
pub open spec fn greeting_bytes(name: Seq<u8>) -> Seq<u8> {
    "Hello, ".spec_bytes() + name + "! Greetings from Rust backend.".spec_bytes()
}

/// The bytes of the line reported when a name is not well-formed UTF-8.
pub open spec fn invalid_name_line() -> Seq<u8> {
    "Invalid UTF-8 in name".spec_bytes()
}

/// The diagnostic is one non-empty line: it holds no line feed.
pub proof fn lemma_invalid_name_line_single_line()
    ensures
        invalid_name_line().len() > 0,
        !invalid_name_line().contains(10u8),
{
    broadcast use vstd::string::is_ascii_spec_bytes;

    reveal_strlit("Invalid UTF-8 in name");
    assert(vstd::string::is_ascii("Invalid UTF-8 in name"));
}

/// The byte count of a greeting: the name's bytes and thirty-seven of the fixed text.
pub proof fn lemma_greeting_length(name: Seq<u8>)
    ensures
        greeting_bytes(name).len() == name.len() + 37,
{
    broadcast use vstd::string::is_ascii_spec_bytes;

    reveal_strlit("Hello, ");
    reveal_strlit("! Greetings from Rust backend.");
    assert(vstd::string::is_ascii("Hello, "));
    assert(vstd::string::is_ascii("! Greetings from Rust backend."));
}

/// Relies on std::str::from_utf8: it accepts a byte slice exactly when the bytes are
/// well-formed UTF-8, and then views those same bytes as a string slice.
#[verifier::external_body]
fn decode_utf8(bytes: &[u8]) -> (r: Option<&str>)
    ensures
        r is Some <==> valid_utf8(bytes@),
        r matches Some(s) ==> s.spec_bytes() == bytes@,
{
    std::str::from_utf8(bytes).ok()
}

/// Builds the greeting for a name that is already known to be text.
pub fn compose_greeting(name: &str) -> (r: Vec<u8>)
    ensures
        r@ == greeting_bytes(name.spec_bytes()),
{
    let mut out: Vec<u8> = Vec::new();
    append_bytes(&mut out, "Hello, ".as_bytes());
    append_bytes(&mut out, name.as_bytes());
    append_bytes(&mut out, "! Greetings from Rust backend.".as_bytes());
    out
}

/// Why a name could not be greeted.
#[derive(Clone, Copy, Debug, PartialEq, Eq, Structural)]
pub enum GreetFailure {
    /// No name buffer was given.
    NullInput,
    /// The name's bytes are not well-formed UTF-8.
    InvalidEncoding,
}

/// What a greeting request yields: the value handed back to the caller, and the
/// line to emit, if any.
pub struct GreetReply {
    pub length: usize,
    pub line: Option<Vec<u8>>,
}

/// Validates a name buffer and builds its greeting.
pub fn greeting_for(name: Option<&[u8]>) -> (r: Result<Vec<u8>, GreetFailure>)
    ensures
        match name {
            None => r matches Err(GreetFailure::NullInput),
            Some(b) => if valid_utf8(b@) {
                r matches Ok(g) && g@ == greeting_bytes(b@)
            } else {
                r matches Err(GreetFailure::InvalidEncoding)
            },
        },
{
    match name {
        None => Err(GreetFailure::NullInput),
        Some(b) => match decode_utf8(b) {
            Some(text) => Ok(compose_greeting(text)),
            None => Err(GreetFailure::InvalidEncoding),
        },
    }
}

/// Greets a name given as an optional byte buffer. An absent buffer yields 0 and no
/// line; bytes that are not UTF-8 yield 0 and the diagnostic line; otherwise the
/// greeting is the line and its byte length is the value.
pub fn greet(name: Option<&[u8]>) -> (r: GreetReply)
    ensures
        match name {
            None => r.length == 0 && r.line is None,
            Some(b) => if valid_utf8(b@) {
                &&& r.length == greeting_bytes(b@).len()
                &&& r.length > 0
                &&& r.line matches Some(l) && l@ == greeting_bytes(b@)
            } else {
                r.length == 0 && (r.line matches Some(l) && l@ == invalid_name_line())
            },
        },
{
    proof {
        if let Some(b) = name {
            lemma_greeting_length(b@);
        }
    }
    match greeting_for(name) {
        Ok(g) => GreetReply { length: g.len(), line: Some(g) },
        Err(GreetFailure::NullInput) => GreetReply { length: 0, line: None },
        Err(GreetFailure::InvalidEncoding) => {
            let mut line: Vec<u8> = Vec::new();
            append_bytes(&mut line, "Invalid UTF-8 in name".as_bytes());
            GreetReply { length: 0, line: Some(line) }
        },
    }
}

} // verus!
