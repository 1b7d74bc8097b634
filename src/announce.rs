use vstd::prelude::*;
use vstd::string::StringSliceAdditionalSpecFns;

use crate::append_bytes;

verus! {

/// The bytes of the fixed announcement line, without its line terminator.
pub open spec fn announcement_line() -> Seq<u8> {
    "Hello World from Rust!".spec_bytes()
}

/// The announcement is one non-empty line: it holds no line feed.
pub proof fn lemma_announcement_single_line()
    ensures
        announcement_line().len() > 0,
        !announcement_line().contains(10u8),
{
    broadcast use vstd::string::is_ascii_spec_bytes;

    reveal_strlit("Hello World from Rust!");
    assert(vstd::string::is_ascii("Hello World from Rust!"));
}

/// The line that announces the library, the same on every call.
pub fn hello_world() -> (r: Vec<u8>)
    ensures
        r@ == announcement_line(),
{
    let mut out: Vec<u8> = Vec::new();
    append_bytes(&mut out, "Hello World from Rust!".as_bytes());
    out
}

} // verus!
