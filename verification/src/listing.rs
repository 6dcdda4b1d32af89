//! The lines of the list of capture backends.

use vstd::prelude::*;
use vstd::string::StringExecFns;
use crate::text::same_text;

verus! {

/// The line for a backend: a mark, then the backend's name. The mark is
/// `[*]` for the backend that is in use and `[ ]` for the others.
pub open spec fn spec_backend_line(name: Seq<char>, selected: Seq<char>) -> Seq<char> {
    if name == selected {
        "[*] ffmpeg "@ + name
    } else {
        "[ ] ffmpeg "@ + name
    }
}

/// The line that lists the backend `name` where `selected` is in use.
pub fn backend_line(name: &str, selected: &str) -> (line: String)
    ensures
        line@ == spec_backend_line(name@, selected@),
{
    let mut line = if same_text(name, selected) {
        "[*] ffmpeg ".to_owned()
    } else {
        "[ ] ffmpeg ".to_owned()
    };
    line.append(name);
    line
}

} // verus!
