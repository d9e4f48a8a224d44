//! Routing a file to a tag handler by its extension.

use vstd::prelude::*;
use crate::text::{lower, eq_ignore_case, lemma_lower_idempotent};

verus! {

/// The tag families the library can mutate. An extension outside this set
/// routes nowhere and the file is to be left untouched.
#[derive(Clone, Copy, PartialEq, Eq, Structural, Debug)]
pub enum Format {
    Mp3,
    Opus,
}

/// The handler an extension routes to: `mp3` (in any letter case) routes to
/// the MP3 handler, `opus` to the Opus handler, anything else to none.
pub open spec fn format_of(ext: Seq<char>) -> Option<Format> {
    if lower(ext) == "mp3"@ {
        Some(Format::Mp3)
    } else if lower(ext) == "opus"@ {
        Some(Format::Opus)
    } else {
        None
    }
}

proof fn lemma_literals_lower()
    ensures
        lower("mp3"@) == "mp3"@,
        lower("opus"@) == "opus"@,
{
    reveal_strlit("mp3");
    reveal_strlit("opus");
    assert(lower("mp3"@) =~= "mp3"@);
    assert(lower("opus"@) =~= "opus"@);
}

/// Routes a file extension to the handler that will mutate its tag, or to
/// `None` when the extension is not a supported format.
pub fn format_for_extension(ext: &str) -> (r: Option<Format>)
    ensures
        r == format_of(ext@),
{
    proof {
        lemma_literals_lower();
    }
    if eq_ignore_case(ext, "mp3") {
        Some(Format::Mp3)
    } else if eq_ignore_case(ext, "opus") {
        Some(Format::Opus)
    } else {
        None
    }
}

/// Routing is case-insensitive: an extension and its lower-cased form route
/// to the same handler.
pub proof fn lemma_route_case_insensitive(ext: Seq<char>)
    ensures
        format_of(lower(ext)) == format_of(ext),
{
    lemma_lower_idempotent(ext);
}

/// Two extensions with the same lower-cased form route to the same handler.
pub proof fn lemma_route_same_fold(e1: Seq<char>, e2: Seq<char>)
    requires
        lower(e1) == lower(e2),
    ensures
        format_of(e1) == format_of(e2),
{
}

} // verus!
