//! MIME inference for cover images, from the image file's extension.

use vstd::prelude::*;
use crate::text::{lower, eq_ignore_case, lemma_lower_idempotent};

verus! {

/// The two image flavours a cover can be attached as: a `png` extension
/// (in any letter case) means PNG, anything else falls back to JPEG.
#[derive(Clone, Copy, PartialEq, Eq, Structural, Debug)]
pub enum ImageKind {
    Png,
    Jpeg,
}

/// The image kind inferred from a cover file's extension.
pub open spec fn kind_of_ext(ext: Seq<char>) -> ImageKind {
    if lower(ext) == "png"@ {
        ImageKind::Png
    } else {
        ImageKind::Jpeg
    }
}

/// The MIME string each image kind is written as.
pub open spec fn mime_of_kind(k: ImageKind) -> Seq<char> {
    match k {
        ImageKind::Png => "image/png"@,
        ImageKind::Jpeg => "image/jpeg"@,
    }
}

/// The MIME string inferred from a cover file's extension.
pub open spec fn mime_of_ext(ext: Seq<char>) -> Seq<char> {
    mime_of_kind(kind_of_ext(ext))
}

/// A sequence whose characters are all outside 'A'..'Z' is its own
/// lower-case form.
proof fn lemma_lower_fixes(s: Seq<char>)
    requires
        forall|i: int| 0 <= i < s.len() ==> !('A' <= s[i] && s[i] <= 'Z'),
    ensures
        lower(s) == s,
{
    assert(lower(s) =~= s);
}

/// Infers the image kind from the cover file's extension, in any letter case.
pub fn image_kind_for_ext(ext: &str) -> (k: ImageKind)
    ensures
        k == kind_of_ext(ext@),
{
    proof {
        reveal_strlit("png");
        lemma_lower_fixes("png"@);
    }
    if eq_ignore_case(ext, "png") {
        ImageKind::Png
    } else {
        ImageKind::Jpeg
    }
}

/// The MIME string for an image kind, as written into a tag.
pub fn mime_string(k: ImageKind) -> (s: String)
    ensures
        s@ == mime_of_kind(k),
{
    match k {
        ImageKind::Png => String::from_str("image/png"),
        ImageKind::Jpeg => String::from_str("image/jpeg"),
    }
}

/// MIME inference only sees the lower-cased extension: `PNG` and `png`
/// infer the same kind.
pub proof fn lemma_mime_case_insensitive(ext: Seq<char>)
    ensures
        kind_of_ext(lower(ext)) == kind_of_ext(ext),
{
    lemma_lower_idempotent(ext);
}

} // verus!
