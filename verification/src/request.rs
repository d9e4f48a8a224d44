//! The request a caller hands to a tag handler.

use vstd::prelude::*;
use crate::mime::mime_of_ext;

verus! {

/// A cover image to attach: the raw bytes of the image file, and the
/// extension of the path it was read from, which the MIME type is
/// inferred from.
pub struct CoverArt {
    pub ext: String,
    pub data: Vec<u8>,
}

/// The fields to rewrite on a tag. An empty text field means "leave the
/// stored value untouched", not "clear it": this interface has no way to
/// erase an existing value. A present cover is attached as a front-cover
/// picture.
pub struct TagRequest {
    pub title: String,
    pub artist: String,
    pub album: String,
    pub cover: Option<CoverArt>,
}

impl TagRequest {
    /// The cover as it will be written: its inferred MIME string and its
    /// bytes, or `None` when the request carries no cover.
    pub open spec fn cover_pic(&self) -> Option<(Seq<char>, Seq<u8>)> {
        match self.cover {
            Option::Some(c) => Option::Some((mime_of_ext(c.ext@), c.data@)),
            Option::None => Option::None,
        }
    }
}

} // verus!
