//! The MP3 handler: applying a request to an ID3 tag.
//!
//! The tag structure itself belongs to the `id3` crate and is opaque here.
//! Two spec functions name what the logic reads of it: the text fields it
//! touches, and the stored front covers. The methods the logic calls stand
//! behind trusted wrappers whose contracts state, over those names, what the
//! crate's source does.

use vstd::prelude::*;
use id3::TagLike;
use crate::apply::{
    text_after, covers_replaced, title_key, artist_key, album_key, no_text_fields, no_pics,
};
use crate::mime::{image_kind_for_ext, mime_string};
use crate::request::TagRequest;

verus! {

#[verifier::external_type_specification]
#[verifier::external_body]
pub struct ExId3Tag(id3::Tag);

#[verifier::external_type_specification]
#[verifier::external_body]
pub struct ExId3Error(id3::Error);

/// The text fields of an ID3 tag that this library touches, as a map from
/// the field keys of [`crate::apply`] to the stored value: the title under
/// `title_key()` (the tag's last TIT2 frame), the artist under
/// `artist_key()` (TPE1), the album under `album_key()` (TALB). A key is
/// absent when the tag holds no such frame.
pub uninterp spec fn id3_text(t: id3::Tag) -> Map<int, Seq<char>>;

/// The front-cover pictures of an ID3 tag (the APIC frames whose picture
/// type is the front cover), in frame order, each as its MIME string and
/// its image bytes.
pub uninterp spec fn id3_front_covers(t: id3::Tag) -> Seq<(Seq<char>, Seq<u8>)>;

/// Relies on id3::Tag::new: a fresh tag holds no frames, so no text fields
/// and no front covers.
#[verifier::external_body]
fn id3_empty_tag() -> (t: id3::Tag)
    ensures
        id3_text(t) == no_text_fields(),
        id3_front_covers(t) == no_pics(),
{
    id3::Tag::new()
}

/// Relies on id3::TagLike::set_title: the new TIT2 text frame evicts any
/// conflicting TIT2 frame and is appended; frames with other identifiers,
/// the artist and album fields and all pictures among them, stay.
#[verifier::external_body]
fn id3_set_title(t: &mut id3::Tag, v: String)
    ensures
        id3_text(*final(t)) == id3_text(*old(t)).insert(title_key(), v@),
        id3_front_covers(*final(t)) == id3_front_covers(*old(t)),
{
    t.set_title(v)
}

/// Relies on id3::TagLike::set_artist: as `set_title`, for the TPE1 frame.
#[verifier::external_body]
fn id3_set_artist(t: &mut id3::Tag, v: String)
    ensures
        id3_text(*final(t)) == id3_text(*old(t)).insert(artist_key(), v@),
        id3_front_covers(*final(t)) == id3_front_covers(*old(t)),
{
    t.set_artist(v)
}

/// Relies on id3::TagLike::set_album: as `set_title`, for the TALB frame.
#[verifier::external_body]
fn id3_set_album(t: &mut id3::Tag, v: String)
    ensures
        id3_text(*final(t)) == id3_text(*old(t)).insert(album_key(), v@),
        id3_front_covers(*final(t)) == id3_front_covers(*old(t)),
{
    t.set_album(v)
}

/// Relies on id3::TagLike::add_frame: picture frames conflict exactly when
/// their picture type matches, so the new front cover evicts the first
/// stored front cover, whatever its description, and is appended at the
/// end; text frames do not conflict with it and stay.
#[verifier::external_body]
fn id3_add_cover(t: &mut id3::Tag, mime: String, data: Vec<u8>)
    ensures
        id3_front_covers(*final(t)) == covers_replaced(
            id3_front_covers(*old(t)),
            Option::Some((mime@, data@)),
        ),
        id3_text(*final(t)) == id3_text(*old(t)),
{
    let _ = t.add_frame(id3::frame::Picture {
        mime_type: mime,
        picture_type: id3::frame::PictureType::CoverFront,
        description: String::new(),
        data,
    });
}

/// The tag a mutation starts from: the tag an attempted read produced, or a
/// fresh empty tag when the read failed. A missing or unreadable tag is the
/// common case for a freshly copied file and is absorbed here, never
/// surfaced as an error.
pub fn tag_for_mutation(r: Result<id3::Tag, id3::Error>) -> (t: id3::Tag)
    ensures
        match r {
            Result::Ok(t0) => t == t0,
            Result::Err(_) => id3_text(t) == no_text_fields() && id3_front_covers(t) == no_pics(),
        },
{
    match r {
        Result::Ok(t0) => t0,
        Result::Err(_) => id3_empty_tag(),
    }
}

/// Applies a request to an ID3 tag: each non-empty text field overwrites the
/// stored value, each empty one leaves it untouched, and a present cover is
/// written as a front-cover picture with its inferred MIME type, replacing
/// the first stored front cover.
pub fn apply_request_mp3(tag: &mut id3::Tag, req: TagRequest)
    ensures
        id3_text(*final(tag)) == text_after(
            id3_text(*old(tag)),
            req.title@,
            req.artist@,
            req.album@,
        ),
        id3_front_covers(*final(tag)) == covers_replaced(
            id3_front_covers(*old(tag)),
            req.cover_pic(),
        ),
{
    let TagRequest { title, artist, album, cover } = req;
    if !title.as_str().is_empty() {
        id3_set_title(tag, title);
    }
    if !artist.as_str().is_empty() {
        id3_set_artist(tag, artist);
    }
    if !album.as_str().is_empty() {
        id3_set_album(tag, album);
    }
    match cover {
        Option::Some(c) => {
            let kind = image_kind_for_ext(c.ext.as_str());
            let mime = mime_string(kind);
            id3_add_cover(tag, mime, c.data);
        },
        Option::None => {},
    }
}

} // verus!
