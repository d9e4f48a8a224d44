//! The Opus handler: applying a request to the Vorbis comments of a probed
//! file.
//!
//! The probed file belongs to the `lofty` crate and is opaque here. Four spec
//! functions name what the logic reads of it: whether the file's primary tag
//! family is Vorbis comments, whether a primary tag is present, the text
//! items the library touches, and the attached pictures. The methods the
//! logic calls stand behind trusted wrappers whose contracts state, over
//! those names, what the crate's source does.

use vstd::prelude::*;
use lofty::file::TaggedFileExt;
use crate::apply::{text_after, pics_appended, title_key, artist_key, album_key};
use crate::mime::{image_kind_for_ext, mime_of_kind, ImageKind};
use crate::request::TagRequest;

verus! {

#[verifier::external_type_specification]
#[verifier::external_body]
pub struct ExTaggedFile(lofty::file::TaggedFile);

/// Whether the probed file's primary tag family is Vorbis comments: true
/// exactly for the Ogg-family container formats (FLAC, Opus, Vorbis,
/// Speex). Only for such a file will a fresh Vorbis-comment tag be accepted
/// as the primary tag.
pub uninterp spec fn vorbis_primary_family(f: lofty::file::TaggedFile) -> bool;

/// Whether the probed file carries a primary tag.
pub uninterp spec fn opus_has_primary(f: lofty::file::TaggedFile) -> bool;

/// The text items of the primary tag that this library touches, as a map
/// from the field keys of [`crate::apply`] to the stored value: the TITLE
/// item under `title_key()`, ARTIST under `artist_key()`, ALBUM under
/// `album_key()`. A key is absent when the tag holds no such item, and the
/// map is empty when the file has no primary tag.
pub uninterp spec fn opus_text(f: lofty::file::TaggedFile) -> Map<int, Seq<char>>;

/// The pictures attached to the primary tag, in order, each as its MIME
/// string and its image bytes; empty when the file has no primary tag.
pub uninterp spec fn opus_pictures(f: lofty::file::TaggedFile) -> Seq<(Seq<char>, Seq<u8>)>;

/// The one way the Opus handler fails: the probed file is not of the
/// Vorbis-comment container family, so no Vorbis-comment tag can become its
/// primary tag.
#[derive(Clone, Copy, PartialEq, Eq, Structural, Debug)]
pub enum TagError {
    NotVorbisFamily,
}

/// Relies on lofty::file::FileType::primary_tag_type: the file types whose
/// primary tag family is Vorbis comments are exactly Flac, Opus, Vorbis and
/// Speex.
#[verifier::external_body]
fn vorbis_family_check(f: &lofty::file::TaggedFile) -> (r: bool)
    ensures
        r == vorbis_primary_family(*f),
{
    matches!(
        f.file_type(),
        lofty::file::FileType::Flac
            | lofty::file::FileType::Opus
            | lofty::file::FileType::Vorbis
            | lofty::file::FileType::Speex
    )
}

/// Relies on lofty::file::TaggedFileExt::primary_tag: it finds the tag of
/// the file's primary tag type, if one is stored.
#[verifier::external_body]
fn has_primary_check(f: &lofty::file::TaggedFile) -> (r: bool)
    requires
        vorbis_primary_family(*f),
    ensures
        r == opus_has_primary(*f),
{
    f.primary_tag().is_some()
}

/// Relies on lofty::file::TaggedFileExt::insert_tag and lofty::tag::Tag::new:
/// a file of the Vorbis-comment family accepts a fresh Vorbis-comment tag,
/// which becomes its primary tag; the fresh tag holds no items and no
/// pictures, so the text and picture models — both empty while the file had
/// no primary tag — are unchanged.
#[verifier::external_body]
fn insert_empty_vorbis(f: &mut lofty::file::TaggedFile)
    requires
        vorbis_primary_family(*old(f)),
        !opus_has_primary(*old(f)),
    ensures
        vorbis_primary_family(*final(f)),
        opus_has_primary(*final(f)),
        opus_text(*final(f)) == opus_text(*old(f)),
        opus_pictures(*final(f)) == opus_pictures(*old(f)),
{
    let _ = f.insert_tag(lofty::tag::Tag::new(lofty::tag::TagType::VorbisComments));
}

/// Relies on lofty::tag::Tag::insert_text reached through primary_tag_mut:
/// on a Vorbis-comment primary tag the title key maps, so the new value
/// replaces every stored item of that key; other items and the pictures
/// stay.
#[verifier::external_body]
fn primary_set_title(f: &mut lofty::file::TaggedFile, v: String)
    requires
        vorbis_primary_family(*old(f)),
        opus_has_primary(*old(f)),
    ensures
        vorbis_primary_family(*final(f)),
        opus_has_primary(*final(f)),
        opus_text(*final(f)) == opus_text(*old(f)).insert(title_key(), v@),
        opus_pictures(*final(f)) == opus_pictures(*old(f)),
{
    let _ = f.primary_tag_mut().unwrap().insert_text(lofty::tag::ItemKey::TrackTitle, v);
}

/// Relies on lofty::tag::Tag::insert_text, as `primary_set_title`, for the
/// artist key.
#[verifier::external_body]
fn primary_set_artist(f: &mut lofty::file::TaggedFile, v: String)
    requires
        vorbis_primary_family(*old(f)),
        opus_has_primary(*old(f)),
    ensures
        vorbis_primary_family(*final(f)),
        opus_has_primary(*final(f)),
        opus_text(*final(f)) == opus_text(*old(f)).insert(artist_key(), v@),
        opus_pictures(*final(f)) == opus_pictures(*old(f)),
{
    let _ = f.primary_tag_mut().unwrap().insert_text(lofty::tag::ItemKey::TrackArtist, v);
}

/// Relies on lofty::tag::Tag::insert_text, as `primary_set_title`, for the
/// album key.
#[verifier::external_body]
fn primary_set_album(f: &mut lofty::file::TaggedFile, v: String)
    requires
        vorbis_primary_family(*old(f)),
        opus_has_primary(*old(f)),
    ensures
        vorbis_primary_family(*final(f)),
        opus_has_primary(*final(f)),
        opus_text(*final(f)) == opus_text(*old(f)).insert(album_key(), v@),
        opus_pictures(*final(f)) == opus_pictures(*old(f)),
{
    let _ = f.primary_tag_mut().unwrap().insert_text(lofty::tag::ItemKey::AlbumTitle, v);
}

/// Relies on lofty::tag::Tag::push_picture reached through primary_tag_mut:
/// the front-cover picture is appended to the primary tag's pictures, with
/// no eviction; the text items stay.
#[verifier::external_body]
fn primary_push_cover(f: &mut lofty::file::TaggedFile, kind: ImageKind, data: Vec<u8>)
    requires
        vorbis_primary_family(*old(f)),
        opus_has_primary(*old(f)),
    ensures
        vorbis_primary_family(*final(f)),
        opus_has_primary(*final(f)),
        opus_text(*final(f)) == opus_text(*old(f)),
        opus_pictures(*final(f)) == opus_pictures(*old(f)).push((mime_of_kind(kind), data@)),
{
    let mime = match kind {
        ImageKind::Png => lofty::picture::MimeType::Png,
        ImageKind::Jpeg => lofty::picture::MimeType::Jpeg,
    };
    let pic = lofty::picture::Picture::unchecked(data).pic_type(
        lofty::picture::PictureType::CoverFront,
    ).mime_type(mime).build();
    f.primary_tag_mut().unwrap().push_picture(pic);
}

/// Applies a request to the primary Vorbis-comment tag of a probed file,
/// inserting an empty tag first when the file has none: each non-empty text
/// field overwrites the stored item, each empty one leaves it untouched,
/// and a present cover is appended as one more front-cover picture. Fails,
/// leaving the file untouched, exactly when the file is not of the
/// Vorbis-comment container family.
pub fn apply_request_opus(f: &mut lofty::file::TaggedFile, req: TagRequest) -> (r: Result<
    (),
    TagError,
>)
    ensures
        r is Ok <==> vorbis_primary_family(*old(f)),
        r is Ok ==> opus_text(*final(f)) == text_after(
            opus_text(*old(f)),
            req.title@,
            req.artist@,
            req.album@,
        ),
        r is Ok ==> opus_pictures(*final(f)) == pics_appended(
            opus_pictures(*old(f)),
            req.cover_pic(),
        ),
        r is Err ==> r == Result::<(), TagError>::Err(TagError::NotVorbisFamily) && *final(f)
            == *old(f),
{
    if !vorbis_family_check(f) {
        return Result::Err(TagError::NotVorbisFamily);
    }
    if !has_primary_check(f) {
        insert_empty_vorbis(f);
    }
    let TagRequest { title, artist, album, cover } = req;
    if !title.as_str().is_empty() {
        primary_set_title(f, title);
    }
    if !artist.as_str().is_empty() {
        primary_set_artist(f, artist);
    }
    if !album.as_str().is_empty() {
        primary_set_album(f, album);
    }
    match cover {
        Option::Some(c) => {
            let kind = image_kind_for_ext(c.ext.as_str());
            primary_push_cover(f, kind, c.data);
        },
        Option::None => {},
    }
    Result::Ok(())
}

} // verus!
