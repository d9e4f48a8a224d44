//! The format-agnostic model of one tag mutation.
//!
//! A tag's text fields are modelled as a map from a field key to the stored
//! value, and its attached pictures as a sequence of (MIME string, bytes)
//! pairs. Both handlers state their effect through the functions here, so the
//! laws proved below hold of each of them.

use vstd::prelude::*;

verus! {

/// The key the title field is stored under in the text-field model.
pub open spec fn title_key() -> int {
    0
}

/// The key the artist field is stored under in the text-field model.
pub open spec fn artist_key() -> int {
    1
}

/// The key the album field is stored under in the text-field model.
pub open spec fn album_key() -> int {
    2
}

/// The text-field model of a tag that holds none of the modelled fields.
pub open spec fn no_text_fields() -> Map<int, Seq<char>> {
    Map::empty()
}

/// The picture model of a tag that holds no pictures.
pub open spec fn no_pics() -> Seq<(Seq<char>, Seq<u8>)> {
    Seq::empty()
}

/// The text fields of a tag after a request is applied: each non-empty
/// request field overwrites the stored value, each empty one leaves the
/// map untouched.
pub open spec fn text_after(
    m: Map<int, Seq<char>>,
    title: Seq<char>,
    artist: Seq<char>,
    album: Seq<char>,
) -> Map<int, Seq<char>> {
    let m1 = if title.len() > 0 {
        m.insert(title_key(), title)
    } else {
        m
    };
    let m2 = if artist.len() > 0 {
        m1.insert(artist_key(), artist)
    } else {
        m1
    };
    if album.len() > 0 {
        m2.insert(album_key(), album)
    } else {
        m2
    }
}

/// The pictures of a tag after a cover is appended: the Opus handler's
/// semantics, where every application adds one more picture.
pub open spec fn pics_appended(
    p: Seq<(Seq<char>, Seq<u8>)>,
    c: Option<(Seq<char>, Seq<u8>)>,
) -> Seq<(Seq<char>, Seq<u8>)> {
    match c {
        Option::Some(pic) => p.push(pic),
        Option::None => p,
    }
}

/// The front covers of a tag after a cover is added on the MP3 side: the
/// underlying tag keeps one frame per picture type, so the new front cover
/// evicts the first stored one and is appended at the end.
pub open spec fn covers_replaced(
    p: Seq<(Seq<char>, Seq<u8>)>,
    c: Option<(Seq<char>, Seq<u8>)>,
) -> Seq<(Seq<char>, Seq<u8>)> {
    match c {
        Option::Some(pic) => if p.len() == 0 {
            p.push(pic)
        } else {
            p.subrange(1, p.len() as int).push(pic)
        },
        Option::None => p,
    }
}

/// A request with all three text fields empty and no cover changes nothing:
/// the text fields and the pictures both come out exactly as they were.
pub proof fn lemma_empty_request_is_noop(m: Map<int, Seq<char>>, p: Seq<(Seq<char>, Seq<u8>)>)
    ensures
        text_after(m, Seq::<char>::empty(), Seq::<char>::empty(), Seq::<char>::empty()) == m,
        pics_appended(p, Option::None) == p,
        covers_replaced(p, Option::None) == p,
{
}

/// A non-empty title always comes out as the stored title, whatever was
/// stored before; the artist and album fields are as a request with no
/// title would leave them.
pub proof fn lemma_title_overwrites(
    m: Map<int, Seq<char>>,
    title: Seq<char>,
    artist: Seq<char>,
    album: Seq<char>,
)
    requires
        title.len() > 0,
    ensures
        text_after(m, title, artist, album).contains_key(title_key()),
        text_after(m, title, artist, album)[title_key()] == title,
{
}

/// An empty request field leaves the stored value untouched: the key is
/// present afterwards exactly when it was before, with the value it had.
/// There is no way to erase a stored field through a request.
pub proof fn lemma_empty_field_untouched(
    m: Map<int, Seq<char>>,
    title: Seq<char>,
    artist: Seq<char>,
    album: Seq<char>,
)
    ensures
        title.len() == 0 ==> text_after(m, title, artist, album).contains_key(title_key())
            == m.contains_key(title_key()) && (m.contains_key(title_key()) ==> text_after(
            m,
            title,
            artist,
            album,
        )[title_key()] == m[title_key()]),
        artist.len() == 0 ==> text_after(m, title, artist, album).contains_key(artist_key())
            == m.contains_key(artist_key()) && (m.contains_key(artist_key()) ==> text_after(
            m,
            title,
            artist,
            album,
        )[artist_key()] == m[artist_key()]),
        album.len() == 0 ==> text_after(m, title, artist, album).contains_key(album_key())
            == m.contains_key(album_key()) && (m.contains_key(album_key()) ==> text_after(
            m,
            title,
            artist,
            album,
        )[album_key()] == m[album_key()]),
{
}

/// Applying the same text fields twice is the same as applying them once:
/// text mutation overwrites, it does not append.
pub proof fn lemma_text_idempotent(
    m: Map<int, Seq<char>>,
    title: Seq<char>,
    artist: Seq<char>,
    album: Seq<char>,
)
    ensures
        text_after(text_after(m, title, artist, album), title, artist, album) == text_after(
            m,
            title,
            artist,
            album,
        ),
{
    assert(text_after(text_after(m, title, artist, album), title, artist, album) =~= text_after(
        m,
        title,
        artist,
        album,
    ));
}

/// Cover embedding on the Opus side is not idempotent: applying the same
/// cover twice leaves two copies of it among the pictures.
pub proof fn lemma_cover_accumulates(p: Seq<(Seq<char>, Seq<u8>)>, pic: (Seq<char>, Seq<u8>))
    ensures
        pics_appended(pics_appended(p, Option::Some(pic)), Option::Some(pic)).len() == p.len() + 2,
        pics_appended(pics_appended(p, Option::Some(pic)), Option::Some(pic))[p.len() as int]
            == pic,
        pics_appended(pics_appended(p, Option::Some(pic)), Option::Some(pic))[p.len() as int + 1] == pic,
{
}

/// Cover adding on the MP3 side, by contrast, keeps a single front cover
/// when the tag held at most one: re-applying the same cover replaces it.
pub proof fn lemma_cover_replaced_stays_single(
    p: Seq<(Seq<char>, Seq<u8>)>,
    pic: (Seq<char>, Seq<u8>),
)
    requires
        p.len() <= 1,
    ensures
        covers_replaced(covers_replaced(p, Option::Some(pic)), Option::Some(pic))
            == covers_replaced(p, Option::Some(pic)),
        covers_replaced(p, Option::Some(pic)).len() == 1,
{
    assert(covers_replaced(covers_replaced(p, Option::Some(pic)), Option::Some(pic)) =~=
        covers_replaced(p, Option::Some(pic)));
}

} // verus!
