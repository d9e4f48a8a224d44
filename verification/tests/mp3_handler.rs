use id3::TagLike;
use tagcore::mp3::{apply_request_mp3, tag_for_mutation};
use tagcore::request::{CoverArt, TagRequest};

#[test]
fn empty_request_changes_nothing() {
    let mut tag = id3::Tag::new();
    tag.set_title("Old");
    tag.set_artist("Some Artist");
    let req = TagRequest {
        title: String::new(),
        artist: String::new(),
        album: String::new(),
        cover: None,
    };
    apply_request_mp3(&mut tag, req);
    assert_eq!(tag.title(), Some("Old"));
    assert_eq!(tag.artist(), Some("Some Artist"));
    assert_eq!(tag.album(), None);
    assert_eq!(tag.pictures().count(), 0);
}

#[test]
fn title_overwrites_existing_value() {
    let mut tag = id3::Tag::new();
    tag.set_title("Old");
    let req = TagRequest {
        title: String::from("New"),
        artist: String::new(),
        album: String::new(),
        cover: None,
    };
    apply_request_mp3(&mut tag, req);
    assert_eq!(tag.title(), Some("New"));
    assert_eq!(tag.artist(), None);
    assert_eq!(tag.album(), None);
}

#[test]
fn all_fields_set_on_fresh_tag() {
    let mut tag = id3::Tag::new();
    let req = TagRequest {
        title: String::from("T"),
        artist: String::from("A"),
        album: String::from("B"),
        cover: None,
    };
    apply_request_mp3(&mut tag, req);
    assert_eq!(tag.title(), Some("T"));
    assert_eq!(tag.artist(), Some("A"));
    assert_eq!(tag.album(), Some("B"));
}

#[test]
fn applying_same_title_twice_is_idempotent() {
    let mut tag = id3::Tag::new();
    tag.set_title("Old");
    let req1 = TagRequest {
        title: String::from("New"),
        artist: String::new(),
        album: String::new(),
        cover: None,
    };
    let req2 = TagRequest {
        title: String::from("New"),
        artist: String::new(),
        album: String::new(),
        cover: None,
    };
    apply_request_mp3(&mut tag, req1);
    apply_request_mp3(&mut tag, req2);
    assert_eq!(tag.title(), Some("New"));
    assert_eq!(tag.frames().count(), 1);
}

#[test]
fn cover_is_attached_with_inferred_mime() {
    let mut tag = id3::Tag::new();
    let req = TagRequest {
        title: String::new(),
        artist: String::new(),
        album: String::new(),
        cover: Some(CoverArt { ext: String::from("PNG"), data: vec![1, 2, 3] }),
    };
    apply_request_mp3(&mut tag, req);
    let pics: Vec<&id3::frame::Picture> = tag.pictures().collect();
    assert_eq!(pics.len(), 1);
    assert_eq!(pics[0].mime_type, "image/png");
    assert_eq!(pics[0].picture_type, id3::frame::PictureType::CoverFront);
    assert_eq!(pics[0].data, vec![1, 2, 3]);
}

#[test]
fn second_cover_replaces_first_front_cover() {
    let mut tag = id3::Tag::new();
    let req1 = TagRequest {
        title: String::new(),
        artist: String::new(),
        album: String::new(),
        cover: Some(CoverArt { ext: String::from("jpg"), data: vec![1] }),
    };
    let req2 = TagRequest {
        title: String::new(),
        artist: String::new(),
        album: String::new(),
        cover: Some(CoverArt { ext: String::from("jpg"), data: vec![2] }),
    };
    apply_request_mp3(&mut tag, req1);
    apply_request_mp3(&mut tag, req2);
    let pics: Vec<&id3::frame::Picture> = tag.pictures().collect();
    assert_eq!(pics.len(), 1);
    assert_eq!(pics[0].data, vec![2]);
}

#[test]
fn failed_read_falls_back_to_empty_tag() {
    let err = id3::Error::new(id3::ErrorKind::NoTag, "no tag present");
    let tag = tag_for_mutation(Err(err));
    assert_eq!(tag.title(), None);
    assert_eq!(tag.frames().count(), 0);
}

#[test]
fn successful_read_keeps_the_tag() {
    let mut existing = id3::Tag::new();
    existing.set_title("Kept");
    let tag = tag_for_mutation(Ok(existing));
    assert_eq!(tag.title(), Some("Kept"));
}
