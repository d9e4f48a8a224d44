use tagcore::dispatch::{format_for_extension, Format};
use tagcore::mime::{image_kind_for_ext, mime_string, ImageKind};
use tagcore::naming::default_output_name;
use tagcore::text::eq_ignore_case;

#[test]
fn route_lowercase() {
    assert_eq!(format_for_extension("mp3"), Some(Format::Mp3));
    assert_eq!(format_for_extension("opus"), Some(Format::Opus));
}

#[test]
fn route_is_case_insensitive() {
    assert_eq!(format_for_extension("MP3"), Some(Format::Mp3));
    assert_eq!(format_for_extension("MP3"), format_for_extension("mp3"));
    assert_eq!(format_for_extension("Mp3"), Some(Format::Mp3));
    assert_eq!(format_for_extension("OPUS"), Some(Format::Opus));
    assert_eq!(format_for_extension("oPuS"), Some(Format::Opus));
}

#[test]
fn route_unsupported_extensions() {
    assert_eq!(format_for_extension("flac"), None);
    assert_eq!(format_for_extension("wav"), None);
    assert_eq!(format_for_extension("mp4"), None);
    assert_eq!(format_for_extension(""), None);
    assert_eq!(format_for_extension("mp3x"), None);
}

#[test]
fn image_kind_from_extension() {
    assert_eq!(image_kind_for_ext("png"), ImageKind::Png);
    assert_eq!(image_kind_for_ext("PNG"), ImageKind::Png);
    assert_eq!(image_kind_for_ext("jpg"), ImageKind::Jpeg);
    assert_eq!(image_kind_for_ext("jpeg"), ImageKind::Jpeg);
    assert_eq!(image_kind_for_ext("webp"), ImageKind::Jpeg);
    assert_eq!(image_kind_for_ext(""), ImageKind::Jpeg);
}

#[test]
fn mime_strings() {
    assert_eq!(mime_string(ImageKind::Png), "image/png");
    assert_eq!(mime_string(ImageKind::Jpeg), "image/jpeg");
}

#[test]
fn case_insensitive_comparison() {
    assert!(eq_ignore_case("MP3", "mp3"));
    assert!(eq_ignore_case("", ""));
    assert!(eq_ignore_case("A", "a"));
    assert!(!eq_ignore_case("mp3", "mp4"));
    assert!(!eq_ignore_case("mp3", "mp33"));
}

#[test]
fn default_output_file_name() {
    assert_eq!(default_output_name("song", "mp3"), "song-edited.mp3");
    assert_eq!(default_output_name("a b", "opus"), "a b-edited.opus");
}
