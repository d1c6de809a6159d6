use mediavault::common::error::Error;
use mediavault::common::format::{Backend, Format, SNIFF_LENGTH};
use mediavault::common::text::text_equals;

fn all_formats() -> Vec<Format> {
    vec![Format::Jpeg, Format::Png, Format::WebP, Format::Gif, Format::Mp4]
}

fn jpeg_signature() -> Vec<u8> {
    vec![0xFF, 0xD8, 0xFF, 0xE0, 0x00, 0x10, b'J', b'F', b'I', b'F', 0x00, 0x01]
}

fn png_signature() -> Vec<u8> {
    vec![0x89, 0x50, 0x4E, 0x47, 0x0D, 0x0A, 0x1A, 0x0A, 0, 0, 0, 13]
}

fn webp_signature() -> Vec<u8> {
    let mut bytes = b"RIFF".to_vec();
    bytes.extend_from_slice(&[0x24, 0, 0, 0]);
    bytes.extend_from_slice(b"WEBPVP8 ");
    bytes
}

fn gif_signature() -> Vec<u8> {
    b"GIF89a\x01\x00\x01\x00".to_vec()
}

fn mp4_signature() -> Vec<u8> {
    let mut bytes = vec![0, 0, 0, 0x18];
    bytes.extend_from_slice(b"ftypmp42");
    bytes.extend_from_slice(&[0, 0, 0, 0]);
    bytes
}

#[test]
fn content_type_of_every_format() {
    assert_eq!(Format::Jpeg.content_type(), "image/jpeg");
    assert_eq!(Format::Png.content_type(), "image/png");
    assert_eq!(Format::WebP.content_type(), "image/webp");
    assert_eq!(Format::Gif.content_type(), "image/gif");
    assert_eq!(Format::Mp4.content_type(), "video/mp4");
}

#[test]
fn extension_of_every_format() {
    assert_eq!(Format::Jpeg.extension(), "jpg");
    assert_eq!(Format::Png.extension(), "png");
    assert_eq!(Format::WebP.extension(), "webp");
    assert_eq!(Format::Gif.extension(), "gif");
    assert_eq!(Format::Mp4.extension(), "mp4");
}

#[test]
fn mappings_give_the_same_answer_on_every_call() {
    for format in all_formats() {
        assert_eq!(format.content_type(), format.content_type());
        assert_eq!(format.extension(), format.extension());
        assert_eq!(format.backend(), format.backend());
    }
}

#[test]
fn content_types_and_extensions_tell_formats_apart() {
    let formats = all_formats();
    for a in formats.iter() {
        for b in formats.iter() {
            if a != b {
                assert_ne!(a.content_type(), b.content_type());
                assert_ne!(a.extension(), b.extension());
            }
        }
    }
}

#[test]
fn infer_recognizes_each_signature() {
    assert_eq!(Format::infer(&jpeg_signature()), Ok(Format::Jpeg));
    assert_eq!(Format::infer(&png_signature()), Ok(Format::Png));
    assert_eq!(Format::infer(&webp_signature()), Ok(Format::WebP));
    assert_eq!(Format::infer(&gif_signature()), Ok(Format::Gif));
    assert_eq!(Format::infer(&mp4_signature()), Ok(Format::Mp4));
}

#[test]
fn infer_refuses_a_known_signature_of_another_kind() {
    assert_eq!(Format::infer(b"%PDF-1.7\n"), Err(Error::FormatUnsupported));
}

#[test]
fn infer_cannot_place_bytes_without_a_signature() {
    assert_eq!(Format::infer(&[]), Err(Error::FormatIndeterminate));
    assert_eq!(Format::infer(&[1, 2, 3, 4, 5, 6, 7, 8]), Err(Error::FormatIndeterminate));
}

#[test]
fn infer_looks_at_the_leading_bytes_only() {
    assert_eq!(SNIFF_LENGTH, 8192);
    let mut long = jpeg_signature();
    long.resize(5 * 1024 * 1024, 0);
    assert_eq!(Format::infer(&long), Ok(Format::Jpeg));
    let mut late = vec![0u8; SNIFF_LENGTH];
    late.extend_from_slice(&png_signature());
    assert!(Format::infer(&late).is_err());
    let mut exact = gif_signature();
    exact.resize(SNIFF_LENGTH, 7);
    assert_eq!(Format::infer(&exact), Ok(Format::Gif));
}

#[test]
fn infer_returns_on_a_long_chain_of_empty_frames() {
    let frame = [0x50, 0x2A, 0x4D, 0x18, 0, 0, 0, 0];
    let mut chain = Vec::new();
    for _ in 0..(5 * 1024 * 1024 / frame.len()) {
        chain.extend_from_slice(&frame);
    }
    assert!(Format::infer(&chain).is_err());
}

#[test]
fn infer_reads_content_not_names() {
    let mut bytes = png_signature();
    bytes.extend_from_slice(b"picture.jpg image/jpeg");
    assert_eq!(Format::infer(&bytes), Ok(Format::Png));
}

#[test]
fn from_extension_knows_both_spellings_of_jpeg() {
    assert_eq!(Format::from_extension("jpeg"), Some(Format::Jpeg));
    assert_eq!(Format::from_extension("jpg"), Some(Format::Jpeg));
    assert_eq!(Format::from_extension("png"), Some(Format::Png));
    assert_eq!(Format::from_extension("webp"), Some(Format::WebP));
    assert_eq!(Format::from_extension("gif"), Some(Format::Gif));
    assert_eq!(Format::from_extension("mp4"), Some(Format::Mp4));
}

#[test]
fn from_extension_refuses_everything_else() {
    assert_eq!(Format::from_extension("pdf"), None);
    assert_eq!(Format::from_extension(""), None);
    assert_eq!(Format::from_extension("JPG"), None);
    assert_eq!(Format::from_extension("jpgx"), None);
    assert_eq!(Format::from_extension("mp"), None);
}

#[test]
fn classify_tells_the_two_detection_failures_apart() {
    assert_eq!(Format::classify(None), Err(Error::FormatIndeterminate));
    assert_eq!(Format::classify(Some("zip")), Err(Error::FormatUnsupported));
    assert_eq!(Format::classify(Some("gif")), Ok(Format::Gif));
}

#[test]
fn dispatch_routes_stills_to_images_and_the_rest_to_video() {
    assert_eq!(Format::Jpeg.backend(), Backend::Image);
    assert_eq!(Format::Png.backend(), Backend::Image);
    assert_eq!(Format::WebP.backend(), Backend::Image);
    assert_eq!(Format::Gif.backend(), Backend::Video);
    assert_eq!(Format::Mp4.backend(), Backend::Video);
}

#[test]
fn text_equals_compares_whole_texts() {
    assert!(text_equals("", ""));
    assert!(text_equals("webp", "webp"));
    assert!(!text_equals("webp", "web"));
    assert!(!text_equals("web", "webp"));
    assert!(!text_equals("gif", "gig"));
    assert!(text_equals("caf\u{e9}", "caf\u{e9}"));
    assert!(!text_equals("caf\u{e9}", "cafe"));
}
