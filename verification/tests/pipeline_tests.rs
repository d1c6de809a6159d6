use std::sync::{Arc, Mutex};

use mediavault::common::error::Error;
use mediavault::common::format::Format;
use mediavault::common::variant::Variant;
use mediavault::gateways::images::{self, ImagesImpl};
use mediavault::usecases::gateways::{Images, Storage, Video};
use mediavault::usecases::get_image;
use mediavault::usecases::upload_image::{self, assemble, plan_uploads, UploadImage};

struct MemoryStorage {
    objects: Mutex<Vec<(Variant, String, String, Vec<u8>)>>,
    refused: Vec<Variant>,
    uploads: Mutex<Vec<(Variant, String, String)>>,
}

impl MemoryStorage {
    fn refusing(refused: Vec<Variant>) -> MemoryStorage {
        MemoryStorage { objects: Mutex::new(Vec::new()), refused, uploads: Mutex::new(Vec::new()) }
    }

    fn body_of(&self, variant: Variant, file_name: &str) -> Option<Vec<u8>> {
        let objects = self.objects.lock().unwrap();
        objects.iter().find(|o| o.0 == variant && o.1 == file_name).map(|o| o.3.clone())
    }

    fn uploads(&self) -> Vec<(Variant, String, String)> {
        self.uploads.lock().unwrap().clone()
    }
}

impl Storage for MemoryStorage {
    fn upload(
        &self,
        file_name: String,
        variant: Variant,
        content_type: String,
        body: Vec<u8>,
    ) -> Result<String, Error> {
        self.uploads.lock().unwrap().push((variant, file_name.clone(), content_type.clone()));
        if self.refused.contains(&variant) {
            return Err(Error::StorageUnavailable(format!("refused {:?}", variant)));
        }
        let mut objects = self.objects.lock().unwrap();
        objects.retain(|o| !(o.0 == variant && o.1 == file_name));
        let url = format!("mem://{:?}/{}", variant, file_name);
        objects.push((variant, file_name, content_type, body));
        Ok(url)
    }

    fn get(&self, variant: Variant, file_name: String) -> Result<Option<(String, String)>, Error> {
        let objects = self.objects.lock().unwrap();
        Ok(objects
            .iter()
            .find(|o| o.0 == variant && o.1 == file_name)
            .map(|o| (format!("mem://{:?}/{}", variant, file_name), o.2.clone())))
    }
}

struct CountingImages {
    inner: ImagesImpl,
    calls: Mutex<u32>,
}

impl Images for CountingImages {
    fn format(
        &self,
        data: &[u8],
        variant: Variant,
        input_format: Format,
    ) -> Result<(Vec<u8>, Format), Error> {
        *self.calls.lock().unwrap() += 1;
        self.inner.format(data, variant, input_format)
    }
}

struct FakeVideo {
    calls: Mutex<Vec<(Variant, Format)>>,
    fails: bool,
}

impl Video for FakeVideo {
    fn format(
        &self,
        _data: &[u8],
        variant: Variant,
        input_format: Format,
    ) -> Result<(Vec<u8>, Format), Error> {
        self.calls.lock().unwrap().push((variant, input_format));
        if self.fails {
            Err(Error::TranscodeProcessFailed(Some(1)))
        } else {
            Ok((b"transcoded".to_vec(), Format::Mp4))
        }
    }

    fn clean(&self, _stale_seconds: u64) -> Result<(), Error> {
        Ok(())
    }
}

struct Rig {
    storage: Arc<MemoryStorage>,
    images: Arc<CountingImages>,
    video: Arc<FakeVideo>,
    pipeline: UploadImage<MemoryStorage, CountingImages, FakeVideo>,
}

fn rig(refused: Vec<Variant>, video_fails: bool) -> Rig {
    let storage = Arc::new(MemoryStorage::refusing(refused));
    let images = Arc::new(CountingImages { inner: images::new(), calls: Mutex::new(0) });
    let video = Arc::new(FakeVideo { calls: Mutex::new(Vec::new()), fails: video_fails });
    let pipeline = upload_image::new(storage.clone(), images.clone(), video.clone());
    Rig { storage, images, video, pipeline }
}

fn picture(width: u32, height: u32, format: image::ImageFormat) -> Vec<u8> {
    let img = image::DynamicImage::ImageRgb8(image::RgbImage::from_pixel(
        width,
        height,
        image::Rgb([200, 10, 30]),
    ));
    let mut cursor = std::io::Cursor::new(Vec::new());
    img.write_to(&mut cursor, format).unwrap();
    cursor.into_inner()
}

fn gif_bytes() -> Vec<u8> {
    b"GIF89a\x01\x00\x01\x00\x00\x00\x00;".to_vec()
}

fn mp4_bytes() -> Vec<u8> {
    let mut bytes = vec![0, 0, 0, 0x18];
    bytes.extend_from_slice(b"ftypisom");
    bytes.extend_from_slice(&[0; 16]);
    bytes
}

#[test]
fn jpeg_thumbnail_is_stored_as_jpeg_and_webp() {
    let rig = rig(vec![], false);
    let jpeg = picture(1000, 500, image::ImageFormat::Jpeg);
    let asset = rig.pipeline.execute("id-1".to_string(), &jpeg, Variant::Thumbnail).unwrap();
    assert_eq!(asset.file_name(), "id-1");
    assert_eq!(asset.original_content_type(), "image/jpeg");
    assert_eq!(asset.formatted_content_type(), "image/webp");
    assert_eq!(asset.original_url(), "mem://Original/id-1");
    assert_eq!(asset.formatted_url(), "mem://Thumbnail/id-1");
    assert_eq!(*rig.images.calls.lock().unwrap(), 1);
    assert!(rig.video.calls.lock().unwrap().is_empty());
    assert_eq!(rig.storage.body_of(Variant::Original, "id-1"), Some(jpeg));
    let derived = rig.storage.body_of(Variant::Thumbnail, "id-1").unwrap();
    assert_eq!(Format::infer(&derived), Ok(Format::WebP));
    let decoded = image::load_from_memory_with_format(&derived, image::ImageFormat::WebP).unwrap();
    assert_eq!((decoded.width(), decoded.height()), (300, 150));
}

#[test]
fn uploads_carry_the_input_and_output_content_types() {
    let rig = rig(vec![], false);
    let png = picture(20, 20, image::ImageFormat::Png);
    rig.pipeline.execute("id-2".to_string(), &png, Variant::Avatar).unwrap();
    assert_eq!(
        rig.storage.uploads(),
        vec![
            (Variant::Original, "id-2".to_string(), "image/png".to_string()),
            (Variant::Avatar, "id-2".to_string(), "image/webp".to_string()),
        ]
    );
}

#[test]
fn gif_goes_to_the_video_backend_whatever_the_variant() {
    for variant in [Variant::Original, Variant::Thumbnail, Variant::Avatar] {
        let rig = rig(vec![], false);
        let asset = rig.pipeline.execute("clip".to_string(), &gif_bytes(), variant).unwrap();
        assert_eq!(asset.original_content_type(), "image/gif");
        assert_eq!(asset.formatted_content_type(), "video/mp4");
        assert_eq!(*rig.video.calls.lock().unwrap(), vec![(variant, Format::Gif)]);
        assert_eq!(*rig.images.calls.lock().unwrap(), 0);
        assert_eq!(rig.storage.body_of(variant, "clip"), Some(b"transcoded".to_vec()));
    }
}

#[test]
fn mp4_goes_to_the_video_backend() {
    let rig = rig(vec![], false);
    let asset = rig.pipeline.execute("clip".to_string(), &mp4_bytes(), Variant::Thumbnail).unwrap();
    assert_eq!(asset.original_content_type(), "video/mp4");
    assert_eq!(asset.formatted_content_type(), "video/mp4");
    assert_eq!(*rig.video.calls.lock().unwrap(), vec![(Variant::Thumbnail, Format::Mp4)]);
    assert_eq!(rig.storage.body_of(Variant::Original, "clip"), Some(mp4_bytes()));
}

#[test]
fn input_without_a_supported_format_is_refused_before_any_work() {
    let rig = rig(vec![], false);
    let unsupported = rig.pipeline.execute("x".to_string(), b"%PDF-1.7\n", Variant::Thumbnail);
    assert!(matches!(unsupported, Err(Error::FormatUnsupported)));
    let unknown = rig.pipeline.execute("x".to_string(), &[1, 2, 3], Variant::Thumbnail);
    assert!(matches!(unknown, Err(Error::FormatUnsupported)));
    assert!(rig.storage.uploads().is_empty());
    assert_eq!(*rig.images.calls.lock().unwrap(), 0);
    assert!(rig.video.calls.lock().unwrap().is_empty());
}

#[test]
fn failed_generation_stores_nothing() {
    let rig = rig(vec![], false);
    let broken = vec![0x89, 0x50, 0x4E, 0x47, 0x0D, 0x0A, 0x1A, 0x0A, 1, 2, 3];
    let res = rig.pipeline.execute("x".to_string(), &broken, Variant::Thumbnail);
    assert!(matches!(res, Err(Error::DecodeFailed(_))));
    assert!(rig.storage.uploads().is_empty());
}

#[test]
fn failed_transcode_is_passed_on_unchanged() {
    let rig = rig(vec![], true);
    let res = rig.pipeline.execute("x".to_string(), &gif_bytes(), Variant::Thumbnail);
    assert!(matches!(res, Err(Error::TranscodeProcessFailed(Some(1)))));
    assert!(rig.storage.uploads().is_empty());
}

#[test]
fn failed_original_upload_fails_the_pipeline_but_the_sibling_still_runs() {
    let rig = rig(vec![Variant::Original], false);
    let png = picture(20, 20, image::ImageFormat::Png);
    let res = rig.pipeline.execute("half".to_string(), &png, Variant::Thumbnail);
    assert!(matches!(res, Err(Error::StorageUnavailable(ref m)) if m == "refused Original"));
    assert_eq!(rig.storage.uploads().len(), 2);
    assert!(rig.storage.body_of(Variant::Thumbnail, "half").is_some());
    assert!(rig.storage.body_of(Variant::Original, "half").is_none());
    let lookup = get_image::new(rig.storage.clone()).execute("half".to_string(), Variant::Thumbnail);
    assert!(matches!(lookup, Ok(None)));
}

#[test]
fn failed_derived_upload_fails_the_pipeline_and_leaves_the_original() {
    let rig = rig(vec![Variant::Thumbnail], false);
    let png = picture(20, 20, image::ImageFormat::Png);
    let res = rig.pipeline.execute("half".to_string(), &png, Variant::Thumbnail);
    assert!(matches!(res, Err(Error::StorageUnavailable(ref m)) if m == "refused Thumbnail"));
    assert_eq!(rig.storage.uploads().len(), 2);
    assert_eq!(rig.storage.body_of(Variant::Original, "half"), Some(png));
    let lookup = get_image::new(rig.storage.clone()).execute("half".to_string(), Variant::Thumbnail);
    assert!(matches!(lookup, Ok(None)));
}

#[test]
fn when_both_uploads_fail_the_original_is_blamed() {
    let rig = rig(vec![Variant::Original, Variant::Thumbnail], false);
    let png = picture(20, 20, image::ImageFormat::Png);
    let res = rig.pipeline.execute("none".to_string(), &png, Variant::Thumbnail);
    assert!(matches!(res, Err(Error::StorageUnavailable(ref m)) if m == "refused Original"));
    assert_eq!(rig.storage.uploads().len(), 2);
}

#[test]
fn uploading_again_under_the_same_id_overwrites() {
    let rig = rig(vec![], false);
    let first = picture(20, 20, image::ImageFormat::Png);
    let second = picture(30, 30, image::ImageFormat::Jpeg);
    rig.pipeline.execute("same".to_string(), &first, Variant::Thumbnail).unwrap();
    let asset = rig.pipeline.execute("same".to_string(), &second, Variant::Thumbnail).unwrap();
    assert_eq!(asset.original_content_type(), "image/jpeg");
    assert_eq!(rig.storage.body_of(Variant::Original, "same"), Some(second));
    assert_eq!(rig.storage.objects.lock().unwrap().len(), 2);
}

#[test]
fn plan_uploads_pairs_the_input_with_the_generated_bytes() {
    let (original, derived) = plan_uploads(
        &"id".to_string(),
        &[1, 2, 3],
        Variant::Avatar,
        Format::Png,
        vec![9, 8],
        Format::WebP,
    );
    assert_eq!(original.file_name, "id");
    assert_eq!(original.variant, Variant::Original);
    assert_eq!(original.content_type, "image/png");
    assert_eq!(original.body, vec![1, 2, 3]);
    assert_eq!(derived.file_name, "id");
    assert_eq!(derived.variant, Variant::Avatar);
    assert_eq!(derived.content_type, "image/webp");
    assert_eq!(derived.body, vec![9, 8]);
}

#[test]
fn assemble_needs_both_uploads() {
    let asset = assemble(
        "id".to_string(),
        Format::Gif,
        Format::Mp4,
        Ok("o".to_string()),
        Ok("d".to_string()),
    )
    .unwrap();
    assert_eq!(asset.file_name(), "id");
    assert_eq!(asset.original_url(), "o");
    assert_eq!(asset.original_content_type(), "image/gif");
    assert_eq!(asset.formatted_url(), "d");
    assert_eq!(asset.formatted_content_type(), "video/mp4");

    let storage_down = || Error::StorageUnavailable("down".to_string());
    let other = || Error::StorageUnavailable("other".to_string());
    let lost_original =
        assemble("id".to_string(), Format::Gif, Format::Mp4, Err(storage_down()), Ok("d".to_string()));
    assert!(matches!(lost_original, Err(ref e) if *e == storage_down()));
    let lost_derived =
        assemble("id".to_string(), Format::Gif, Format::Mp4, Ok("o".to_string()), Err(other()));
    assert!(matches!(lost_derived, Err(ref e) if *e == other()));
    let lost_both =
        assemble("id".to_string(), Format::Gif, Format::Mp4, Err(storage_down()), Err(other()));
    assert!(matches!(lost_both, Err(ref e) if *e == storage_down()));
}
