use std::sync::{Arc, Mutex};

use mediavault::common::error::Error;
use mediavault::common::format::Format;
use mediavault::common::variant::Variant;
use mediavault::entities::stored_image;
use mediavault::gateways::images::{self, ImagesImpl};
use mediavault::usecases::gateways::{Storage, Video, Web};
use mediavault::usecases::get_image::{self, Presence};
use mediavault::usecases::upload_avatar::{self, hex_encode, plan, AvatarPlan, UploadAvatar};
use mediavault::usecases::upload_image;

struct MemoryStorage {
    objects: Mutex<Vec<(Variant, String, String, Vec<u8>)>>,
    down: bool,
}

impl Storage for MemoryStorage {
    fn upload(
        &self,
        file_name: String,
        variant: Variant,
        content_type: String,
        body: Vec<u8>,
    ) -> Result<String, Error> {
        let mut objects = self.objects.lock().unwrap();
        objects.retain(|o| !(o.0 == variant && o.1 == file_name));
        let url = format!("mem://{:?}/{}", variant, file_name);
        objects.push((variant, file_name, content_type, body));
        Ok(url)
    }

    fn get(&self, variant: Variant, file_name: String) -> Result<Option<(String, String)>, Error> {
        if self.down {
            return Err(Error::StorageUnavailable("down".to_string()));
        }
        let objects = self.objects.lock().unwrap();
        Ok(objects
            .iter()
            .find(|o| o.0 == variant && o.1 == file_name)
            .map(|o| (format!("mem://{:?}/{}", variant, file_name), o.2.clone())))
    }
}

struct NoVideo {}

impl Video for NoVideo {
    fn format(
        &self,
        _data: &[u8],
        _variant: Variant,
        _input_format: Format,
    ) -> Result<(Vec<u8>, Format), Error> {
        Err(Error::TranscodeSpawnFailed("no transcoder here".to_string()))
    }

    fn clean(&self, _stale_seconds: u64) -> Result<(), Error> {
        Ok(())
    }
}

struct FakeWeb {
    metadata: Result<String, Error>,
    data: Result<Vec<u8>, Error>,
    metadata_fetches: Mutex<Vec<String>>,
    data_fetches: Mutex<Vec<String>>,
}

impl FakeWeb {
    fn fetches(&self) -> usize {
        self.metadata_fetches.lock().unwrap().len() + self.data_fetches.lock().unwrap().len()
    }
}

impl Web for FakeWeb {
    fn get_nft_image_url(&self, url: String) -> Result<String, Error> {
        self.metadata_fetches.lock().unwrap().push(url);
        self.metadata.clone()
    }

    fn get_image_data(&self, url: String) -> Result<Vec<u8>, Error> {
        self.data_fetches.lock().unwrap().push(url);
        self.data.clone()
    }
}

struct Rig {
    storage: Arc<MemoryStorage>,
    web: Arc<FakeWeb>,
    resolver: UploadAvatar<FakeWeb, MemoryStorage, ImagesImpl, NoVideo>,
}

fn rig(metadata: Result<String, Error>, data: Result<Vec<u8>, Error>, down: bool) -> Rig {
    let storage = Arc::new(MemoryStorage { objects: Mutex::new(Vec::new()), down });
    let web = Arc::new(FakeWeb {
        metadata,
        data,
        metadata_fetches: Mutex::new(Vec::new()),
        data_fetches: Mutex::new(Vec::new()),
    });
    let pipeline =
        Arc::new(upload_image::new(storage.clone(), Arc::new(images::new()), Arc::new(NoVideo {})));
    let reader = Arc::new(get_image::new(storage.clone()));
    let resolver = upload_avatar::new(web.clone(), pipeline, reader);
    Rig { storage, web, resolver }
}

fn png(width: u32, height: u32) -> Vec<u8> {
    let img = image::DynamicImage::ImageRgb8(image::RgbImage::from_pixel(
        width,
        height,
        image::Rgb([1, 2, 3]),
    ));
    let mut cursor = std::io::Cursor::new(Vec::new());
    img.write_to(&mut cursor, image::ImageFormat::Png).unwrap();
    cursor.into_inner()
}

fn unused() -> Result<String, Error> {
    Err(Error::FetchFailed("not scripted".to_string()))
}

const EMPTY_ID: &str = "e3b0c44298fc1c149afbf4c8996fb92427ae41e4649b934ca495991b7852b855";
const ABC_ID: &str = "ba7816bf8f01cfea414140de5dae2223b00361a396177a9cb410ff61f20015ad";
const FOX_ID: &str = "d7a8fbb307d7809469ca9abcb0082e4f8d5651e46d3cdb762d02d0bf37c9e592";

#[test]
fn hash_is_the_hex_sha256_of_the_text() {
    let rig = rig(unused(), Ok(png(4, 4)), false);
    assert_eq!(rig.resolver.hash("".to_string()), EMPTY_ID);
    assert_eq!(rig.resolver.hash("abc".to_string()), ABC_ID);
    assert_eq!(
        rig.resolver.hash("The quick brown fox jumps over the lazy dog".to_string()),
        FOX_ID
    );
}

#[test]
fn hash_is_sixty_four_lowercase_hex_digits() {
    let rig = rig(unused(), Ok(png(4, 4)), false);
    for url in ["https://example.com/a.png", "ipfs://Qm", "caf\u{e9}"] {
        let id = rig.resolver.hash(url.to_string());
        assert_eq!(id.len(), 64);
        assert!(id.chars().all(|c| c.is_ascii_digit() || ('a'..='f').contains(&c)));
        assert_eq!(id, rig.resolver.hash(url.to_string()));
    }
    assert_ne!(rig.resolver.hash("a".to_string()), rig.resolver.hash("b".to_string()));
}

#[test]
fn first_resolution_fetches_and_ingests_as_avatar() {
    let rig = rig(unused(), Ok(png(500, 250)), false);
    let asset = rig.resolver.execute("abc".to_string(), false).unwrap();
    assert_eq!(asset.file_name(), ABC_ID);
    assert_eq!(asset.original_content_type(), "image/png");
    assert_eq!(asset.formatted_content_type(), "image/webp");
    assert_eq!(asset.formatted_url(), &format!("mem://Avatar/{}", ABC_ID));
    assert_eq!(*rig.web.data_fetches.lock().unwrap(), vec!["abc".to_string()]);
    assert!(rig.web.metadata_fetches.lock().unwrap().is_empty());
    let objects = rig.storage.objects.lock().unwrap();
    let stored = objects.iter().find(|o| o.0 == Variant::Avatar).unwrap();
    let decoded = image::load_from_memory_with_format(&stored.3, image::ImageFormat::WebP).unwrap();
    assert_eq!((decoded.width(), decoded.height()), (125, 63));
}

#[test]
fn second_resolution_of_the_same_url_fetches_nothing() {
    let rig = rig(unused(), Ok(png(10, 10)), false);
    let first = rig.resolver.execute("abc".to_string(), false).unwrap();
    assert_eq!(rig.web.fetches(), 1);
    let second = rig.resolver.execute("abc".to_string(), false).unwrap();
    assert_eq!(rig.web.fetches(), 1);
    assert_eq!(first.file_name(), second.file_name());
    assert_eq!(first.original_url(), second.original_url());
    assert_eq!(first.formatted_url(), second.formatted_url());
    assert_eq!(second.original_content_type(), "image/png");
    assert_eq!(second.formatted_content_type(), "image/webp");
    assert_eq!(rig.storage.objects.lock().unwrap().len(), 2);
}

#[test]
fn second_resolution_of_an_nft_fetches_nothing_either() {
    let rig = rig(Ok("https://img.example/1.png".to_string()), Ok(png(10, 10)), false);
    rig.resolver.execute("abc".to_string(), true).unwrap();
    assert_eq!(rig.web.fetches(), 2);
    let again = rig.resolver.execute("abc".to_string(), true).unwrap();
    assert_eq!(rig.web.fetches(), 2);
    assert_eq!(again.file_name(), ABC_ID);
}

#[test]
fn nft_resolution_goes_through_the_metadata() {
    let rig = rig(Ok("https://img.example/1.png".to_string()), Ok(png(10, 10)), false);
    let asset = rig.resolver.execute("abc".to_string(), true).unwrap();
    assert_eq!(asset.file_name(), ABC_ID);
    assert_eq!(*rig.web.metadata_fetches.lock().unwrap(), vec!["abc".to_string()]);
    assert_eq!(
        *rig.web.data_fetches.lock().unwrap(),
        vec!["https://img.example/1.png".to_string()]
    );
}

#[test]
fn metadata_failure_ends_the_resolution() {
    let rig = rig(Err(Error::MetadataImageMissing), Ok(png(10, 10)), false);
    let res = rig.resolver.execute("abc".to_string(), true);
    assert!(matches!(res, Err(Error::MetadataImageMissing)));
    assert!(rig.web.data_fetches.lock().unwrap().is_empty());
    assert!(rig.storage.objects.lock().unwrap().is_empty());
}

#[test]
fn fetch_failure_ends_the_resolution() {
    let rig = rig(unused(), Err(Error::BodyTooLarge(3145729)), false);
    let res = rig.resolver.execute("abc".to_string(), false);
    assert!(matches!(res, Err(Error::BodyTooLarge(3145729))));
    assert!(rig.storage.objects.lock().unwrap().is_empty());
}

#[test]
fn fetched_bytes_that_are_no_image_are_refused() {
    let rig = rig(unused(), Ok(b"<html>not found</html>".to_vec()), false);
    let res = rig.resolver.execute("abc".to_string(), false);
    assert!(matches!(res, Err(Error::FormatUnsupported)));
}

#[test]
fn store_failure_ends_the_resolution_before_any_fetch() {
    let rig = rig(unused(), Ok(png(10, 10)), true);
    let res = rig.resolver.execute("abc".to_string(), false);
    assert!(matches!(res, Err(Error::StorageUnavailable(_))));
    assert_eq!(rig.web.fetches(), 0);
}

#[test]
fn half_stored_avatar_is_hydrated_again() {
    let rig = rig(unused(), Ok(png(10, 10)), false);
    rig.storage
        .upload(ABC_ID.to_string(), Variant::Original, "image/png".to_string(), vec![1])
        .unwrap();
    let asset = rig.resolver.execute("abc".to_string(), false).unwrap();
    assert_eq!(rig.web.fetches(), 1);
    assert_eq!(asset.file_name(), ABC_ID);
    assert_eq!(rig.storage.objects.lock().unwrap().len(), 2);
}

#[test]
fn plan_answers_from_the_store_when_it_can() {
    let stored = stored_image::new(
        "id".to_string(),
        "o".to_string(),
        "image/png".to_string(),
        "d".to_string(),
        "image/webp".to_string(),
    );
    for is_nft in [false, true] {
        match plan(Ok(Some(stored.clone())), is_nft) {
            AvatarPlan::Existing(image) => assert_eq!(image.formatted_url(), "d"),
            _ => panic!("a stored avatar must be answered from the store"),
        }
    }
    assert!(matches!(plan(Ok(None), true), AvatarPlan::FetchMetadata));
    assert!(matches!(plan(Ok(None), false), AvatarPlan::FetchImage));
    let down = Error::StorageUnavailable("down".to_string());
    assert!(matches!(plan(Err(down.clone()), true), AvatarPlan::Failed(ref e) if *e == down));
}

#[test]
fn hex_encode_writes_two_lowercase_digits_per_byte() {
    assert_eq!(hex_encode(&[]), "");
    assert_eq!(hex_encode(&[1, 2, 3, 15, 16]), "0102030f10");
    assert_eq!(hex_encode(b"Hello world!"), "48656c6c6f20776f726c6421");
    assert_eq!(hex_encode(&[0x00, 0x9a, 0xa9, 0xff]), "009aa9ff");
}

#[test]
fn hex_encode_agrees_with_the_hex_crate_on_every_byte() {
    let every: Vec<u8> = (0..=255).collect();
    assert_eq!(hex_encode(&every), hex::encode(&every));
}

#[test]
fn inspect_reports_what_the_store_held() {
    let rig = rig(unused(), Ok(png(10, 10)), false);
    let first = rig.resolver.inspect("abc".to_string(), false);
    assert_eq!(first.found, Some(Presence::Neither));
    assert_eq!(first.outcome.unwrap().file_name(), ABC_ID);
    let second = rig.resolver.inspect("abc".to_string(), false);
    assert_eq!(second.found, Some(Presence::Both));
    assert_eq!(second.outcome.unwrap().file_name(), ABC_ID);
    assert_eq!(rig.web.fetches(), 1);
}

#[test]
fn inspect_reports_a_half_stored_avatar_and_hydrates_it() {
    let only_original = rig(unused(), Ok(png(10, 10)), false);
    only_original
        .storage
        .upload(ABC_ID.to_string(), Variant::Original, "image/png".to_string(), vec![1])
        .unwrap();
    let report = only_original.resolver.inspect("abc".to_string(), false);
    assert_eq!(report.found, Some(Presence::OnlyOriginal));
    assert!(report.outcome.is_ok());
    assert_eq!(only_original.web.fetches(), 1);

    let only_derived = rig(unused(), Err(Error::FetchFailed("gone".to_string())), false);
    only_derived
        .storage
        .upload(ABC_ID.to_string(), Variant::Avatar, "image/webp".to_string(), vec![1])
        .unwrap();
    let report = only_derived.resolver.inspect("abc".to_string(), false);
    assert_eq!(report.found, Some(Presence::OnlyDerived));
    assert!(matches!(report.outcome, Err(Error::FetchFailed(_))));
}

#[test]
fn inspect_has_no_presence_to_report_when_the_store_is_down() {
    let rig = rig(unused(), Ok(png(10, 10)), true);
    let report = rig.resolver.inspect("abc".to_string(), false);
    assert_eq!(report.found, None);
    assert!(matches!(report.outcome, Err(Error::StorageUnavailable(_))));
    assert_eq!(rig.web.fetches(), 0);
}
