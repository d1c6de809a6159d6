use std::sync::Arc;
use vstd::prelude::*;

use crate::settings::Settings;
use crate::usecases::clean_videos::{self, CleanVideos};
use crate::usecases::gateways::{Images, Storage, Video, Web};
use crate::usecases::get_image::{self, GetImage};
use crate::usecases::upload_avatar::{self, UploadAvatar};
use crate::usecases::upload_image::{self, UploadImage};

verus! {

/// Everything a running service needs, wired once and shared.
pub struct Container<W: Web, S: Storage, I: Images, V: Video> {
    pub settings: Arc<Settings>,
    pub upload_image: Arc<UploadImage<S, I, V>>,
    pub upload_avatar: Arc<UploadAvatar<W, S, I, V>>,
    pub get_image: Arc<GetImage<S>>,
    pub clean_videos: Arc<CleanVideos<V>>,
}

/// Calls `Arc::clone`.
///
/// Trusted: the new handle points at the same value.
#[verifier::external_body]
fn share<T>(handle: &Arc<T>) -> (other: Arc<T>)
    ensures
        other == *handle,
{
    Arc::clone(handle)
}

/// Wires the operations over one set of gateways. Every operation that
/// uses a gateway is given the same one.
pub fn new<W: Web, S: Storage, I: Images, V: Video>(
    settings: Arc<Settings>,
    storage: S,
    images: I,
    web: W,
    video: V,
) -> (container: Container<W, S, I, V>)
    ensures
        container.settings == settings,
        *container.upload_image.storage() == storage,
        *container.upload_image.images() == images,
        *container.upload_image.video() == video,
        *container.get_image.storage() == storage,
        *container.upload_avatar.web() == web,
        *container.upload_avatar.upload_image() == *container.upload_image,
        *container.upload_avatar.get_image() == *container.get_image,
        *container.clean_videos.video() == video,
{
    let storage = Arc::new(storage);
    let images = Arc::new(images);
    let web = Arc::new(web);
    let video = Arc::new(video);
    let upload_image = Arc::new(upload_image::new(share(&storage), images, share(&video)));
    let get_image = Arc::new(get_image::new(storage));
    let upload_avatar = Arc::new(
        upload_avatar::new(web, share(&upload_image), share(&get_image)),
    );
    let clean_videos = Arc::new(clean_videos::new(video));
    Container { settings, upload_image, upload_avatar, get_image, clean_videos }
}

} // verus!
