use vstd::prelude::*;

use crate::common::error::Error;
use crate::common::format::Format;
use crate::common::variant::Variant;

verus! {

/// A key/value object store. Objects are addressed by id within the
/// partition of their variant; uploading to an existing key overwrites.
pub trait Storage {
    /// Stores `body` and returns the locator it can be fetched from.
    fn upload(
        &self,
        file_name: String,
        variant: Variant,
        content_type: String,
        body: Vec<u8>,
    ) -> Result<String, Error>;

    /// Probes for an object without fetching it: its locator and content
    /// type, or `None` when it does not exist.
    fn get(&self, variant: Variant, file_name: String) -> Result<Option<(String, String)>, Error>;
}

/// Generates a variant of a still image.
pub trait Images {
    fn format(&self, data: &[u8], variant: Variant, input_format: Format) -> Result<
        (Vec<u8>, Format),
        Error,
    >;
}

/// Outbound fetches.
pub trait Web {
    /// Fetches an NFT metadata document and returns the image it names.
    fn get_nft_image_url(&self, url: String) -> Result<String, Error>;

    /// Fetches the bytes behind `url`.
    fn get_image_data(&self, url: String) -> Result<Vec<u8>, Error>;
}

/// Generates a variant of a moving image, and reclaims its scratch space.
pub trait Video {
    fn format(&self, data: &[u8], variant: Variant, input_format: Format) -> Result<
        (Vec<u8>, Format),
        Error,
    >;

    /// Removes scratch files older than `stale_seconds`.
    fn clean(&self, stale_seconds: u64) -> Result<(), Error>;
}

} // verus!
