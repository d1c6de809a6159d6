use std::sync::Arc;
use vstd::prelude::*;
use vstd::string::*;

use crate::common::error::Error;
use crate::common::text::has_prefix;
use crate::settings::Settings;

verus! {

/// The cap on a fetched body: three mebibytes.
pub const MAX_BODY_SIZE: usize = 3 * 1024 * 1024;

/// How long a fetch may take, in seconds.
pub const MAX_REQUEST_DURATION_SECONDS: u64 = 30;

/// The rules of the web gateway: which address is actually fetched, which
/// answers count as success, how much of a body is accepted, and which
/// image an NFT metadata document names. Sending the request is left to
/// the caller.
pub struct Http {
    settings: Arc<Settings>,
}

/// Builds the gateway's rule set over the settings.
pub fn new(settings: Arc<Settings>) -> (http: Http)
    ensures
        http.settings() == *settings,
{
    Http { settings }
}

/// `rest` under the namespace `space`: unchanged if it already begins with
/// it, else with it put in front.
pub open spec fn namespaced(rest: Seq<char>, space: Seq<char>) -> Seq<char> {
    if has_prefix(rest, space) {
        rest
    } else {
        space + rest
    }
}

/// What follows the first `prefix.len()` characters of `s`.
pub open spec fn after_prefix(s: Seq<char>, prefix: Seq<char>) -> Seq<char> {
    s.subrange(prefix.len() as int, s.len() as int)
}

/// The address that is fetched for `url`: an `ipfs://` or `ipns://` address
/// becomes a path under the gateway, within the namespace of its scheme;
/// every other address is fetched as it is.
pub open spec fn gateway_address(url: Seq<char>, gateway: Seq<char>) -> Seq<char> {
    if has_prefix(url, "ipfs://"@) {
        gateway + "/"@ + namespaced(after_prefix(url, "ipfs://"@), "ipfs/"@)
    } else if has_prefix(url, "ipns://"@) {
        gateway + "/"@ + namespaced(after_prefix(url, "ipns://"@), "ipns/"@)
    } else {
        url
    }
}

/// The first `n` chunks, joined.
pub open spec fn joined(chunks: Seq<Vec<u8>>, n: int) -> Seq<u8>
    decreases n,
{
    if n <= 0 {
        Seq::empty()
    } else {
        joined(chunks, n - 1) + chunks[n - 1]@
    }
}

/// A size as it is reported: itself, or the largest `usize` if it is beyond.
pub open spec fn reported_size(size: nat) -> usize {
    if size <= usize::MAX {
        size as usize
    } else {
        usize::MAX
    }
}

/// Joining more chunks never gives less.
proof fn lemma_joined_grows(chunks: Seq<Vec<u8>>, a: int, b: int)
    requires
        a <= b,
    ensures
        joined(chunks, a).len() <= joined(chunks, b).len(),
    decreases b - a,
{
    if a < b {
        lemma_joined_grows(chunks, a, b - 1);
        if b <= 0 {
            assert(joined(chunks, b - 1).len() == 0);
        }
    }
}

/// Whether `s` begins with `prefix`.
pub fn starts_with(s: &str, prefix: &str) -> (res: bool)
    ensures
        res == has_prefix(s@, prefix@),
{
    let n = prefix.unicode_len();
    if s.unicode_len() < n {
        return false;
    }
    let mut i: usize = 0;
    while i < n
        invariant
            i <= n,
            n == prefix@.len(),
            n <= s@.len(),
            forall|k: int| 0 <= k < i ==> s@[k] == prefix@[k],
        decreases n - i,
    {
        if s.get_char(i) != prefix.get_char(i) {
            assert(s@.subrange(0, n as int)[i as int] != prefix@[i as int]);
            return false;
        }
        i += 1;
    }
    assert(s@.subrange(0, n as int) =~= prefix@);
    true
}

/// A body that is being read chunk by chunk, under a cap.
pub struct Body {
    bytes: Vec<u8>,
    limit: usize,
}

impl Body {
    /// The bytes accepted so far.
    pub closed spec fn content(&self) -> Seq<u8> {
        self.bytes@
    }

    /// The cap.
    pub closed spec fn limit(&self) -> usize {
        self.limit
    }

    /// A body never holds more than its cap.
    #[verifier::type_invariant]
    spec fn within_limit(&self) -> bool {
        self.bytes@.len() <= self.limit
    }

    /// An empty body under the cap `limit`.
    pub fn new(limit: usize) -> (body: Body)
        ensures
            body.content() == Seq::<u8>::empty(),
            body.limit() == limit,
    {
        Body { bytes: Vec::new(), limit }
    }

    /// Takes one more chunk. If the body would then exceed its cap, the
    /// chunk is refused with `BodyTooLarge` and the size it would have
    /// reached, and the body stays as it was.
    pub fn push(&mut self, chunk: &[u8]) -> (res: Result<(), Error>)
        ensures
            final(self).limit() == old(self).limit(),
            old(self).content().len() + chunk@.len() <= old(self).limit() ==> res is Ok
                && final(self).content() == old(self).content() + chunk@,
            old(self).content().len() + chunk@.len() > old(self).limit() ==> res == Err::<
                (),
                Error,
            >(Error::BodyTooLarge(reported_size(old(self).content().len() + chunk@.len())))
                && final(self).content() == old(self).content(),
    {
        proof {
            use_type_invariant(&*self);
        }
        if chunk.len() > self.limit - self.bytes.len() {
            let size = match self.bytes.len().checked_add(chunk.len()) {
                Some(total) => total,
                None => usize::MAX,
            };
            return Err(Error::BodyTooLarge(size));
        }
        let mut bytes: Vec<u8> = Vec::new();
        std::mem::swap(&mut self.bytes, &mut bytes);
        let ghost before = bytes@;
        bytes.extend_from_slice(chunk);
        assert(bytes@ =~= before + chunk@);
        self.bytes = bytes;
        Ok(())
    }

    /// Hands out the bytes accepted so far, which are no more than the cap.
    pub fn finish(self) -> (bytes: Vec<u8>)
        ensures
            bytes@ == self.content(),
            bytes@.len() <= self.limit(),
    {
        proof {
            use_type_invariant(&self);
        }
        self.bytes
    }
}

/// An NFT metadata document, as far as it is read: three optional fields
/// that may each name the image.
#[derive(Debug, Clone, PartialEq, Eq)]
pub struct NftMetadata {
    pub image: Option<String>,
    pub image_url: Option<String>,
    pub image_data: Option<String>,
}

/// The image a metadata document names: the first of `image`, `image_url`
/// and `image_data` that is present.
pub open spec fn named_image(metadata: NftMetadata) -> Option<String> {
    if metadata.image is Some {
        metadata.image
    } else if metadata.image_url is Some {
        metadata.image_url
    } else {
        metadata.image_data
    }
}

impl Http {
    /// The settings this gateway goes by.
    pub closed spec fn settings(&self) -> Settings {
        *self.settings
    }

    /// The address to fetch for `url`: `ipfs://` and `ipns://` addresses are
    /// rewritten to the configured gateway, keeping their path.
    pub fn parse_url(&self, url: String) -> (address: String)
        ensures
            address@ == gateway_address(url@, self.settings()@.ipfs_gateway_url),
    {
        if starts_with(url.as_str(), "ipfs://") {
            self.under_gateway(url.as_str(), "ipfs://", "ipfs/")
        } else if starts_with(url.as_str(), "ipns://") {
            self.under_gateway(url.as_str(), "ipns://", "ipns/")
        } else {
            url
        }
    }

    /// The gateway path for an address of the given scheme.
    fn under_gateway(&self, url: &str, scheme: &str, space: &str) -> (address: String)
        requires
            has_prefix(url@, scheme@),
        ensures
            address@ == self.settings()@.ipfs_gateway_url + "/"@ + namespaced(
                after_prefix(url@, scheme@),
                space@,
            ),
    {
        let rest = url.substring_char(scheme.unicode_len(), url.unicode_len());
        let base = self.settings.ipfs_gateway_url().concat("/");
        if starts_with(rest, space) {
            base.concat(rest)
        } else {
            let address = base.concat(space).concat(rest);
            assert(address@ =~= self.settings()@.ipfs_gateway_url + "/"@ + (space@ + rest@));
            address
        }
    }

    /// Whether an answer's status counts as success: the codes 200 to 299
    /// do, every other is `FetchFailed`.
    pub fn check_status(status: u16) -> (res: Result<(), Error>)
        ensures
            200 <= status <= 299 ==> res is Ok,
            !(200 <= status <= 299) ==> res matches Err(Error::FetchFailed(_)),
    {
        if 200 <= status && status <= 299 {
            Ok(())
        } else {
            Err(Error::FetchFailed(String::from_str("invalid status")))
        }
    }

    /// Reads a body that arrives as `chunks`, under the cap `limit`. The
    /// body is the chunks joined. Reading fails with `BodyTooLarge` at the
    /// first chunk with which the body would exceed the cap, reporting the
    /// size it would have reached; no later chunk is looked at.
    pub fn read_body_with_limit(chunks: &Vec<Vec<u8>>, limit: usize) -> (res: Result<
        Vec<u8>,
        Error,
    >)
        ensures
            joined(chunks@, chunks@.len() as int).len() <= limit ==> (res matches Ok(body)
                && body@ == joined(chunks@, chunks@.len() as int)),
            joined(chunks@, chunks@.len() as int).len() > limit ==> (res matches Err(
                Error::BodyTooLarge(size),
            ) && exists|k: int|
                1 <= k <= chunks@.len() && joined(chunks@, k - 1).len() <= limit && (
                #[trigger] joined(chunks@, k)).len() > limit && size == reported_size(
                    joined(chunks@, k).len(),
                )),
    {
        let mut body = Body::new(limit);
        let mut i: usize = 0;
        while i < chunks.len()
            invariant
                i <= chunks@.len(),
                body.limit() == limit,
                body.content() == joined(chunks@, i as int),
            decreases chunks@.len() - i,
        {
            proof {
                use_type_invariant(&body);
            }
            match body.push(chunks[i].as_slice()) {
                Ok(_) => {},
                Err(e) => {
                    proof {
                        lemma_joined_grows(chunks@, i + 1, chunks@.len() as int);
                        assert(joined(chunks@, i as int).len() <= limit);
                        assert(joined(chunks@, i + 1).len() > limit);
                    }
                    return Err(e);
                },
            }
            i += 1;
        }
        Ok(body.finish())
    }

    /// Picks the image a metadata document names, by priority: `image`,
    /// then `image_url`, then `image_data`. A document that has none of
    /// them fails with `MetadataImageMissing`.
    pub fn select_image(metadata: NftMetadata) -> (res: Result<String, Error>)
        ensures
            match named_image(metadata) {
                Some(reference) => res == Ok::<String, Error>(reference),
                None => res == Err::<String, Error>(Error::MetadataImageMissing),
            },
    {
        if let Some(image) = metadata.image {
            Ok(image)
        } else if let Some(image_url) = metadata.image_url {
            Ok(image_url)
        } else if let Some(image_data) = metadata.image_data {
            Ok(image_data)
        } else {
            Err(Error::MetadataImageMissing)
        }
    }

    /// What a fetched metadata document yields once it has been parsed: a
    /// document that could not be parsed is `MetadataParseFailed`, one that
    /// could is searched for its image.
    pub fn nft_image(parsed: Result<NftMetadata, String>) -> (res: Result<String, Error>)
        ensures
            match parsed {
                Err(detail) => res == Err::<String, Error>(Error::MetadataParseFailed(detail)),
                Ok(metadata) => match named_image(metadata) {
                    Some(reference) => res == Ok::<String, Error>(reference),
                    None => res == Err::<String, Error>(Error::MetadataImageMissing),
                },
            },
    {
        match parsed {
            Err(detail) => Err(Error::MetadataParseFailed(detail)),
            Ok(metadata) => Self::select_image(metadata),
        }
    }
}

} // verus!
