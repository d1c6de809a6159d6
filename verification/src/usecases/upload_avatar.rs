use sha2::{Digest, Sha256};
use std::sync::Arc;
use vstd::prelude::*;
use vstd::string::*;
use vstd::utf8::*;

use crate::common::error::Error;
use crate::common::variant::Variant;
use crate::entities::stored_image::{lookup_view, result_view, Image, ImageView};
use crate::usecases::gateways::{Images, Storage, Video, Web};
use crate::usecases::get_image::{found_image, GetImage, Lookup, Presence};
use crate::usecases::upload_image::UploadImage;

verus! {

/// The avatar resolver: ingests the image behind a URL once, under an id
/// derived from the URL, and answers later requests from the store.
pub struct UploadAvatar<W: Web, S: Storage, I: Images, V: Video> {
    web: Arc<W>,
    upload_image: Arc<UploadImage<S, I, V>>,
    get_image: Arc<GetImage<S>>,
}

/// Builds the resolver over the web gateway, the pipeline and the read path.
pub fn new<W: Web, S: Storage, I: Images, V: Video>(
    web: Arc<W>,
    upload_image: Arc<UploadImage<S, I, V>>,
    get_image: Arc<GetImage<S>>,
) -> (resolver: UploadAvatar<W, S, I, V>)
    ensures
        *resolver.web() == *web,
        *resolver.upload_image() == *upload_image,
        *resolver.get_image() == *get_image,
{
    UploadAvatar { web, upload_image, get_image }
}

/// The SHA-256 digest of a byte sequence.
pub uninterp spec fn sha256_digest(data: Seq<u8>) -> Seq<u8>;

/// The lowercase hexadecimal digit for a value below sixteen.
pub open spec fn hex_digit(nibble: int) -> char {
    if nibble == 0 {
        '0'
    } else if nibble == 1 {
        '1'
    } else if nibble == 2 {
        '2'
    } else if nibble == 3 {
        '3'
    } else if nibble == 4 {
        '4'
    } else if nibble == 5 {
        '5'
    } else if nibble == 6 {
        '6'
    } else if nibble == 7 {
        '7'
    } else if nibble == 8 {
        '8'
    } else if nibble == 9 {
        '9'
    } else if nibble == 10 {
        'a'
    } else if nibble == 11 {
        'b'
    } else if nibble == 12 {
        'c'
    } else if nibble == 13 {
        'd'
    } else if nibble == 14 {
        'e'
    } else {
        'f'
    }
}

/// A byte sequence in lowercase hexadecimal: two digits per byte, the high
/// half first.
pub open spec fn hex_text(bytes: Seq<u8>) -> Seq<char> {
    Seq::new(
        2 * bytes.len(),
        |i: int|
            if i % 2 == 0 {
                hex_digit(bytes[i / 2] as int / 16)
            } else {
                hex_digit(bytes[i / 2] as int % 16)
            },
    )
}

/// The id an avatar is stored under: the hex SHA-256 digest of its source
/// URL's UTF-8 bytes.
pub open spec fn avatar_id(url: Seq<char>) -> Seq<char> {
    hex_text(sha256_digest(encode_utf8(url)))
}

/// Computes `sha2::Sha256::digest` of `data`.
///
/// Trusted: the digest depends on `data` alone, so it is the named
/// `sha256_digest(data@)`, and it is 32 bytes long.
#[verifier::external_body]
fn sha256(data: &[u8]) -> (digest: Vec<u8>)
    ensures
        digest@ == sha256_digest(data@),
        digest@.len() == 32,
{
    Sha256::digest(data).to_vec()
}

/// The text of one hexadecimal digit.
fn digit_text(nibble: u8) -> (text: &'static str)
    requires
        nibble < 16,
    ensures
        text@ == seq![hex_digit(nibble as int)],
{
    proof {
        reveal_strlit("0");
        reveal_strlit("1");
        reveal_strlit("2");
        reveal_strlit("3");
        reveal_strlit("4");
        reveal_strlit("5");
        reveal_strlit("6");
        reveal_strlit("7");
        reveal_strlit("8");
        reveal_strlit("9");
        reveal_strlit("a");
        reveal_strlit("b");
        reveal_strlit("c");
        reveal_strlit("d");
        reveal_strlit("e");
        reveal_strlit("f");
    }
    let text = match nibble {
        0 => "0",
        1 => "1",
        2 => "2",
        3 => "3",
        4 => "4",
        5 => "5",
        6 => "6",
        7 => "7",
        8 => "8",
        9 => "9",
        10 => "a",
        11 => "b",
        12 => "c",
        13 => "d",
        14 => "e",
        _ => "f",
    };
    assert(text@ =~= seq![hex_digit(nibble as int)]);
    text
}

/// Writes bytes in lowercase hexadecimal, two digits per byte.
pub fn hex_encode(bytes: &[u8]) -> (text: String)
    ensures
        text@ == hex_text(bytes@),
{
    let mut text = String::new();
    let mut i: usize = 0;
    while i < bytes.len()
        invariant
            i <= bytes@.len(),
            text@.len() == 2 * i,
            forall|k: int| 0 <= k < 2 * i ==> text@[k] == hex_text(bytes@)[k],
        decreases bytes@.len() - i,
    {
        let byte = bytes[i];
        text.append(digit_text(byte / 16));
        text.append(digit_text(byte % 16));
        i += 1;
    }
    assert(text@ =~= hex_text(bytes@));
    text
}

/// What the resolver does once the store has been consulted.
#[derive(Debug, Clone)]
pub enum AvatarPlan {
    /// Both artifacts are stored: answer with them, fetch nothing.
    Existing(Image),
    /// Not yet stored, and the URL names NFT metadata: fetch the metadata,
    /// then the image it names.
    FetchMetadata,
    /// Not yet stored: fetch the image behind the URL.
    FetchImage,
    /// The store could not be consulted.
    Failed(Error),
}

/// The plan that a lookup's answer calls for.
pub open spec fn planned(lookup: Result<Option<Image>, Error>, is_nft: bool) -> AvatarPlan {
    match lookup {
        Ok(Some(image)) => AvatarPlan::Existing(image),
        Ok(None) => if is_nft {
            AvatarPlan::FetchMetadata
        } else {
            AvatarPlan::FetchImage
        },
        Err(e) => AvatarPlan::Failed(e),
    }
}

/// What one resolution yields, given what the store, the web and the
/// pipeline answered. A stored asset is returned as it is; otherwise the
/// first failure ends the resolution, and the pipeline's answer is the
/// result.
pub open spec fn resolution_outcome(
    is_nft: bool,
    lookup: Result<Option<ImageView>, Error>,
    metadata: Result<String, Error>,
    data: Result<Vec<u8>, Error>,
    ingested: Result<ImageView, Error>,
) -> Result<ImageView, Error> {
    match lookup {
        Err(e) => Err(e),
        Ok(Some(stored)) => Ok(stored),
        Ok(None) => if is_nft && metadata is Err {
            Err(metadata->Err_0)
        } else {
            match data {
                Err(e) => Err(e),
                Ok(_) => ingested,
            }
        },
    }
}

/// A resolution together with what the store held when it was consulted.
#[derive(Debug)]
pub struct Resolution {
    /// Which artifacts the store held under the avatar's id, or `None`
    /// where the store could not be consulted. Anything but `Both` means
    /// that the avatar was hydrated; `OnlyOriginal` and `OnlyDerived` are
    /// anomalies to report.
    pub found: Option<Presence>,
    /// The asset, or the failure.
    pub outcome: Result<Image, Error>,
}

/// What an inspection of the store says of presence.
pub open spec fn presence_found(found: Result<Lookup, Error>) -> Option<Presence> {
    match found {
        Ok(lookup) => Some(lookup.presence),
        Err(_) => None,
    }
}

/// Decides what to do after the store was consulted.
pub fn plan(lookup: Result<Option<Image>, Error>, is_nft: bool) -> (plan: AvatarPlan)
    ensures
        plan == planned(lookup, is_nft),
{
    match lookup {
        Ok(Some(image)) => AvatarPlan::Existing(image),
        Ok(None) => if is_nft {
            AvatarPlan::FetchMetadata
        } else {
            AvatarPlan::FetchImage
        },
        Err(e) => AvatarPlan::Failed(e),
    }
}

impl<W: Web, S: Storage, I: Images, V: Video> UploadAvatar<W, S, I, V> {
    /// The web gateway this resolver fetches through.
    pub closed spec fn web(&self) -> &W {
        &*self.web
    }

    /// The pipeline this resolver ingests with.
    pub closed spec fn upload_image(&self) -> &UploadImage<S, I, V> {
        &*self.upload_image
    }

    /// The read path this resolver consults.
    pub closed spec fn get_image(&self) -> &GetImage<S> {
        &*self.get_image
    }

    /// One hydration, step by step: `data` is what the web gateway answered
    /// to the fetch of `image_url`; if it succeeded, `bytes` are the fetched
    /// bytes and `ingested` is a result that ingesting them as the avatar
    /// `id` may have.
    pub open spec fn hydrates(
        &self,
        id: String,
        image_url: String,
        data: Result<Vec<u8>, Error>,
        bytes: &[u8],
        ingested: Result<Image, Error>,
    ) -> bool {
        &&& call_ensures(W::get_image_data, (self.web(), image_url), data)
        &&& match data {
            Err(_) => true,
            Ok(fetched) => bytes@ == fetched@ && self.upload_image().ingested(
                id,
                bytes,
                Variant::Avatar,
                ingested,
            ),
        }
    }

    /// One resolution, step by step: `id` is the hash of `url`; `lookup` is
    /// a result that looking up the avatar `id` may have; if it found
    /// nothing and `is_nft` is set, `metadata` is what the web gateway
    /// answered when asked for the image that the document at `url` names;
    /// the image is then hydrated from the address so learned, or from
    /// `url` itself when `is_nft` is not set; and `res` is what all of this
    /// amounts to.
    pub open spec fn resolves(
        &self,
        url: String,
        is_nft: bool,
        id: String,
        lookup: Result<Option<Image>, Error>,
        metadata: Result<String, Error>,
        data: Result<Vec<u8>, Error>,
        bytes: &[u8],
        ingested: Result<Image, Error>,
        res: Result<Image, Error>,
    ) -> bool {
        &&& id@ == avatar_id(url@)
        &&& self.get_image().looked_up(id, Variant::Avatar, lookup)
        &&& match planned(lookup, is_nft) {
            AvatarPlan::Existing(_) => true,
            AvatarPlan::Failed(_) => true,
            AvatarPlan::FetchMetadata => {
                &&& call_ensures(W::get_nft_image_url, (self.web(), url), metadata)
                &&& match metadata {
                    Err(_) => true,
                    Ok(image_url) => self.hydrates(id, image_url, data, bytes, ingested),
                }
            },
            AvatarPlan::FetchImage => self.hydrates(id, url, data, bytes, ingested),
        }
        &&& result_view(res) == resolution_outcome(
            is_nft,
            lookup_view(lookup),
            metadata,
            data,
            result_view(ingested),
        )
    }

    /// `res` is a result that resolving `url` may have.
    pub open spec fn resolved(&self, url: String, is_nft: bool, res: Result<Image, Error>) -> bool {
        exists|
            id: String,
            lookup: Result<Option<Image>, Error>,
            metadata: Result<String, Error>,
            data: Result<Vec<u8>, Error>,
            bytes: &[u8],
            ingested: Result<Image, Error>,
        |
            self.resolves(url, is_nft, id, lookup, metadata, data, bytes, ingested, res)
    }

    /// The id for a source URL: its SHA-256 digest in lowercase hex, 64
    /// characters long.
    pub fn hash(&self, input: String) -> (id: String)
        ensures
            id@ == avatar_id(input@),
            id@.len() == 64,
    {
        let digest = sha256(input.as_str().as_bytes());
        hex_encode(digest.as_slice())
    }

    /// Fetches the image behind `image_url` and ingests it as the avatar
    /// `file_name`.
    fn hydrate(&self, file_name: String, image_url: String) -> (res: Result<Image, Error>)
        ensures
            exists|data: Result<Vec<u8>, Error>, bytes: &[u8], ingested: Result<Image, Error>|
                #![trigger self.hydrates(file_name, image_url, data, bytes, ingested)]
                {
                    &&& self.hydrates(file_name, image_url, data, bytes, ingested)
                    &&& match data {
                        Err(e) => res == Err::<Image, Error>(e),
                        Ok(_) => res == ingested,
                    }
                },
    {
        let fetched = self.web.get_image_data(image_url);
        let ghost fetched_answer = fetched;
        let data = match fetched {
            Ok(data) => data,
            Err(e) => {
                let res = Err(e);
                proof {
                    let no_bytes: &[u8] = arbitrary();
                    assert(self.hydrates(file_name, image_url, fetched_answer, no_bytes, res));
                }
                return res;
            },
        };
        let bytes = data.as_slice();
        let res = self.upload_image.execute(file_name, bytes, Variant::Avatar);
        proof {
            assert(self.hydrates(file_name, image_url, fetched_answer, bytes, res));
        }
        res
    }

    /// One resolution with its report, step by step: `found` is a result
    /// that inspecting the store for the avatar `id` may have, the
    /// resolution goes on from the asset it found, and the report says
    /// which artifacts it found.
    pub open spec fn observes(
        &self,
        url: String,
        is_nft: bool,
        id: String,
        found: Result<Lookup, Error>,
        metadata: Result<String, Error>,
        data: Result<Vec<u8>, Error>,
        bytes: &[u8],
        ingested: Result<Image, Error>,
        res: Resolution,
    ) -> bool {
        &&& self.get_image().inspected(id, Variant::Avatar, found)
        &&& self.resolves(
            url,
            is_nft,
            id,
            found_image(found),
            metadata,
            data,
            bytes,
            ingested,
            res.outcome,
        )
        &&& res.found == presence_found(found)
    }

    /// `res` is a report that resolving `url` may have.
    pub open spec fn observed(&self, url: String, is_nft: bool, res: Resolution) -> bool {
        exists|
            id: String,
            found: Result<Lookup, Error>,
            metadata: Result<String, Error>,
            data: Result<Vec<u8>, Error>,
            bytes: &[u8],
            ingested: Result<Image, Error>,
        |
            self.observes(url, is_nft, id, found, metadata, data, bytes, ingested, res)
    }

    /// Resolves the avatar for `url`, and says which artifacts the store
    /// held under its id, so that a half-stored avatar can be reported.
    ///
    /// The id is the hash of `url`. If the store already holds both
    /// artifacts under that id they are returned and nothing is fetched.
    /// Otherwise the image is fetched, through the NFT metadata at `url`
    /// when `is_nft` is set, and ingested as `Variant::Avatar`. The first
    /// failure on the way is the outcome.
    pub fn inspect(&self, url: String, is_nft: bool) -> (res: Resolution)
        ensures
            res.outcome matches Ok(image) ==> image@.file_name == avatar_id(url@),
            self.observed(url, is_nft, res),
    {
        let file_name = self.hash(url.clone());
        let inspected = self.get_image.inspect(file_name.clone(), Variant::Avatar);
        let ghost inspected_answer = inspected;
        proof {
            let (original, derived) = choose|
                original: Result<Option<(String, String)>, Error>,
                derived: Result<Option<(String, String)>, Error>,
            | self.get_image().inspects(file_name, Variant::Avatar, original, derived, inspected);
            assert(self.get_image().looks_up(
                file_name,
                Variant::Avatar,
                original,
                derived,
                found_image(inspected),
            ));
        }
        let (found, lookup) = match inspected {
            Ok(lookup) => (Some(lookup.presence), Ok(lookup.image)),
            Err(e) => (None, Err(e)),
        };
        let ghost lookup_answer = lookup;
        let ghost no_text: Result<String, Error> = Err(Error::MetadataImageMissing);
        let ghost no_data: Result<Vec<u8>, Error> = Err(Error::MetadataImageMissing);
        let ghost no_bytes: &[u8] = arbitrary();
        let ghost no_asset: Result<Image, Error> = Err(Error::MetadataImageMissing);
        let res = match plan(lookup, is_nft) {
            AvatarPlan::Existing(image) => {
                let res = Resolution { found, outcome: Ok(image) };
                proof {
                    assert(self.observes(
                        url,
                        is_nft,
                        file_name,
                        inspected_answer,
                        no_text,
                        no_data,
                        no_bytes,
                        no_asset,
                        res,
                    ));
                }
                res
            },
            AvatarPlan::Failed(e) => {
                let res = Resolution { found, outcome: Err(e) };
                proof {
                    assert(self.observes(
                        url,
                        is_nft,
                        file_name,
                        inspected_answer,
                        no_text,
                        no_data,
                        no_bytes,
                        no_asset,
                        res,
                    ));
                }
                res
            },
            AvatarPlan::FetchMetadata => {
                let named = self.web.get_nft_image_url(url);
                let ghost named_answer = named;
                match named {
                    Err(e) => {
                        let res = Resolution { found, outcome: Err(e) };
                        proof {
                            assert(self.observes(
                                url,
                                is_nft,
                                file_name,
                                inspected_answer,
                                named_answer,
                                no_data,
                                no_bytes,
                                no_asset,
                                res,
                            ));
                        }
                        res
                    },
                    Ok(image_url) => {
                        let outcome = self.hydrate(file_name, image_url);
                        let res = Resolution { found, outcome };
                        proof {
                            let (data, bytes, ingested) = choose|
                                data: Result<Vec<u8>, Error>,
                                bytes: &[u8],
                                ingested: Result<Image, Error>,
                            |
                                #![trigger self.hydrates(file_name, image_url, data, bytes, ingested)]
                                {
                                    &&& self.hydrates(file_name, image_url, data, bytes, ingested)
                                    &&& match data {
                                        Err(e) => outcome == Err::<Image, Error>(e),
                                        Ok(_) => outcome == ingested,
                                    }
                                };
                            assert(self.observes(
                                url,
                                is_nft,
                                file_name,
                                inspected_answer,
                                named_answer,
                                data,
                                bytes,
                                ingested,
                                res,
                            ));
                        }
                        res
                    },
                }
            },
            AvatarPlan::FetchImage => {
                let outcome = self.hydrate(file_name, url);
                let res = Resolution { found, outcome };
                proof {
                    let (data, bytes, ingested) = choose|
                        data: Result<Vec<u8>, Error>,
                        bytes: &[u8],
                        ingested: Result<Image, Error>,
                    |
                        #![trigger self.hydrates(file_name, url, data, bytes, ingested)]
                        {
                            &&& self.hydrates(file_name, url, data, bytes, ingested)
                            &&& match data {
                                Err(e) => outcome == Err::<Image, Error>(e),
                                Ok(_) => outcome == ingested,
                            }
                        };
                    assert(self.observes(
                        url,
                        is_nft,
                        file_name,
                        inspected_answer,
                        no_text,
                        data,
                        bytes,
                        ingested,
                        res,
                    ));
                }
                res
            },
        };
        res
    }

    /// Resolves the avatar for `url`.
    ///
    /// The id is the hash of `url`. If the store already holds both
    /// artifacts under that id they are returned and nothing is fetched.
    /// Otherwise the image is fetched, through the NFT metadata at `url`
    /// when `is_nft` is set, and ingested as `Variant::Avatar`. The first
    /// failure on the way is the result.
    pub fn execute(&self, url: String, is_nft: bool) -> (res: Result<Image, Error>)
        ensures
            res matches Ok(image) ==> image@.file_name == avatar_id(url@),
            self.resolved(url, is_nft, res),
    {
        let report = self.inspect(url, is_nft);
        proof {
            let (id, found, metadata, data, bytes, ingested) = choose|
                id: String,
                found: Result<Lookup, Error>,
                metadata: Result<String, Error>,
                data: Result<Vec<u8>, Error>,
                bytes: &[u8],
                ingested: Result<Image, Error>,
            | self.observes(url, is_nft, id, found, metadata, data, bytes, ingested, report);
            assert(self.resolves(
                url,
                is_nft,
                id,
                found_image(found),
                metadata,
                data,
                bytes,
                ingested,
                report.outcome,
            ));
        }
        report.outcome
    }
}

/// Resolution is idempotent. Two resolutions of the same URL work under
/// the same id. And a resolution that finds both artifacts stored answers
/// with them: its plan is `Existing`, which asks the web gateway for
/// nothing, and its result is the stored asset whatever the web gateway
/// would have answered.
pub proof fn lemma_resolution_is_idempotent<W: Web, S: Storage, I: Images, V: Video>(
    resolver: UploadAvatar<W, S, I, V>,
    url: String,
    is_nft: bool,
    first_id: String,
    first_lookup: Result<Option<Image>, Error>,
    first_metadata: Result<String, Error>,
    first_data: Result<Vec<u8>, Error>,
    first_bytes: &[u8],
    first_ingested: Result<Image, Error>,
    first: Result<Image, Error>,
    second_id: String,
    second_lookup: Result<Option<Image>, Error>,
    second_metadata: Result<String, Error>,
    second_data: Result<Vec<u8>, Error>,
    second_bytes: &[u8],
    second_ingested: Result<Image, Error>,
    second: Result<Image, Error>,
)
    requires
        resolver.resolves(
            url,
            is_nft,
            first_id,
            first_lookup,
            first_metadata,
            first_data,
            first_bytes,
            first_ingested,
            first,
        ),
        resolver.resolves(
            url,
            is_nft,
            second_id,
            second_lookup,
            second_metadata,
            second_data,
            second_bytes,
            second_ingested,
            second,
        ),
    ensures
        first_id@ == second_id@,
        first matches Ok(image) ==> image@.file_name == first_id@,
        second matches Ok(image) ==> image@.file_name == first_id@,
        second_lookup matches Ok(Some(stored)) ==> {
            &&& planned(second_lookup, is_nft) == AvatarPlan::Existing(stored)
            &&& result_view(second) == Ok::<ImageView, Error>(stored@)
            &&& stored@.file_name == first_id@
        },
{
}

} // verus!
