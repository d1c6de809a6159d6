use std::sync::Arc;
use vstd::prelude::*;
use vstd::string::*;

use crate::common::error::Error;
use crate::common::variant::Variant;
use crate::settings::Settings;

verus! {

/// The cache directive set on every stored object: one year.
pub const CACHE_CONTROL: &'static str = "max-age=31536000";

/// The rules of the object-store gateway: which key an object has, which
/// locator is handed out for it, what is sent to the store, and what the
/// store's answers mean. Talking to the store is left to the caller.
pub struct S3 {
    settings: Arc<Settings>,
}

/// Builds the gateway's rule set over the settings.
pub fn new(settings: Arc<Settings>) -> (s3: S3)
    ensures
        s3.settings() == *settings,
{
    S3 { settings }
}

/// The partition that holds the objects of a variant.
pub open spec fn partition(variant: Variant) -> Seq<char> {
    match variant {
        Variant::Thumbnail => "images/thumbnails/"@,
        Variant::Original => "images/originals/"@,
        Variant::Avatar => "images/avatars/"@,
    }
}

/// The key of the object `id` of a variant: its partition, then the id.
pub open spec fn object_key(id: Seq<char>, variant: Variant) -> Seq<char> {
    partition(variant) + id
}

/// The locator handed out for a key: the external base, a slash, the key.
pub open spec fn external_url(base: Seq<char>, key: Seq<char>) -> Seq<char> {
    base + "/"@ + key
}

/// What a probe yields for a store's answer, but for the locator.
pub open spec fn probe_outcome(
    answer: HeadAnswer,
    res: Result<Option<(String, String)>, Error>,
) -> bool {
    match answer {
        HeadAnswer::NotFound => res == Ok::<Option<(String, String)>, Error>(None),
        HeadAnswer::Found { content_type: Some(content_type) } => res matches Ok(Some(found))
            && found.1@ == content_type@,
        HeadAnswer::Found { content_type: None } => res matches Err(Error::StorageUnavailable(_)),
        HeadAnswer::Failed(detail) => res == Err::<Option<(String, String)>, Error>(
            Error::StorageUnavailable(detail),
        ),
    }
}

/// What is sent to the store to put one object.
#[derive(Debug, Clone, PartialEq, Eq)]
pub struct PutRequest {
    pub bucket: String,
    pub key: String,
    pub content_type: String,
    pub cache_control: String,
    pub body: Vec<u8>,
}

/// What is sent to the store to probe for one object.
#[derive(Debug, Clone, PartialEq, Eq)]
pub struct HeadRequest {
    pub bucket: String,
    pub key: String,
}

/// The store's answer to a probe.
#[derive(Debug, Clone, PartialEq, Eq)]
pub enum HeadAnswer {
    /// The object exists; its content type, where the store has one.
    Found { content_type: Option<String> },
    /// The store says the object does not exist.
    NotFound,
    /// Anything else: the store refused, could not be reached, or answered
    /// unreadably.
    Failed(String),
}

impl S3 {
    /// The settings this gateway goes by.
    pub closed spec fn settings(&self) -> Settings {
        *self.settings
    }

    /// The key of the object `id` of `variant`.
    pub fn get_key(&self, id: &str, variant: Variant) -> (key: String)
        ensures
            key@ == object_key(id@, variant),
    {
        let prefix = match variant {
            Variant::Thumbnail => "images/thumbnails/",
            Variant::Original => "images/originals/",
            Variant::Avatar => "images/avatars/",
        };
        String::from_str(prefix).concat(id)
    }

    /// The locator under which the object at `key` can be fetched.
    pub fn get_external_url(&self, key: &str) -> (url: String)
        ensures
            url@ == external_url(self.settings()@.storage_external_url, key@),
    {
        self.settings.storage_external_url().concat("/").concat(key)
    }

    /// What to send to store `body` as the object `file_name` of `variant`:
    /// the configured bucket, the object's key, its content type, and the
    /// long-lived cache directive.
    pub fn put_request(
        &self,
        file_name: &str,
        variant: Variant,
        content_type: String,
        body: Vec<u8>,
    ) -> (req: PutRequest)
        ensures
            req.bucket@ == self.settings()@.bucket,
            req.key@ == object_key(file_name@, variant),
            req.content_type@ == content_type@,
            req.cache_control@ == CACHE_CONTROL@,
            req.body@ == body@,
    {
        PutRequest {
            bucket: self.settings.bucket(),
            key: self.get_key(file_name, variant),
            content_type,
            cache_control: String::from_str(CACHE_CONTROL),
            body,
        }
    }

    /// What an upload yields once the store has answered the put: the
    /// object's locator, or `StorageUnavailable` with the store's complaint.
    pub fn uploaded(&self, file_name: &str, variant: Variant, sent: Result<(), String>) -> (res:
        Result<String, Error>)
        ensures
            match sent {
                Ok(_) => res matches Ok(url) && url@ == external_url(
                    self.settings()@.storage_external_url,
                    object_key(file_name@, variant),
                ),
                Err(detail) => res == Err::<String, Error>(Error::StorageUnavailable(detail)),
            },
    {
        match sent {
            Ok(_) => {
                let key = self.get_key(file_name, variant);
                Ok(self.get_external_url(key.as_str()))
            },
            Err(detail) => Err(Error::StorageUnavailable(detail)),
        }
    }

    /// What to send to probe for the object `file_name` of `variant`.
    pub fn head_request(&self, variant: Variant, file_name: &str) -> (req: HeadRequest)
        ensures
            req.bucket@ == self.settings()@.bucket,
            req.key@ == object_key(file_name@, variant),
    {
        HeadRequest { bucket: self.settings.bucket(), key: self.get_key(file_name, variant) }
    }

    /// What a probe yields once the store has answered. An object that does
    /// not exist is `None`, never a failure. An object without a content
    /// type, and every other answer, is `StorageUnavailable`.
    pub fn probed(&self, variant: Variant, file_name: &str, answer: HeadAnswer) -> (res: Result<
        Option<(String, String)>,
        Error,
    >)
        ensures
            probe_outcome(answer, res),
            res matches Ok(Some(found)) ==> found.0@ == external_url(
                self.settings()@.storage_external_url,
                object_key(file_name@, variant),
            ),
    {
        match answer {
            HeadAnswer::NotFound => Ok(None),
            HeadAnswer::Found { content_type } => {
                let key = self.get_key(file_name, variant);
                match content_type {
                    Some(content_type) => Ok(
                        Some((self.get_external_url(key.as_str()), content_type)),
                    ),
                    None => Err(
                        Error::StorageUnavailable(
                            String::from_str("could not get content type for ").concat(
                                key.as_str(),
                            ),
                        ),
                    ),
                }
            },
            HeadAnswer::Failed(detail) => Err(Error::StorageUnavailable(detail)),
        }
    }
}

/// What a store's answer to a probe means, as far as presence goes.
pub open spec fn probe_found(answer: HeadAnswer) -> Option<bool> {
    match answer {
        HeadAnswer::NotFound => Some(false),
        HeadAnswer::Found { content_type: Some(_) } => Some(true),
        _ => None,
    }
}

/// An object that does not exist is absent, never a failure: what a probe
/// yields is `Ok(None)` exactly when the store says that the object is not
/// there, `Ok(Some(..))` exactly when it says the object is there with a
/// content type, and a failure on every other answer.
pub proof fn lemma_missing_object_is_absent(
    answer: HeadAnswer,
    res: Result<Option<(String, String)>, Error>,
)
    requires
        probe_outcome(answer, res),
    ensures
        answer is NotFound <==> res == Ok::<Option<(String, String)>, Error>(None),
        probe_found(answer) == Some(true) <==> res matches Ok(Some(_)),
        probe_found(answer) is None <==> res is Err,
{
}

} // verus!
