use vstd::prelude::*;
use vstd::string::*;

use crate::common::text::text_equals;

verus! {

/// The values the process is configured with. Where they come from is the
/// caller's business; this only holds them.
pub struct Settings {
    env: String,
    api_key: String,
    region: String,
    bucket: String,
    endpoint: String,
    storage_external_url: String,
    ipfs_gateway_url: String,
}

/// What a `Settings` holds, as plain text.
pub struct SettingsView {
    pub env: Seq<char>,
    pub api_key: Seq<char>,
    pub region: Seq<char>,
    pub bucket: Seq<char>,
    pub endpoint: Seq<char>,
    pub storage_external_url: Seq<char>,
    pub ipfs_gateway_url: Seq<char>,
}

impl View for Settings {
    type V = SettingsView;

    closed spec fn view(&self) -> SettingsView {
        SettingsView {
            env: self.env@,
            api_key: self.api_key@,
            region: self.region@,
            bucket: self.bucket@,
            endpoint: self.endpoint@,
            storage_external_url: self.storage_external_url@,
            ipfs_gateway_url: self.ipfs_gateway_url@,
        }
    }
}

/// Builds the settings from the seven configured values.
pub fn new(
    env: String,
    api_key: String,
    region: String,
    bucket: String,
    endpoint: String,
    storage_external_url: String,
    ipfs_gateway_url: String,
) -> (settings: Settings)
    ensures
        settings@ == (SettingsView {
            env: env@,
            api_key: api_key@,
            region: region@,
            bucket: bucket@,
            endpoint: endpoint@,
            storage_external_url: storage_external_url@,
            ipfs_gateway_url: ipfs_gateway_url@,
        }),
{
    Settings { env, api_key, region, bucket, endpoint, storage_external_url, ipfs_gateway_url }
}

impl Settings {
    /// The name of the environment the process runs in.
    pub fn env(&self) -> (res: String)
        ensures
            res@ == self@.env,
    {
        self.env.clone()
    }

    /// Whether the process runs in the development environment, `dev`.
    pub fn is_dev(&self) -> (res: bool)
        ensures
            res == (self@.env == "dev"@),
    {
        text_equals(self.env.as_str(), "dev")
    }

    /// The bearer token that callers of the service present.
    pub fn api_key(&self) -> (res: String)
        ensures
            res@ == self@.api_key,
    {
        self.api_key.clone()
    }

    /// The object store's region.
    pub fn region(&self) -> (res: String)
        ensures
            res@ == self@.region,
    {
        self.region.clone()
    }

    /// The bucket that holds every object.
    pub fn bucket(&self) -> (res: String)
        ensures
            res@ == self@.bucket,
    {
        self.bucket.clone()
    }

    /// The object store's endpoint.
    pub fn endpoint(&self) -> (res: String)
        ensures
            res@ == self@.endpoint,
    {
        self.endpoint.clone()
    }

    /// The base of the locators handed out for stored objects.
    pub fn storage_external_url(&self) -> (res: String)
        ensures
            res@ == self@.storage_external_url,
    {
        self.storage_external_url.clone()
    }

    /// The base that `ipfs://` and `ipns://` addresses are rewritten to.
    pub fn ipfs_gateway_url(&self) -> (res: String)
        ensures
            res@ == self@.ipfs_gateway_url,
    {
        self.ipfs_gateway_url.clone()
    }
}

} // verus!
