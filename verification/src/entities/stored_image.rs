use vstd::prelude::*;

use crate::common::error::Error;

verus! {

/// A stored media asset: the original and the derived artifact, each with
/// its locator and content type. One is only ever built when both artifacts
/// are known to be stored.
#[derive(Debug, Clone)]
pub struct Image {
    file_name: String,
    original: Header,
    formatted: Header,
}

#[derive(Debug, Clone)]
struct Header {
    url: String,
    content_type: String,
}

/// What an `Image` holds, as plain text.
pub struct ImageView {
    pub file_name: Seq<char>,
    pub original_url: Seq<char>,
    pub original_content_type: Seq<char>,
    pub formatted_url: Seq<char>,
    pub formatted_content_type: Seq<char>,
}

impl View for Image {
    type V = ImageView;

    closed spec fn view(&self) -> ImageView {
        ImageView {
            file_name: self.file_name@,
            original_url: self.original.url@,
            original_content_type: self.original.content_type@,
            formatted_url: self.formatted.url@,
            formatted_content_type: self.formatted.content_type@,
        }
    }
}

/// The plain content of an operation's result that yields an asset.
pub open spec fn result_view(res: Result<Image, Error>) -> Result<ImageView, Error> {
    match res {
        Ok(image) => Ok(image@),
        Err(e) => Err(e),
    }
}

/// The plain content of a lookup's result: an asset, nothing, or a failure.
pub open spec fn lookup_view(res: Result<Option<Image>, Error>) -> Result<
    Option<ImageView>,
    Error,
> {
    match res {
        Ok(Some(image)) => Ok(Some(image@)),
        Ok(None) => Ok(None),
        Err(e) => Err(e),
    }
}

/// Builds the record of an asset whose two artifacts are both stored.
pub fn new(
    file_name: String,
    original_url: String,
    original_content_type: String,
    formatted_url: String,
    formatted_content_type: String,
) -> (image: Image)
    ensures
        image@ == (ImageView {
            file_name: file_name@,
            original_url: original_url@,
            original_content_type: original_content_type@,
            formatted_url: formatted_url@,
            formatted_content_type: formatted_content_type@,
        }),
{
    Image {
        file_name,
        original: Header { url: original_url, content_type: original_content_type },
        formatted: Header { url: formatted_url, content_type: formatted_content_type },
    }
}

impl Image {
    /// The id both artifacts are stored under.
    pub fn file_name(&self) -> (res: &String)
        ensures
            res@ == self@.file_name,
    {
        &self.file_name
    }

    /// Locator of the original artifact.
    pub fn original_url(&self) -> (res: &String)
        ensures
            res@ == self@.original_url,
    {
        &self.original.url
    }

    /// Content type of the original artifact.
    pub fn original_content_type(&self) -> (res: &String)
        ensures
            res@ == self@.original_content_type,
    {
        &self.original.content_type
    }

    /// Locator of the derived artifact.
    pub fn formatted_url(&self) -> (res: &String)
        ensures
            res@ == self@.formatted_url,
    {
        &self.formatted.url
    }

    /// Content type of the derived artifact.
    pub fn formatted_content_type(&self) -> (res: &String)
        ensures
            res@ == self@.formatted_content_type,
    {
        &self.formatted.content_type
    }
}

} // verus!
