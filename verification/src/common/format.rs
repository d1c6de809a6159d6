use vstd::prelude::*;
use vstd::slice::*;
use vstd::string::*;

use crate::common::error::Error;
use crate::common::text::text_equals;

verus! {

/// The media encodings this library handles. A format is only ever learned
/// from the bytes themselves, never from a name or a declared type.
#[derive(Debug, Clone, Copy, PartialEq, Eq, Structural)]
pub enum Format {
    Jpeg,
    Png,
    WebP,
    Gif,
    Mp4,
}

/// The strategy that generates a variant of a given format.
#[derive(Debug, Clone, Copy, PartialEq, Eq, Structural)]
pub enum Backend {
    /// In-process image codecs.
    Image,
    /// The external transcoder.
    Video,
}

/// How many leading bytes detection looks at. The signatures of the five
/// formats lie at the very start, and the sniffer's work stays bounded
/// whatever follows.
pub const SNIFF_LENGTH: usize = 8192;

/// The extension that signature sniffing assigns to `data`, or `None` where
/// no signature matches. What the sniffer recognises is its own business;
/// this only names its answer.
pub uninterp spec fn sniffed_extension(data: Seq<u8>) -> Option<Seq<char>>;

/// The leading bytes of `data` that detection looks at: all of it, or its
/// first `SNIFF_LENGTH` bytes if it is longer.
pub open spec fn leading(data: Seq<u8>) -> Seq<u8> {
    if data.len() <= SNIFF_LENGTH {
        data
    } else {
        data.subrange(0, SNIFF_LENGTH as int)
    }
}

/// The format an extension stands for, if it is one of ours.
pub open spec fn format_of_extension(ext: Seq<char>) -> Option<Format> {
    if ext == "jpeg"@ || ext == "jpg"@ {
        Some(Format::Jpeg)
    } else if ext == "png"@ {
        Some(Format::Png)
    } else if ext == "webp"@ {
        Some(Format::WebP)
    } else if ext == "gif"@ {
        Some(Format::Gif)
    } else if ext == "mp4"@ {
        Some(Format::Mp4)
    } else {
        None
    }
}

/// What detection makes of a sniffing answer.
pub open spec fn classify_sniff(sniffed: Option<Seq<char>>) -> Result<Format, Error> {
    match sniffed {
        None => Err(Error::FormatIndeterminate),
        Some(ext) => match format_of_extension(ext) {
            Some(format) => Ok(format),
            None => Err(Error::FormatUnsupported),
        },
    }
}

/// The format of `data`, or the reason it has none. Only the leading bytes
/// count.
pub open spec fn detected_format(data: Seq<u8>) -> Result<Format, Error> {
    classify_sniff(sniffed_extension(leading(data)))
}

/// Calls `infer::get` and reads the extension of the type it found.
///
/// Trusted: the answer depends on `data` alone, so it is the named
/// `sniffed_extension(data@)`; nothing is claimed about which bytes match.
/// One matcher follows a chain of frames by calling itself, as deep as the
/// buffer is long, so the buffer is kept short.
#[verifier::external_body]
fn sniff_extension(data: &[u8]) -> (ext: Option<&'static str>)
    requires
        data@.len() <= SNIFF_LENGTH,
    ensures
        match ext {
            Some(e) => sniffed_extension(data@) == Some(e@),
            None => sniffed_extension(data@) is None,
        },
{
    match infer::get(data) {
        Some(kind) => Some(kind.extension()),
        None => None,
    }
}

impl Format {
    /// The MIME content type, as a sequence of characters.
    pub open spec fn mime(self) -> Seq<char> {
        match self {
            Format::Jpeg => "image/jpeg"@,
            Format::Png => "image/png"@,
            Format::WebP => "image/webp"@,
            Format::Gif => "image/gif"@,
            Format::Mp4 => "video/mp4"@,
        }
    }

    /// The filename extension, without the dot.
    pub open spec fn suffix(self) -> Seq<char> {
        match self {
            Format::Jpeg => "jpg"@,
            Format::Png => "png"@,
            Format::WebP => "webp"@,
            Format::Gif => "gif"@,
            Format::Mp4 => "mp4"@,
        }
    }

    /// The backend that handles this format: still images go to the image
    /// codecs, moving images to the transcoder.
    pub open spec fn backend_of(self) -> Backend {
        match self {
            Format::Jpeg | Format::Png | Format::WebP => Backend::Image,
            Format::Gif | Format::Mp4 => Backend::Video,
        }
    }

    /// Selects the backend for this format.
    pub fn backend(&self) -> (backend: Backend)
        ensures
            backend == self.backend_of(),
    {
        match self {
            Format::Jpeg | Format::Png | Format::WebP => Backend::Image,
            Format::Gif | Format::Mp4 => Backend::Video,
        }
    }

    /// Maps a sniffed extension to a format. `jpeg` and `jpg` both mean JPEG.
    pub fn from_extension(ext: &str) -> (format: Option<Format>)
        ensures
            format == format_of_extension(ext@),
    {
        if text_equals(ext, "jpeg") || text_equals(ext, "jpg") {
            Some(Format::Jpeg)
        } else if text_equals(ext, "png") {
            Some(Format::Png)
        } else if text_equals(ext, "webp") {
            Some(Format::WebP)
        } else if text_equals(ext, "gif") {
            Some(Format::Gif)
        } else if text_equals(ext, "mp4") {
            Some(Format::Mp4)
        } else {
            None
        }
    }

    /// Turns a sniffing answer into a format or the matching error.
    pub fn classify(sniffed: Option<&str>) -> (res: Result<Format, Error>)
        ensures
            res == classify_sniff(
                match sniffed {
                    Some(e) => Some(e@),
                    None => None,
                },
            ),
    {
        match sniffed {
            None => Err(Error::FormatIndeterminate),
            Some(ext) => match Format::from_extension(ext) {
                Some(format) => Ok(format),
                None => Err(Error::FormatUnsupported),
            },
        }
    }

    /// Detects the format of `data` from its leading bytes, at most
    /// `SNIFF_LENGTH` of them.
    ///
    /// Fails with `FormatIndeterminate` when no signature matches and with
    /// `FormatUnsupported` when the signature is of another kind of file.
    pub fn infer(data: &[u8]) -> (res: Result<Format, Error>)
        ensures
            res == detected_format(data@),
    {
        let head = if data.len() <= SNIFF_LENGTH {
            data
        } else {
            slice_subrange(data, 0, SNIFF_LENGTH)
        };
        Format::classify(sniff_extension(head))
    }

    /// The MIME content type of this format.
    pub fn content_type(&self) -> (res: String)
        ensures
            res@ == self.mime(),
    {
        match self {
            Format::Jpeg => String::from_str("image/jpeg"),
            Format::Png => String::from_str("image/png"),
            Format::WebP => String::from_str("image/webp"),
            Format::Gif => String::from_str("image/gif"),
            Format::Mp4 => String::from_str("video/mp4"),
        }
    }

    /// The filename extension of this format.
    pub fn extension(&self) -> (res: String)
        ensures
            res@ == self.suffix(),
    {
        match self {
            Format::Jpeg => String::from_str("jpg"),
            Format::Png => String::from_str("png"),
            Format::WebP => String::from_str("webp"),
            Format::Gif => String::from_str("gif"),
            Format::Mp4 => String::from_str("mp4"),
        }
    }
}

/// Dispatch is a total mapping over the five formats: JPEG, PNG and WebP go
/// to the image backend, GIF and MP4 to the video backend, and there is no
/// other format.
pub proof fn lemma_dispatch_is_total(format: Format)
    ensures
        format == Format::Jpeg || format == Format::Png || format == Format::WebP || format
            == Format::Gif || format == Format::Mp4,
        format.backend_of() == Backend::Image <==> (format == Format::Jpeg || format == Format::Png
            || format == Format::WebP),
        format.backend_of() == Backend::Video <==> (format == Format::Gif || format == Format::Mp4),
{
}

/// Content types and extensions tell the formats apart: two formats with the
/// same content type, or with the same extension, are the same format.
pub proof fn lemma_format_names_are_distinct(a: Format, b: Format)
    ensures
        a.mime() == b.mime() ==> a == b,
        a.suffix() == b.suffix() ==> a == b,
{
    reveal_strlit("image/jpeg");
    reveal_strlit("image/png");
    reveal_strlit("image/webp");
    reveal_strlit("image/gif");
    reveal_strlit("video/mp4");
    reveal_strlit("jpg");
    reveal_strlit("png");
    reveal_strlit("webp");
    reveal_strlit("gif");
    reveal_strlit("mp4");
    if a != b {
        assert(a.mime().len() != b.mime().len() || a.mime()[6] != b.mime()[6] || a.mime()[0]
            != b.mime()[0]);
        assert(a.suffix().len() != b.suffix().len() || a.suffix()[0] != b.suffix()[0]);
    }
}

} // verus!
