use std::sync::Arc;
use vstd::prelude::*;
use vstd::slice::*;

use crate::common::error::Error;
use crate::common::format::{detected_format, Backend, Format};
use crate::common::variant::Variant;
use crate::entities::stored_image::{self, result_view, Image, ImageView};
use crate::usecases::gateways::{Images, Storage, Video};

verus! {

/// The ingestion pipeline: detect the format, generate the derived variant,
/// store the original and the variant, and report where both can be found.
pub struct UploadImage<S: Storage, I: Images, V: Video> {
    storage: Arc<S>,
    images: Arc<I>,
    video: Arc<V>,
}

/// Builds the pipeline over its three gateways.
pub fn new<S: Storage, I: Images, V: Video>(
    storage: Arc<S>,
    images: Arc<I>,
    video: Arc<V>,
) -> (pipeline: UploadImage<S, I, V>)
    ensures
        *pipeline.storage() == *storage,
        *pipeline.images() == *images,
        *pipeline.video() == *video,
{
    UploadImage { storage, images, video }
}

/// One object to be stored.
#[derive(Debug, Clone, PartialEq, Eq)]
pub struct UploadRequest {
    pub file_name: String,
    pub variant: Variant,
    pub content_type: String,
    pub body: Vec<u8>,
}

/// What an `UploadRequest` holds, as plain values.
pub struct UploadRequestView {
    pub file_name: Seq<char>,
    pub variant: Variant,
    pub content_type: Seq<char>,
    pub body: Seq<u8>,
}

impl View for UploadRequest {
    type V = UploadRequestView;

    open spec fn view(&self) -> UploadRequestView {
        UploadRequestView {
            file_name: self.file_name@,
            variant: self.variant,
            content_type: self.content_type@,
            body: self.body@,
        }
    }
}

/// The asset, or the failure, that two finished uploads amount to. The asset
/// exists only if both succeeded; when both failed, the failure of the
/// original is the one reported.
pub open spec fn assembled(
    file_name: Seq<char>,
    input: Format,
    output: Format,
    original: Result<String, Error>,
    derived: Result<String, Error>,
) -> Result<ImageView, Error> {
    match (original, derived) {
        (Ok(original_url), Ok(derived_url)) => Ok(
            ImageView {
                file_name,
                original_url: original_url@,
                original_content_type: input.mime(),
                formatted_url: derived_url@,
                formatted_content_type: output.mime(),
            },
        ),
        (Err(e), _) => Err(e),
        (Ok(_), Err(e)) => Err(e),
    }
}

/// What the whole pipeline yields, given what detection found and what each
/// gateway answered. Detection that finds no supported format ends the
/// pipeline with `FormatUnsupported`; a failed generation ends it with that
/// failure; the stores are consulted only after both succeeded.
pub open spec fn pipeline_outcome(
    file_name: Seq<char>,
    detected: Result<Format, Error>,
    generated: Result<(Vec<u8>, Format), Error>,
    original: Result<String, Error>,
    derived: Result<String, Error>,
) -> Result<ImageView, Error> {
    match detected {
        Err(_) => Err(Error::FormatUnsupported),
        Ok(input) => match generated {
            Err(e) => Err(e),
            Ok((_, output)) => assembled(file_name, input, output, original, derived),
        },
    }
}

/// The two uploads of one ingestion: the untouched input under
/// `Variant::Original` with the input format's content type, and the
/// generated bytes under the requested variant with the output format's.
pub fn plan_uploads(
    file_name: &String,
    data: &[u8],
    variant: Variant,
    input_format: Format,
    generated: Vec<u8>,
    output_format: Format,
) -> (plan: (UploadRequest, UploadRequest))
    ensures
        plan.0@ == (UploadRequestView {
            file_name: file_name@,
            variant: Variant::Original,
            content_type: input_format.mime(),
            body: data@,
        }),
        plan.1@ == (UploadRequestView {
            file_name: file_name@,
            variant,
            content_type: output_format.mime(),
            body: generated@,
        }),
{
    let original = UploadRequest {
        file_name: file_name.clone(),
        variant: Variant::Original,
        content_type: input_format.content_type(),
        body: slice_to_vec(data),
    };
    let derived = UploadRequest {
        file_name: file_name.clone(),
        variant,
        content_type: output_format.content_type(),
        body: generated,
    };
    (original, derived)
}

/// Turns the answers of the two uploads into the asset or the failure.
pub fn assemble(
    file_name: String,
    input_format: Format,
    output_format: Format,
    original: Result<String, Error>,
    derived: Result<String, Error>,
) -> (res: Result<Image, Error>)
    ensures
        result_view(res) == assembled(file_name@, input_format, output_format, original, derived),
{
    match (original, derived) {
        (Ok(original_url), Ok(derived_url)) => Ok(
            stored_image::new(
                file_name,
                original_url,
                input_format.content_type(),
                derived_url,
                output_format.content_type(),
            ),
        ),
        (Err(e), _) => Err(e),
        (Ok(_), Err(e)) => Err(e),
    }
}

impl<S: Storage, I: Images, V: Video> UploadImage<S, I, V> {
    /// The store this pipeline writes to.
    pub closed spec fn storage(&self) -> &S {
        &*self.storage
    }

    /// The image gateway this pipeline generates stills with.
    pub closed spec fn images(&self) -> &I {
        &*self.images
    }

    /// The video gateway this pipeline generates moving images with.
    pub closed spec fn video(&self) -> &V {
        &*self.video
    }

    /// `generated` is an answer that the gateway for `input` may give when
    /// asked for `variant` of `data`: the image gateway for a still image,
    /// the video gateway for a moving one.
    pub open spec fn generated_by(
        &self,
        data: &[u8],
        variant: Variant,
        input: Format,
        generated: Result<(Vec<u8>, Format), Error>,
    ) -> bool {
        match input.backend_of() {
            Backend::Image => call_ensures(
                I::format,
                (self.images(), data, variant, input),
                generated,
            ),
            Backend::Video => call_ensures(
                V::format,
                (self.video(), data, variant, input),
                generated,
            ),
        }
    }

    /// `answer` is an answer that the store may give to `request`.
    pub open spec fn stored_by(&self, request: UploadRequest, answer: Result<String, Error>) -> bool {
        call_ensures(
            S::upload,
            (
                self.storage(),
                request.file_name,
                request.variant,
                request.content_type,
                request.body,
            ),
            answer,
        )
    }

    /// One run of the pipeline, step by step: `generated` is what the
    /// gateway for the detected format answered; if it succeeded, `first`
    /// and `second` are the two uploads, of the input as the original and
    /// of the generated bytes as the variant, and `original` and `derived`
    /// are what the store answered to them; and `res` is what all of this
    /// amounts to.
    pub open spec fn ingests(
        &self,
        file_name: String,
        data: &[u8],
        variant: Variant,
        generated: Result<(Vec<u8>, Format), Error>,
        first: UploadRequest,
        second: UploadRequest,
        original: Result<String, Error>,
        derived: Result<String, Error>,
        res: Result<Image, Error>,
    ) -> bool {
        &&& match detected_format(data@) {
            Err(_) => true,
            Ok(input) => {
                &&& self.generated_by(data, variant, input, generated)
                &&& match generated {
                    Err(_) => true,
                    Ok((bytes, output)) => {
                        &&& first@ == (UploadRequestView {
                            file_name: file_name@,
                            variant: Variant::Original,
                            content_type: input.mime(),
                            body: data@,
                        })
                        &&& second@ == (UploadRequestView {
                            file_name: file_name@,
                            variant,
                            content_type: output.mime(),
                            body: bytes@,
                        })
                        &&& self.stored_by(first, original)
                        &&& self.stored_by(second, derived)
                    },
                }
            },
        }
        &&& result_view(res) == pipeline_outcome(
            file_name@,
            detected_format(data@),
            generated,
            original,
            derived,
        )
    }

    /// `res` is a result that ingesting `data` as `file_name` may have.
    pub open spec fn ingested(
        &self,
        file_name: String,
        data: &[u8],
        variant: Variant,
        res: Result<Image, Error>,
    ) -> bool {
        exists|
            generated: Result<(Vec<u8>, Format), Error>,
            first: UploadRequest,
            second: UploadRequest,
            original: Result<String, Error>,
            derived: Result<String, Error>,
        |
            self.ingests(
                file_name,
                data,
                variant,
                generated,
                first,
                second,
                original,
                derived,
                res,
            )
    }

    /// Ingests `data` under the id `file_name` and derives `variant` from it.
    ///
    /// The input's format is read from its bytes; input without a supported
    /// format is refused with `FormatUnsupported` before any gateway is
    /// asked. Still images are handed to the image gateway and moving
    /// images to the video gateway; a failed generation is the result. Then
    /// both uploads are issued, the second also when the first has failed,
    /// so one object may be left stored without its counterpart.
    pub fn execute(&self, file_name: String, data: &[u8], variant: Variant) -> (res: Result<
        Image,
        Error,
    >)
        ensures
            detected_format(data@) is Err ==> res == Err::<Image, Error>(Error::FormatUnsupported),
            self.ingested(file_name, data, variant, res),
    {
        let ghost nothing: Result<String, Error> = Err(Error::FormatUnsupported);
        let ghost no_request: UploadRequest = arbitrary();
        let input_format = match Format::infer(data) {
            Ok(format) => format,
            Err(_) => {
                let res = Err(Error::FormatUnsupported);
                proof {
                    let g: Result<(Vec<u8>, Format), Error> = Err(Error::FormatUnsupported);
                    assert(self.ingests(
                        file_name,
                        data,
                        variant,
                        g,
                        no_request,
                        no_request,
                        nothing,
                        nothing,
                        res,
                    ));
                }
                return res;
            },
        };
        let generated = match input_format.backend() {
            Backend::Image => self.images.format(data, variant, input_format),
            Backend::Video => self.video.format(data, variant, input_format),
        };
        let ghost generated_answer = generated;
        let (bytes, output_format) = match generated {
            Ok(pair) => pair,
            Err(e) => {
                let res = Err(e);
                proof {
                    assert(self.ingests(
                        file_name,
                        data,
                        variant,
                        generated_answer,
                        no_request,
                        no_request,
                        nothing,
                        nothing,
                        res,
                    ));
                }
                return res;
            },
        };
        let (first, second) = plan_uploads(
            &file_name,
            data,
            variant,
            input_format,
            bytes,
            output_format,
        );
        let ghost first_request = first;
        let ghost second_request = second;
        let original = self.storage.upload(
            first.file_name,
            first.variant,
            first.content_type,
            first.body,
        );
        let derived = self.storage.upload(
            second.file_name,
            second.variant,
            second.content_type,
            second.body,
        );
        let ghost name = file_name;
        let res = assemble(file_name, input_format, output_format, original, derived);
        proof {
            assert(self.ingests(
                name,
                data,
                variant,
                generated_answer,
                first_request,
                second_request,
                original,
                derived,
                res,
            ));
        }
        res
    }
}

} // verus!
