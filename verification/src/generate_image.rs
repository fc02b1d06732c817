//! Image generation: sniffing the media type of image data, planning how
//! many images each model call asks for, and the result record.

use crate::generated_file::{base64_decode, base64_decoded, GeneratedFile, DataContent, data_view};
use crate::metadata::ImageModelResponseMetadata;
use vstd::prelude::*;

use crate::embed::{merge_provider_metadata, merged_metadata, ProviderMetadata};
use crate::error::AISDKError;
use crate::tool::JsonValue;

verus! {

broadcast use vstd::string::group_string_axioms;

/// Declares `serde_json::Value`, which results carry as provider metadata
/// and tool calls carry as inputs and outputs.
#[verifier::external_type_specification]
#[verifier::external_body]
pub struct ExJsonValue(serde_json::Value);

/// `serde_json::Value` derives `Clone`: a clone is the same value.
pub assume_specification[ <serde_json::Value as Clone>::clone ](v: &serde_json::Value) -> (r:
    serde_json::Value)
    ensures
        r == *v,
;

/// A warning that a model returned with its result.
#[derive(Debug, PartialEq)]
pub enum CallWarning {
    /// A setting that the model does not support.
    UnsupportedSetting { setting: String, details: Option<String> },
    /// Any other warning.
    Other { message: String },
}

impl Clone for CallWarning {
    /// The same warning.
    fn clone(&self) -> (r: Self)
        ensures
            r == *self,
    {
        match self {
            CallWarning::UnsupportedSetting { setting, details } => CallWarning::UnsupportedSetting {
                setting: setting.clone(),
                details: match details {
                    Some(d) => Some(d.clone()),
                    None => None,
                },
            },
            CallWarning::Other { message } => CallWarning::Other { message: message.clone() },
        }
    }
}

impl CallWarning {
    /// A warning that the setting `setting` is not supported.
    pub fn unsupported_setting(setting: &str) -> (w: Self)
        ensures
            w matches CallWarning::UnsupportedSetting { setting: s, details: None } && s@ == setting@,
    {
        CallWarning::UnsupportedSetting { setting: setting.to_string(), details: None }
    }

    /// Any other warning, with the message `message`.
    pub fn other(message: &str) -> (w: Self)
        ensures
            w matches CallWarning::Other { message: m } && m@ == message@,
    {
        CallWarning::Other { message: message.to_string() }
    }
}

/// A copy of optional warnings, the same warnings in the same order.
pub fn clone_warnings(w: &Option<Vec<CallWarning>>) -> (r: Option<Vec<CallWarning>>)
    ensures
        r is Some <==> w is Some,
        r is Some ==> r->0@ == w->0@,
{
    match w {
        Some(v) => {
            let n = v.len();
            let mut out: Vec<CallWarning> = Vec::new();
            let mut k: usize = 0;
            while k < n
                invariant
                    n == v@.len(),
                    k <= n,
                    out@ == v@.subrange(0, k as int),
                decreases n - k,
            {
                out.push(v[k].clone());
                assert(out@ =~= v@.subrange(0, k as int + 1));
                k = k + 1;
            }
            assert(v@.subrange(0, n as int) =~= v@);
            Some(out)
        },
        None => None,
    }
}

/// Image data as a model returns it.
#[derive(Debug)]
pub enum ImageData {
    /// Base64 text.
    Base64(String),
    /// Raw bytes.
    Binary(Vec<u8>),
}

/// The media type that the leading bytes of an image announce: PNG, JPEG,
/// WebP (a RIFF container of type WEBP) or GIF (87a or 89a); PNG when the
/// data is shorter than four bytes or has none of these signatures.
pub open spec fn spec_image_media_type(b: Seq<u8>) -> Seq<char> {
    if b.len() < 4 {
        "image/png"@
    } else if b[0] == 0x89 && b[1] == 0x50 && b[2] == 0x4e && b[3] == 0x47 {
        "image/png"@
    } else if b[0] == 0xff && b[1] == 0xd8 && b[2] == 0xff {
        "image/jpeg"@
    } else if b.len() >= 12 && b[0] == 0x52 && b[1] == 0x49 && b[2] == 0x46 && b[3] == 0x46
        && b[8] == 0x57 && b[9] == 0x45 && b[10] == 0x42 && b[11] == 0x50 {
        "image/webp"@
    } else if b.len() >= 6 && b[0] == 0x47 && b[1] == 0x49 && b[2] == 0x46 && b[3] == 0x38 && (
    b[4] == 0x37 || b[4] == 0x39) && b[5] == 0x61 {
        "image/gif"@
    } else {
        "image/png"@
    }
}

/// Detects the media type of image bytes from their signature.
pub fn detect_media_type_from_bytes(bytes: &[u8]) -> (r: String)
    ensures
        r@ == spec_image_media_type(bytes@),
{
    let n = bytes.len();
    if n < 4 {
        return "image/png".to_string();
    }
    if bytes[0] == 0x89 && bytes[1] == 0x50 && bytes[2] == 0x4e && bytes[3] == 0x47 {
        return "image/png".to_string();
    }
    if bytes[0] == 0xff && bytes[1] == 0xd8 && bytes[2] == 0xff {
        return "image/jpeg".to_string();
    }
    if n >= 12 && bytes[0] == 0x52 && bytes[1] == 0x49 && bytes[2] == 0x46 && bytes[3] == 0x46
        && bytes[8] == 0x57 && bytes[9] == 0x45 && bytes[10] == 0x42 && bytes[11] == 0x50 {
        return "image/webp".to_string();
    }
    if n >= 6 && bytes[0] == 0x47 && bytes[1] == 0x49 && bytes[2] == 0x46 && bytes[3] == 0x38 && (
    bytes[4] == 0x37 || bytes[4] == 0x39) && bytes[5] == 0x61 {
        return "image/gif".to_string();
    }
    "image/png".to_string()
}

/// The media type of image data: base64 text is decoded first, and text
/// that does not decode counts as PNG.
pub open spec fn spec_image_data_media_type(d: ImageData) -> Seq<char> {
    match d {
        ImageData::Base64(s) => match base64_decoded(s@) {
            Some(b) => spec_image_media_type(b),
            None => "image/png"@,
        },
        ImageData::Binary(b) => spec_image_media_type(b@),
    }
}

/// Detects the media type of image data.
pub fn detect_image_media_type(image_data: &ImageData) -> (r: String)
    ensures
        r@ == spec_image_data_media_type(*image_data),
{
    match image_data {
        ImageData::Base64(s) => match base64_decode(s.as_str()) {
            Some(b) => detect_media_type_from_bytes(b.as_slice()),
            None => "image/png".to_string(),
        },
        ImageData::Binary(b) => detect_media_type_from_bytes(b.as_slice()),
    }
}

/// The generated file that holds image data, with the given media type.
pub fn image_data_to_generated_file(image_data: ImageData, media_type: &str) -> (f: GeneratedFile)
    ensures
        f.media_type@ == media_type@,
        f.name is None,
        match image_data {
            ImageData::Base64(s) => f.data matches DataContent::Base64(t) && t@ == s@,
            ImageData::Binary(b) => f.data == DataContent::Bytes(b),
        },
{
    match image_data {
        ImageData::Base64(s) => GeneratedFile::from_base64(s.as_str(), media_type),
        ImageData::Binary(b) => GeneratedFile::from_bytes(b, media_type),
    }
}

/// The sum of a list of counts.
pub open spec fn sum_counts(c: Seq<u32>) -> nat
    decreases c.len(),
{
    if c.len() == 0 {
        0
    } else {
        sum_counts(c.drop_last()) + c.last() as nat
    }
}

/// `counts` asks for `n` images in calls of at most `max_per_call` images
/// each: every call but the last asks for exactly `max_per_call`, and no
/// call asks for none.
pub open spec fn is_image_call_plan(counts: Seq<u32>, n: nat, max_per_call: nat) -> bool {
    &&& sum_counts(counts) == n
    &&& forall|i: int| 0 <= i < counts.len() ==> 1 <= #[trigger] counts[i] <= max_per_call
    &&& forall|i: int| 0 <= i < counts.len() - 1 ==> #[trigger] counts[i] == max_per_call
}

/// How many images each model call asks for when `n` images are wanted and
/// a call may produce at most `max_images_per_call`: full calls followed by
/// one call for the remainder (no call at all when `n` is 0).
pub fn plan_image_calls(n: u32, max_images_per_call: u32) -> (counts: Vec<u32>)
    requires
        max_images_per_call > 0,
    ensures
        is_image_call_plan(counts@, n as nat, max_images_per_call as nat),
{
    let mut counts: Vec<u32> = Vec::new();
    let mut remaining = n;
    while remaining > 0
        invariant
            max_images_per_call > 0,
            remaining <= n,
            sum_counts(counts@) + remaining == n,
            forall|i: int| 0 <= i < counts@.len() ==> 1 <= #[trigger] counts@[i] <= max_images_per_call,
            forall|i: int| 0 <= i < counts@.len() ==> #[trigger] counts@[i] == max_images_per_call,
        decreases remaining,
    {
        let c = if remaining < max_images_per_call { remaining } else { max_images_per_call };
        let ghost old_counts = counts@;
        counts.push(c);
        assert(counts@.drop_last() =~= old_counts);
        remaining = remaining - c;
        if remaining > 0 {
            assert(c == max_images_per_call);
        } else {
            proof {
                if counts@.len() > 0 {
                    assert forall|i: int| 0 <= i < counts@.len() - 1 implies #[trigger] counts@[i]
                        == max_images_per_call by {
                        assert(counts@[i] == old_counts[i]);
                    }
                }
            }
            return counts;
        }
    }
    counts
}

/// The result of generating images.
#[derive(Debug)]
pub struct GenerateImageResult {
    /// The first image.
    pub image: GeneratedFile,
    /// All images, the first one included.
    pub images: Vec<GeneratedFile>,
    /// Warnings from the model calls.
    pub warnings: Vec<CallWarning>,
    /// Metadata of every model response.
    pub responses: Vec<ImageModelResponseMetadata>,
    /// Provider-specific metadata: for each provider, values by name.
    pub provider_metadata: Option<ProviderMetadata>,
}

impl GenerateImageResult {
    /// A result for a non-empty list of images; the first one is also the
    /// `image`.
    pub fn new(images: Vec<GeneratedFile>, responses: Vec<ImageModelResponseMetadata>) -> (r: Self)
        requires
            images@.len() > 0,
        ensures
            data_view(r.image.data) == data_view(images@[0].data),
            r.image.media_type@ == images@[0].media_type@,
            crate::generated_file::opt_string_eq(r.image.name, images@[0].name),
            r.images == images,
            r.warnings@.len() == 0,
            r.responses == responses,
            r.provider_metadata is None,
    {
        let first = images[0].clone();
        GenerateImageResult {
            image: first,
            images,
            warnings: Vec::new(),
            responses,
            provider_metadata: None,
        }
    }

    /// The same result with its warnings replaced.
    pub fn with_warnings(self, warnings: Vec<CallWarning>) -> (r: Self)
        ensures
            r.warnings == warnings,
            r.image == self.image,
            r.images == self.images,
            r.responses == self.responses,
            r.provider_metadata == self.provider_metadata,
    {
        GenerateImageResult { warnings, ..self }
    }

    /// The same result with one more warning.
    pub fn with_warning(self, warning: CallWarning) -> (r: Self)
        ensures
            r.warnings@ == self.warnings@.push(warning),
            r.image == self.image,
            r.images == self.images,
            r.responses == self.responses,
            r.provider_metadata == self.provider_metadata,
    {
        let mut warnings = self.warnings;
        warnings.push(warning);
        GenerateImageResult { warnings, ..self }
    }

    /// The same result with provider metadata.
    pub fn with_provider_metadata(self, metadata: ProviderMetadata) -> (r: Self)
        ensures
            r.provider_metadata == Some(metadata),
            r.warnings == self.warnings,
            r.image == self.image,
            r.images == self.images,
            r.responses == self.responses,
    {
        GenerateImageResult { provider_metadata: Some(metadata), ..self }
    }
}

/// The message of the error for a model of a specification version other
/// than `v3`.
pub open spec fn unsupported_version_message(version: Seq<char>, provider: Seq<char>, model_id: Seq<char>) -> Seq<char> {
    "Unsupported model version: "@ + version + ". Provider: "@ + provider + ", Model ID: "@ + model_id
}

/// Accepts a model of specification version `v3`; any other version is a
/// model error that names the version, the provider and the model.
pub fn check_specification_version(version: &str, provider: &str, model_id: &str) -> (r: Result<
    (),
    AISDKError,
>)
    ensures
        r is Ok <==> version@ == "v3"@,
        r matches Err(e) ==> e matches AISDKError::ModelError { message }
            && message@ == unsupported_version_message(version@, provider@, model_id@),
{
    let v = version.to_string();
    if v == "v3".to_string() {
        Ok(())
    } else {
        let message = "Unsupported model version: ".to_string().concat(version).concat(
            ". Provider: ",
        ).concat(provider).concat(", Model ID: ").concat(model_id);
        Err(AISDKError::ModelError { message })
    }
}

} // verus!

verus! {

/// What one call of an image model returned.
#[derive(Debug)]
pub struct ImageModelReply {
    /// The images of the call, in order.
    pub images: Vec<ImageData>,
    pub warnings: Vec<CallWarning>,
    pub response: ImageModelResponseMetadata,
    pub provider_metadata: Option<ProviderMetadata>,
}

/// The images of all replies, reply after reply.
pub open spec fn all_images(replies: Seq<ImageModelReply>) -> Seq<ImageData>
    decreases replies.len(),
{
    if replies.len() == 0 {
        Seq::empty()
    } else {
        all_images(replies.drop_last()) + replies.last().images@
    }
}

/// The warnings of all replies, reply after reply.
pub open spec fn all_warnings(replies: Seq<ImageModelReply>) -> Seq<CallWarning>
    decreases replies.len(),
{
    if replies.len() == 0 {
        Seq::empty()
    } else {
        all_warnings(replies.drop_last()) + replies.last().warnings@
    }
}

/// The response of each reply, in order.
pub open spec fn all_responses(replies: Seq<ImageModelReply>) -> Seq<ImageModelResponseMetadata> {
    replies.map_values(|r: ImageModelReply| r.response)
}

/// The provider metadata of optional metadata.
pub open spec fn opt_metadata_view(m: Option<ProviderMetadata>) -> Option<
    Map<Seq<char>, Map<Seq<char>, JsonValue>>,
> {
    match m {
        Some(c) => Some(c@),
        None => None,
    }
}

/// The provider metadata of all replies merged, reply after reply: each
/// provider's values of a later reply are added to those before, replacing
/// values of the same name; nothing when no reply has metadata.
pub open spec fn all_metadata(replies: Seq<ImageModelReply>) -> Option<
    Map<Seq<char>, Map<Seq<char>, JsonValue>>,
>
    decreases replies.len(),
{
    if replies.len() == 0 {
        None
    } else {
        let before = all_metadata(replies.drop_last());
        match replies.last().provider_metadata {
            None => before,
            Some(m) => match before {
                None => Some(m@),
                Some(c) => Some(merged_metadata(c, m@)),
            },
        }
    }
}

/// `f` is the generated file of the image `d`: its data as it came, the
/// media type that its signature announces, and no name.
pub open spec fn is_image_file(d: ImageData, f: GeneratedFile) -> bool {
    &&& f.media_type@ == spec_image_data_media_type(d)
    &&& f.name is None
    &&& match d {
        ImageData::Base64(s) => f.data matches DataContent::Base64(t) && t@ == s@,
        ImageData::Binary(b) => f.data == DataContent::Bytes(b),
    }
}

/// The message of the error when no call returned an image.
pub open spec fn no_images_message() -> Seq<char> {
    "No images were generated by the model"@
}

/// The result of an image generation from the replies of its calls, in
/// call order: all images with their detected media types, all warnings,
/// one response per call and the merged provider metadata; the error that
/// no image was generated, with all responses, when no call returned one.
pub fn image_result_of(replies: Vec<ImageModelReply>) -> (r: Result<GenerateImageResult, AISDKError>)
    ensures
        ({
            let images = all_images(replies@);
            &&& r is Err <==> images.len() == 0
            &&& r matches Err(e) ==> e is NoImageGenerated
                && e->NoImageGenerated_message@ == no_images_message()
                && e->NoImageGenerated_responses is Some
                && e->NoImageGenerated_responses->0@ == all_responses(replies@)
            &&& r matches Ok(g) ==> {
                &&& g.images@.len() == images.len()
                &&& forall|i: int|
                    0 <= i < images.len() ==> is_image_file(images[i], #[trigger] g.images@[i])
                &&& data_view(g.image.data) == data_view(g.images@[0].data)
                &&& g.image.media_type@ == g.images@[0].media_type@
                &&& g.image.name is None
                &&& g.warnings@ == all_warnings(replies@)
                &&& g.responses@ == all_responses(replies@)
                &&& opt_metadata_view(g.provider_metadata) == all_metadata(replies@)
            }
        }),
{
    let ghost orig = replies@;
    let mut rest = replies;
    let mut files: Vec<GeneratedFile> = Vec::new();
    let mut warnings: Vec<CallWarning> = Vec::new();
    let mut responses: Vec<ImageModelResponseMetadata> = Vec::new();
    let mut combined: Option<ProviderMetadata> = None;
    let n = rest.len();
    let mut k: usize = 0;
    assert(orig.take(0) =~= Seq::<ImageModelReply>::empty());
    assert(all_responses(orig.take(0)) =~= Seq::<ImageModelResponseMetadata>::empty());
    while k < n
        invariant
            n == orig.len(),
            k <= n,
            rest@ == orig.subrange(k as int, n as int),
            files@.len() == all_images(orig.take(k as int)).len(),
            forall|i: int|
                0 <= i < files@.len() ==> is_image_file(
                    all_images(orig.take(k as int))[i],
                    #[trigger] files@[i],
                ),
            warnings@ == all_warnings(orig.take(k as int)),
            responses@ == all_responses(orig.take(k as int)),
            opt_metadata_view(combined) == all_metadata(orig.take(k as int)),
        decreases n - k,
    {
        let ghost before_rest = rest@;
        let reply = rest.remove(0);
        assert(reply == orig[k as int]);
        assert(rest@ =~= orig.subrange(k as int + 1, n as int));
        let ghost prefix = orig.take(k as int);
        let ghost next = orig.take(k as int + 1);
        assert(next.drop_last() =~= prefix);
        assert(next.last() == reply);
        let ghost done = all_images(prefix);
        let ghost cur = reply.images@;
        let mut imgs = reply.images;
        let m = imgs.len();
        let mut j: usize = 0;
        while j < m
            invariant
                m == cur.len(),
                j <= m,
                imgs@ == cur.subrange(j as int, m as int),
                files@.len() == done.len() + j,
                forall|i: int|
                    0 <= i < files@.len() ==> is_image_file(
                        (done + cur)[i],
                        #[trigger] files@[i],
                    ),
            decreases m - j,
        {
            let d = imgs.remove(0);
            assert(d == cur[j as int]);
            assert(imgs@ =~= cur.subrange(j as int + 1, m as int));
            let media_type = detect_image_media_type(&d);
            let f = image_data_to_generated_file(d, media_type.as_str());
            files.push(f);
            j = j + 1;
        }
        assert(all_images(next) =~= done + cur);
        let mut w = reply.warnings;
        warnings.append(&mut w);
        responses.push(reply.response);
        assert(all_responses(next) =~= all_responses(prefix).push(reply.response));
        combined = match reply.provider_metadata {
            None => combined,
            Some(md) => Some(merge_provider_metadata(combined, md)),
        };
        k = k + 1;
    }
    assert(orig.take(n as int) =~= orig);
    if files.len() == 0 {
        return Err(
            AISDKError::no_image_generated_with_responses(
                "No images were generated by the model",
                responses,
            ),
        );
    }
    let result = GenerateImageResult::new(files, responses).with_warnings(warnings);
    match combined {
        Some(md) => Ok(result.with_provider_metadata(md)),
        None => Ok(result),
    }
}

} // verus!

verus! {

/// Image bytes that start with the JPEG start-of-image marker `FF D8 FF`
/// are JPEG, whatever marker follows (JFIF, Exif or another); bytes that
/// start with the PNG signature are PNG.
pub proof fn lemma_jpeg_and_png_signatures(b: Seq<u8>)
    ensures
        b.len() >= 4 && b[0] == 0xff && b[1] == 0xd8 && b[2] == 0xff ==> spec_image_media_type(b)
            == "image/jpeg"@,
        b.len() >= 4 && b[0] == 0x89 && b[1] == 0x50 && b[2] == 0x4e && b[3] == 0x47
            ==> spec_image_media_type(b) == "image/png"@,
{
    reveal_strlit("image/jpeg");
    reveal_strlit("image/png");
}

} // verus!
