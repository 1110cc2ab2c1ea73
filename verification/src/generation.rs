//! Producing a new background image: what is sent to the remote generation
//! service and what its reply amounts to.
//!
//! The caller performs the request. It hands the reply to
//! [`interpret_reply`], installs the image that comes back with
//! [`crate::asset_store::BackgroundState::replace`] and wakes its waiters.

use vstd::prelude::*;
use vstd::string::StringExecFns;
use crate::asset_store::BackgroundAsset;
use crate::codec::{
    base64_standard_decoding, base64_standard_encoding, decode_standard, encodable_len,
    encode_standard, fits_encoding,
};
use crate::failure::FailureKind;
use crate::http::{is_success, status_is_success};
use crate::image::{extract_base64_image, image_in, lemma_image_is_plausible};
use crate::json::{lemma_items_view, lemma_members_view, JsonModel, JsonValue};
use crate::text::{blank, first_chars, head_of, is_blank};

verus! {

/// The number of characters of a rejected reply's body that an error keeps.
pub const SNIPPET_CHARS: usize = 512;

/// Why no image was produced.
#[derive(Debug, PartialEq, Eq)]
pub enum GenerationError {
    /// The prompt held nothing but whitespace.
    EmptyPrompt,
    /// The request could not be sent or answered.
    RequestFailed { detail: String },
    /// The reply's body could not be read.
    BodyUnreadable { detail: String },
    /// The service answered outside the success class.
    Rejected { status: u16, snippet: String },
    /// The reply's body was not a JSON document.
    Unparseable { detail: String },
    /// The reply held no image.
    NoImage,
    /// The image's text could not be decoded.
    Undecodable,
}

/// A generation failure as a mathematical value.
pub enum GenerationFailure {
    EmptyPrompt,
    RequestFailed { detail: Seq<char> },
    BodyUnreadable { detail: Seq<char> },
    Rejected { status: u16, snippet: Seq<char> },
    Unparseable { detail: Seq<char> },
    NoImage,
    Undecodable,
}

impl View for GenerationError {
    type V = GenerationFailure;

    open spec fn view(&self) -> GenerationFailure {
        match self {
            GenerationError::EmptyPrompt => GenerationFailure::EmptyPrompt,
            GenerationError::RequestFailed { detail } => GenerationFailure::RequestFailed {
                detail: detail@,
            },
            GenerationError::BodyUnreadable { detail } => GenerationFailure::BodyUnreadable {
                detail: detail@,
            },
            GenerationError::Rejected { status, snippet } => GenerationFailure::Rejected {
                status: *status,
                snippet: snippet@,
            },
            GenerationError::Unparseable { detail } => GenerationFailure::Unparseable {
                detail: detail@,
            },
            GenerationError::NoImage => GenerationFailure::NoImage,
            GenerationError::Undecodable => GenerationFailure::Undecodable,
        }
    }
}

impl GenerationFailure {
    /// The kind of this failure.
    pub open spec fn kind(self) -> FailureKind {
        match self {
            GenerationFailure::EmptyPrompt => FailureKind::InvalidInput,
            GenerationFailure::RequestFailed { .. } => FailureKind::Transient,
            GenerationFailure::BodyUnreadable { .. } => FailureKind::Transient,
            GenerationFailure::Rejected { .. } => FailureKind::RemoteRejected,
            GenerationFailure::Unparseable { .. } => FailureKind::Fatal,
            GenerationFailure::NoImage => FailureKind::Fatal,
            GenerationFailure::Undecodable => FailureKind::Fatal,
        }
    }
}

impl GenerationError {
    /// The kind of this failure.
    pub fn kind(&self) -> (kind: FailureKind)
        ensures
            kind == self@.kind(),
    {
        match self {
            GenerationError::EmptyPrompt => FailureKind::InvalidInput,
            GenerationError::RequestFailed { .. } => FailureKind::Transient,
            GenerationError::BodyUnreadable { .. } => FailureKind::Transient,
            GenerationError::Rejected { .. } => FailureKind::RemoteRejected,
            GenerationError::Unparseable { .. } => FailureKind::Fatal,
            GenerationError::NoImage => FailureKind::Fatal,
            GenerationError::Undecodable => FailureKind::Fatal,
        }
    }
}

/// What came back from the generation service.
#[derive(Debug, PartialEq, Eq)]
pub enum GenerationReply {
    /// The request failed before a status was received.
    RequestFailed { detail: String },
    /// A status was received and the body could not be read.
    BodyUnreadable { detail: String },
    /// A status and a body were received. `document` is the body parsed as
    /// JSON, or the parser's complaint.
    Received { status: u16, body: String, document: Result<JsonValue, String> },
}

/// An image ready to be installed and shown.
#[derive(Debug, PartialEq, Eq)]
pub struct GeneratedImage {
    pub bytes: Vec<u8>,
    pub mime: String,
    pub data_url: String,
}

/// A generated image as a mathematical value.
pub struct GeneratedModel {
    pub bytes: Seq<u8>,
    pub mime: Seq<char>,
    pub data_url: Seq<char>,
}

impl View for GeneratedImage {
    type V = GeneratedModel;

    open spec fn view(&self) -> GeneratedModel {
        GeneratedModel { bytes: self.bytes@, mime: self.mime@, data_url: self.data_url@ }
    }
}

/// A rejected reply's body as an error keeps it: the whole body, or its first
/// 512 characters followed by an ellipsis.
pub open spec fn error_snippet(body: Seq<char>) -> Seq<char> {
    if body.len() > SNIPPET_CHARS {
        head_of(body, SNIPPET_CHARS as nat).push('\u{2026}')
    } else {
        body
    }
}

/// The `data:` URL that carries base64 text of the given content type.
pub open spec fn data_url_of(mime: Seq<char>, data: Seq<char>) -> Seq<char> {
    "data:"@ + mime + ";base64,"@ + data
}

/// The content type of a located image: the one the document names, or PNG.
pub open spec fn mime_or_default(mime: Option<Seq<char>>) -> Seq<char> {
    match mime {
        Some(mime) => mime,
        None => "image/png"@,
    }
}

/// The view of an interpreted reply.
pub open spec fn outcome_view(outcome: Result<GeneratedImage, GenerationError>) -> Result<
    GeneratedModel,
    GenerationFailure,
> {
    match outcome {
        Ok(image) => Ok(image@),
        Err(error) => Err(error@),
    }
}

/// What a reply amounts to. A reply outside the success class is rejected
/// with a snippet of its body; otherwise the body must parse, hold an image,
/// and the image's text must decode.
pub open spec fn interpretation(reply: GenerationReply) -> Result<
    GeneratedModel,
    GenerationFailure,
> {
    match reply {
        GenerationReply::RequestFailed { detail } => Err(
            GenerationFailure::RequestFailed { detail: detail@ },
        ),
        GenerationReply::BodyUnreadable { detail } => Err(
            GenerationFailure::BodyUnreadable { detail: detail@ },
        ),
        GenerationReply::Received { status, body, document } => if !status_is_success(status) {
            Err(GenerationFailure::Rejected { status, snippet: error_snippet(body@) })
        } else {
            match document {
                Err(detail) => Err(GenerationFailure::Unparseable { detail: detail@ }),
                Ok(document) => match image_in(document@) {
                    None => Err(GenerationFailure::NoImage),
                    Some((data, mime)) => match base64_standard_decoding(data) {
                        None => Err(GenerationFailure::Undecodable),
                        Some(bytes) => Ok(
                            GeneratedModel {
                                bytes,
                                mime: mime_or_default(mime),
                                data_url: data_url_of(mime_or_default(mime), data),
                            },
                        ),
                    },
                },
            }
        },
    }
}

/// The request part that carries the prompt.
pub open spec fn text_part(prompt: Seq<char>) -> JsonModel {
    JsonModel::Object(seq![("text"@, JsonModel::Text(prompt))])
}

/// The request part that carries the previous image as context.
pub open spec fn image_part(asset: (Seq<u8>, Seq<char>)) -> JsonModel {
    JsonModel::Object(
        seq![
            (
                "inlineData"@,
                JsonModel::Object(
                    seq![
                        ("mimeType"@, JsonModel::Text(asset.1)),
                        ("data"@, JsonModel::Text(base64_standard_encoding(asset.0))),
                    ],
                ),
            ),
        ],
    )
}

/// The parts of a request: the prompt, then the previous image where there
/// is one.
pub open spec fn request_parts(prompt: Seq<char>, previous: Option<(Seq<u8>, Seq<char>)>) -> Seq<
    JsonModel,
> {
    match previous {
        Some(asset) => seq![text_part(prompt), image_part(asset)],
        None => seq![text_part(prompt)],
    }
}

/// The fixed generation settings: a 16:9 image.
pub open spec fn generation_config() -> JsonModel {
    JsonModel::Object(
        seq![("imageConfig"@, JsonModel::Object(seq![("aspectRatio"@, JsonModel::Text("16:9"@))]))],
    )
}

/// The body of a generation request.
pub open spec fn generation_request(
    prompt: Seq<char>,
    previous: Option<(Seq<u8>, Seq<char>)>,
) -> JsonModel {
    JsonModel::Object(
        seq![
            (
                "contents"@,
                JsonModel::Array(
                    seq![
                        JsonModel::Object(
                            seq![("parts"@, JsonModel::Array(request_parts(prompt, previous)))],
                        ),
                    ],
                ),
            ),
            ("generationConfig"@, generation_config()),
        ],
    )
}

/// The content of an optional borrowed asset.
pub open spec fn borrowed_payload(asset: Option<&BackgroundAsset>) -> Option<(Seq<u8>, Seq<char>)> {
    match asset {
        Some(asset) => Some(asset@),
        None => None,
    }
}

/// The request part that carries the previous image as context.
fn previous_image_part(asset: &BackgroundAsset) -> (part: JsonValue)
    requires
        encodable_len(asset.bytes@.len()),
    ensures
        part@ == image_part(asset@),
{
    let mut inline: Vec<(String, JsonValue)> = Vec::new();
    inline.push((String::from_str("mimeType"), JsonValue::text(asset.mime.as_str())));
    let encoded = encode_standard(asset.bytes.as_slice());
    inline.push((String::from_str("data"), JsonValue::text(encoded.as_str())));
    proof {
        lemma_members_view(inline@);
        assert(crate::json::members_view(inline@) =~= seq![
            ("mimeType"@, JsonModel::Text(asset.mime@)),
            ("data"@, JsonModel::Text(base64_standard_encoding(asset.bytes@))),
        ]);
    }
    JsonValue::object_of("inlineData", JsonValue::object(inline))
}

/// Builds the body of a generation request: the prompt, the previous image
/// as context where there is one, and the fixed generation settings.
pub fn build_generation_request(prompt: &str, previous: Option<&BackgroundAsset>) -> (body:
    JsonValue)
    requires
        previous matches Some(asset) ==> encodable_len(asset.bytes@.len()),
    ensures
        body@ == generation_request(prompt@, borrowed_payload(previous)),
{
    let mut parts: Vec<JsonValue> = Vec::new();
    parts.push(JsonValue::object_of("text", JsonValue::text(prompt)));
    if let Some(asset) = previous {
        parts.push(previous_image_part(asset));
    }
    proof {
        lemma_items_view(parts@);
        assert(crate::json::items_view(parts@) =~= request_parts(
            prompt@,
            borrowed_payload(previous),
        ));
    }
    let mut contents: Vec<JsonValue> = Vec::new();
    contents.push(JsonValue::object_of("parts", JsonValue::array(parts)));
    proof {
        lemma_items_view(contents@);
        assert(crate::json::items_view(contents@) =~= seq![
            JsonModel::Object(
                seq![
                    (
                        "parts"@,
                        JsonModel::Array(request_parts(prompt@, borrowed_payload(previous))),
                    ),
                ],
            ),
        ]);
    }
    let config = JsonValue::object_of(
        "imageConfig",
        JsonValue::object_of("aspectRatio", JsonValue::text("16:9")),
    );
    let mut body: Vec<(String, JsonValue)> = Vec::new();
    body.push((String::from_str("contents"), JsonValue::array(contents)));
    body.push((String::from_str("generationConfig"), config));
    proof {
        lemma_members_view(body@);
        assert(crate::json::members_view(body@) =~= seq![
            (
                "contents"@,
                JsonModel::Array(
                    seq![
                        JsonModel::Object(
                            seq![
                                (
                                    "parts"@,
                                    JsonModel::Array(
                                        request_parts(prompt@, borrowed_payload(previous)),
                                    ),
                                ),
                            ],
                        ),
                    ],
                ),
            ),
            ("generationConfig"@, generation_config()),
        ]);
    }
    JsonValue::object(body)
}

/// The search only locates text that decodes, so no reply is ever
/// interpreted as holding an undecodable image.
pub proof fn lemma_located_image_decodes(reply: GenerationReply)
    ensures
        interpretation(reply) != Err::<GeneratedModel, GenerationFailure>(
            GenerationFailure::Undecodable,
        ),
{
    match reply {
        GenerationReply::Received { status, body, document } => {
            match document {
                Ok(document) => {
                    lemma_image_is_plausible(document@);
                },
                Err(_) => {},
            }
        },
        _ => {},
    }
}

/// Builds the body of a generation request, unless the previous image is too
/// large for its encoding to be held.
pub fn try_build_generation_request(prompt: &str, previous: Option<&BackgroundAsset>) -> (body:
    Option<JsonValue>)
    ensures
        match previous {
            Some(asset) if !encodable_len(asset.bytes@.len()) => body is None,
            _ => body is Some && body->0@ == generation_request(
                prompt@,
                borrowed_payload(previous),
            ),
        },
{
    if let Some(asset) = previous {
        if !fits_encoding(asset.bytes.len()) {
            return None;
        }
    }
    Some(build_generation_request(prompt, previous))
}

/// Rejects a prompt that holds nothing but whitespace.
pub fn validate_prompt(prompt: &str) -> (checked: Result<(), GenerationError>)
    ensures
        is_blank(prompt@) ==> checked matches Err(GenerationError::EmptyPrompt),
        !is_blank(prompt@) ==> checked is Ok,
{
    if blank(prompt) {
        Err(GenerationError::EmptyPrompt)
    } else {
        Ok(())
    }
}

/// The snippet of a rejected reply's body.
pub fn snippet_of(body: &str) -> (snippet: String)
    ensures
        snippet@ == error_snippet(body@),
{
    let count = body.unicode_len();
    if count > SNIPPET_CHARS {
        let mut snippet = first_chars(body, SNIPPET_CHARS);
        snippet.append("\u{2026}");
        proof {
            reveal_strlit("\u{2026}");
            assert("\u{2026}"@ =~= seq!['\u{2026}']);
            assert(snippet@ =~= head_of(body@, SNIPPET_CHARS as nat).push('\u{2026}'));
        }
        snippet
    } else {
        String::from_str(body)
    }
}

/// The `data:` URL for base64 text of the given content type.
pub fn data_url(mime: &str, data: &str) -> (url: String)
    ensures
        url@ == data_url_of(mime@, data@),
{
    let mut url = String::from_str("data:");
    url.append(mime);
    url.append(";base64,");
    url.append(data);
    url
}

/// Interprets the reply of the generation service.
pub fn interpret_reply(reply: GenerationReply) -> (outcome: Result<GeneratedImage, GenerationError>)
    ensures
        outcome_view(outcome) == interpretation(reply),
{
    match reply {
        GenerationReply::RequestFailed { detail } => Err(GenerationError::RequestFailed { detail }),
        GenerationReply::BodyUnreadable { detail } => Err(
            GenerationError::BodyUnreadable { detail },
        ),
        GenerationReply::Received { status, body, document } => {
            if !is_success(status) {
                let snippet = snippet_of(body.as_str());
                return Err(GenerationError::Rejected { status, snippet });
            }
            let document = match document {
                Ok(document) => document,
                Err(detail) => {
                    return Err(GenerationError::Unparseable { detail });
                },
            };
            let (data, mime) = match extract_base64_image(&document) {
                Some(found) => found,
                None => {
                    return Err(GenerationError::NoImage);
                },
            };
            let mime = match mime {
                Some(mime) => mime,
                None => String::from_str("image/png"),
            };
            let bytes = match decode_standard(data.as_str()) {
                Ok(bytes) => bytes,
                Err(_) => {
                    return Err(GenerationError::Undecodable);
                },
            };
            let data_url = data_url(mime.as_str(), data.as_str());
            Ok(GeneratedImage { bytes, mime, data_url })
        },
    }
}

} // verus!
