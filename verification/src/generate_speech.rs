//! Speech generation: sniffing the media type of audio data, the audio file
//! record with its format, and the result record.

use crate::error::AISDKError;
use crate::generate_image::CallWarning;
use crate::generated_file::{
    base64_decode, base64_decoded, content_base64, content_bytes, data_view, opt_string_eq,
    DataContent, GeneratedFile,
};
use crate::metadata::SpeechModelResponseMetadata;
use crate::text::chars_of;
use vstd::prelude::*;
use vstd::string::*;

verus! {

broadcast use vstd::string::group_string_axioms;

/// The media type that the leading bytes of audio announce: MPEG with an
/// ID3 tag, WAV (a RIFF container of type WAVE), Ogg, FLAC, WebM (EBML),
/// AAC (ADTS frame sync) or MPEG (frame sync); `audio/mp3` otherwise and
/// for data shorter than four bytes that has no ID3 tag.
pub open spec fn spec_audio_media_type(b: Seq<u8>) -> Seq<char> {
    if b.len() >= 3 && b[0] == 0x49 && b[1] == 0x44 && b[2] == 0x33 {
        "audio/mpeg"@
    } else if b.len() < 4 {
        "audio/mp3"@
    } else if b.len() >= 12 && b[0] == 0x52 && b[1] == 0x49 && b[2] == 0x46 && b[3] == 0x46
        && b[8] == 0x57 && b[9] == 0x41 && b[10] == 0x56 && b[11] == 0x45 {
        "audio/wav"@
    } else if b[0] == 0x4f && b[1] == 0x67 && b[2] == 0x67 && b[3] == 0x53 {
        "audio/ogg"@
    } else if b[0] == 0x66 && b[1] == 0x4c && b[2] == 0x61 && b[3] == 0x43 {
        "audio/flac"@
    } else if b[0] == 0x1a && b[1] == 0x45 && b[2] == 0xdf && b[3] == 0xa3 {
        "audio/webm"@
    } else if b[0] == 0xff && b[1] & 0xf6 == 0xf0 {
        "audio/aac"@
    } else if b[0] == 0xff && b[1] & 0xe0 == 0xe0 {
        "audio/mpeg"@
    } else {
        "audio/mp3"@
    }
}

/// Detects the media type of audio bytes from their signature.
pub fn detect_media_type_from_bytes(bytes: &[u8]) -> (r: String)
    ensures
        r@ == spec_audio_media_type(bytes@),
{
    let n = bytes.len();
    if n >= 3 && bytes[0] == 0x49 && bytes[1] == 0x44 && bytes[2] == 0x33 {
        return "audio/mpeg".to_string();
    }
    if n < 4 {
        return "audio/mp3".to_string();
    }
    if n >= 12 && bytes[0] == 0x52 && bytes[1] == 0x49 && bytes[2] == 0x46 && bytes[3] == 0x46
        && bytes[8] == 0x57 && bytes[9] == 0x41 && bytes[10] == 0x56 && bytes[11] == 0x45 {
        return "audio/wav".to_string();
    }
    if bytes[0] == 0x4f && bytes[1] == 0x67 && bytes[2] == 0x67 && bytes[3] == 0x53 {
        return "audio/ogg".to_string();
    }
    if bytes[0] == 0x66 && bytes[1] == 0x4c && bytes[2] == 0x61 && bytes[3] == 0x43 {
        return "audio/flac".to_string();
    }
    if bytes[0] == 0x1a && bytes[1] == 0x45 && bytes[2] == 0xdf && bytes[3] == 0xa3 {
        return "audio/webm".to_string();
    }
    if bytes[0] == 0xff {
        if bytes[1] & 0xf6 == 0xf0 {
            return "audio/aac".to_string();
        }
        if bytes[1] & 0xe0 == 0xe0 {
            return "audio/mpeg".to_string();
        }
    }
    "audio/mp3".to_string()
}

/// Audio data as a model returns it.
#[derive(Debug)]
pub enum AudioData {
    /// Base64 text.
    Base64(String),
    /// Raw bytes.
    Binary(Vec<u8>),
}

impl AudioData {
    /// Audio given as base64 text.
    pub fn from_base64(base64: &str) -> (r: Self)
        ensures
            r matches AudioData::Base64(s) && s@ == base64@,
    {
        AudioData::Base64(base64.to_string())
    }

    /// Audio given as bytes.
    pub fn from_binary(bytes: Vec<u8>) -> (r: Self)
        ensures
            r == AudioData::Binary(bytes),
    {
        AudioData::Binary(bytes)
    }

    /// Whether there is no audio: empty text or no bytes.
    pub fn is_empty(&self) -> (r: bool)
        ensures
            r == match self {
                AudioData::Base64(s) => s@.len() == 0,
                AudioData::Binary(b) => b@.len() == 0,
            },
    {
        match self {
            AudioData::Base64(s) => s.as_str().is_empty(),
            AudioData::Binary(b) => b.len() == 0,
        }
    }
}

/// The media type of audio data: base64 text is decoded first, and text
/// that does not decode counts as `audio/mp3`.
pub open spec fn spec_audio_data_media_type(d: AudioData) -> Seq<char> {
    match d {
        AudioData::Base64(s) => match base64_decoded(s@) {
            Some(b) => spec_audio_media_type(b),
            None => "audio/mp3"@,
        },
        AudioData::Binary(b) => spec_audio_media_type(b@),
    }
}

/// Detects the media type of audio data.
pub fn detect_audio_media_type(audio_data: &AudioData) -> (r: String)
    ensures
        r@ == spec_audio_data_media_type(*audio_data),
{
    match audio_data {
        AudioData::Base64(s) => match base64_decode(s.as_str()) {
            Some(b) => detect_media_type_from_bytes(b.as_slice()),
            None => "audio/mp3".to_string(),
        },
        AudioData::Binary(b) => detect_media_type_from_bytes(b.as_slice()),
    }
}

/// The number of times `c` occurs in `s`.
pub open spec fn count_char(s: Seq<char>, c: char) -> nat
    decreases s.len(),
{
    if s.len() == 0 {
        0
    } else {
        count_char(s.drop_last(), c) + if s.last() == c {
            1nat
        } else {
            0nat
        }
    }
}

/// The first position at or after `i` where `c` occurs in `s` (`s.len()`
/// when it does not).
pub open spec fn index_of_char(s: Seq<char>, c: char, i: int) -> int
    decreases s.len() - i,
{
    if i < 0 || i >= s.len() {
        s.len() as int
    } else if s[i] == c {
        i
    } else {
        index_of_char(s, c, i + 1)
    }
}

/// The audio format that a media type names: `mp3` for `audio/mpeg`, the
/// part after the slash of a type with exactly one slash and a non-empty
/// subtype, and `mp3` for anything else.
pub open spec fn spec_audio_format(m: Seq<char>) -> Seq<char> {
    let slash = index_of_char(m, '/', 0);
    if m == "audio/mpeg"@ {
        "mp3"@
    } else if count_char(m, '/') == 1 && slash + 1 < m.len() {
        m.skip(slash + 1)
    } else {
        "mp3"@
    }
}

/// An audio file generated by a model, with its format.
#[derive(Debug)]
pub struct GeneratedAudioFile {
    /// The file.
    pub file: GeneratedFile,
    /// The audio format, such as `mp3` or `wav`.
    pub format: String,
}

impl GeneratedAudioFile {
    /// The audio format that a media type names: `mp3` for `audio/mpeg`,
    /// otherwise the subtype of a well-formed `type/subtype`, and `mp3` when
    /// there is none.
    pub fn determine_format(media_type: &str) -> (r: String)
        ensures
            r@ == spec_audio_format(media_type@),
    {
        if media_type.to_string() == "audio/mpeg".to_string() {
            return "mp3".to_string();
        }
        let s = chars_of(media_type);
        let n = s.len();
        let mut count: usize = 0;
        let mut first: usize = n;
        let mut i: usize = 0;
        while i < n
            invariant
                n == s@.len(),
                i <= n,
                count == count_char(s@.take(i as int), '/'),
                count <= i,
                first <= n,
                (first == n) == (count == 0),
                first == n ==> index_of_char(s@, '/', 0) == index_of_char(s@, '/', i as int),
                first < n ==> first < i && index_of_char(s@, '/', 0) == first,
            decreases n - i,
        {
            assert(s@.take(i + 1).drop_last() =~= s@.take(i as int));
            if s[i] == '/' {
                count = count + 1;
                if first == n {
                    first = i;
                }
            }
            i = i + 1;
        }
        assert(s@.take(n as int) =~= s@);
        if count == 1 && first < n && n - first > 1 {
            let sub = media_type.substring_char(first + 1, n);
            assert(s@.skip(first + 1) =~= s@.subrange(first + 1, n as int));
            return sub.to_string();
        }
        "mp3".to_string()
    }

    /// An audio file from base64 text; the format follows the media type.
    pub fn from_base64(base64: &str, media_type: &str) -> (a: Self)
        ensures
            a.file.data matches DataContent::Base64(s) && s@ == base64@,
            a.file.media_type@ == media_type@,
            a.file.name is None,
            a.format@ == spec_audio_format(media_type@),
    {
        let format = GeneratedAudioFile::determine_format(media_type);
        GeneratedAudioFile { file: GeneratedFile::from_base64(base64, media_type), format }
    }

    /// An audio file from bytes; the format follows the media type.
    pub fn from_bytes(bytes: Vec<u8>, media_type: &str) -> (a: Self)
        ensures
            a.file.data == DataContent::Bytes(bytes),
            a.file.media_type@ == media_type@,
            a.file.name is None,
            a.format@ == spec_audio_format(media_type@),
    {
        let format = GeneratedAudioFile::determine_format(media_type);
        GeneratedAudioFile { file: GeneratedFile::from_bytes(bytes, media_type), format }
    }

    /// An audio file from base64 text with the given format.
    pub fn from_base64_with_format(base64: &str, media_type: &str, format: &str) -> (a: Self)
        ensures
            a.file.data matches DataContent::Base64(s) && s@ == base64@,
            a.file.media_type@ == media_type@,
            a.file.name is None,
            a.format@ == format@,
    {
        GeneratedAudioFile {
            file: GeneratedFile::from_base64(base64, media_type),
            format: format.to_string(),
        }
    }

    /// An audio file from bytes with the given format.
    pub fn from_bytes_with_format(bytes: Vec<u8>, media_type: &str, format: &str) -> (a: Self)
        ensures
            a.file.data == DataContent::Bytes(bytes),
            a.file.media_type@ == media_type@,
            a.file.name is None,
            a.format@ == format@,
    {
        GeneratedAudioFile {
            file: GeneratedFile::from_bytes(bytes, media_type),
            format: format.to_string(),
        }
    }

    /// The same audio file with the name `name`.
    pub fn with_name(self, name: &str) -> (a: Self)
        ensures
            a.file.data == self.file.data,
            a.file.media_type == self.file.media_type,
            a.file.name matches Some(n) && n@ == name@,
            a.format == self.format,
    {
        GeneratedAudioFile { file: self.file.with_name(name), format: self.format }
    }

    /// The file name, if any.
    pub fn name(&self) -> (r: Option<&str>)
        ensures
            match (r, self.file.name) {
                (Some(x), Some(y)) => x@ == y@,
                (None, None) => true,
                _ => false,
            },
    {
        match &self.file.name {
            Some(n) => Some(n.as_str()),
            None => None,
        }
    }

    /// The content as base64 text.
    pub fn base64(&self) -> (r: String)
        requires
            self.file.data matches DataContent::Bytes(b) ==> b@.len() <= usize::MAX / 2,
        ensures
            r@ == content_base64(self.file.data),
            self.file.data is Bytes ==> base64_decoded(r@) == Some(content_bytes(self.file.data)),
    {
        self.file.base64()
    }

    /// The content as bytes.
    pub fn bytes(&self) -> (r: Vec<u8>)
        ensures
            r@ == content_bytes(self.file.data),
    {
        self.file.bytes()
    }

    /// The content as a vector of bytes.
    pub fn to_vec(&self) -> (r: Vec<u8>)
        ensures
            r@ == content_bytes(self.file.data),
    {
        self.file.to_vec()
    }

    /// The media type.
    pub fn media_type(&self) -> (r: &str)
        ensures
            r@ == self.file.media_type@,
    {
        self.file.media_type.as_str()
    }

    /// The underlying file.
    pub fn as_file(&self) -> (r: &GeneratedFile)
        ensures
            *r == self.file,
    {
        &self.file
    }

    /// The underlying file, taken out.
    pub fn into_file(self) -> (r: GeneratedFile)
        ensures
            r == self.file,
    {
        self.file
    }
}

impl Clone for GeneratedAudioFile {
    fn clone(&self) -> (r: Self)
        ensures
            data_view(r.file.data) == data_view(self.file.data),
            r.file.media_type@ == self.file.media_type@,
            opt_string_eq(r.file.name, self.file.name),
            r.format@ == self.format@,
    {
        GeneratedAudioFile { file: self.file.clone(), format: self.format.clone() }
    }
}

impl PartialEq for GeneratedAudioFile {
    fn eq(&self, other: &Self) -> (r: bool) {
        self.file.same_file(&other.file) && self.format == other.format
    }
}

impl vstd::std_specs::cmp::PartialEqSpecImpl for GeneratedAudioFile {
    open spec fn obeys_eq_spec() -> bool {
        true
    }

    open spec fn eq_spec(&self, other: &GeneratedAudioFile) -> bool {
        content_bytes(self.file.data) == content_bytes(other.file.data) && self.file.media_type@
            == other.file.media_type@ && opt_string_eq(self.file.name, other.file.name)
            && self.format@ == other.format@
    }
}

/// The generated audio file that holds audio data, with the given media
/// type.
pub fn audio_data_to_generated_audio_file(audio_data: AudioData, media_type: &str) -> (a:
    GeneratedAudioFile)
    ensures
        a.file.media_type@ == media_type@,
        a.file.name is None,
        a.format@ == spec_audio_format(media_type@),
        match audio_data {
            AudioData::Base64(s) => a.file.data matches DataContent::Base64(t) && t@ == s@,
            AudioData::Binary(b) => a.file.data == DataContent::Bytes(b),
        },
{
    match audio_data {
        AudioData::Base64(s) => GeneratedAudioFile::from_base64(s.as_str(), media_type),
        AudioData::Binary(b) => GeneratedAudioFile::from_bytes(b, media_type),
    }
}

/// The result of generating speech.
#[derive(Debug)]
pub struct GenerateSpeechResult {
    /// The generated audio.
    pub audio: GeneratedAudioFile,
    /// Warnings from the model call.
    pub warnings: Vec<CallWarning>,
    /// Metadata of every model response.
    pub responses: Vec<SpeechModelResponseMetadata>,
    /// Provider-specific metadata.
    pub provider_metadata: Option<serde_json::Value>,
}

impl GenerateSpeechResult {
    /// A result with no warnings and no provider metadata.
    pub fn new(audio: GeneratedAudioFile, responses: Vec<SpeechModelResponseMetadata>) -> (r: Self)
        ensures
            r.audio == audio,
            r.warnings@.len() == 0,
            r.responses == responses,
            r.provider_metadata is None,
    {
        GenerateSpeechResult { audio, warnings: Vec::new(), responses, provider_metadata: None }
    }

    /// The same result with its warnings replaced.
    pub fn with_warnings(self, warnings: Vec<CallWarning>) -> (r: Self)
        ensures
            r.warnings == warnings,
            r.audio == self.audio,
            r.responses == self.responses,
            r.provider_metadata == self.provider_metadata,
    {
        GenerateSpeechResult { warnings, ..self }
    }

    /// The same result with one more warning.
    pub fn with_warning(self, warning: CallWarning) -> (r: Self)
        ensures
            r.warnings@ == self.warnings@.push(warning),
            r.audio == self.audio,
            r.responses == self.responses,
            r.provider_metadata == self.provider_metadata,
    {
        let mut warnings = self.warnings;
        warnings.push(warning);
        GenerateSpeechResult { warnings, ..self }
    }

    /// The same result with provider metadata.
    pub fn with_provider_metadata(self, metadata: serde_json::Value) -> (r: Self)
        ensures
            r.provider_metadata == Some(metadata),
            r.warnings == self.warnings,
            r.audio == self.audio,
            r.responses == self.responses,
    {
        GenerateSpeechResult { provider_metadata: Some(metadata), ..self }
    }
}

/// A generated audio file tagged with its kind, `audio`.
#[derive(Debug)]
pub struct GeneratedAudioFileWithType {
    pub audio: GeneratedAudioFile,
    /// Always `audio`.
    pub kind: String,
}

impl GeneratedAudioFileWithType {
    /// The audio file, tagged.
    pub fn new(audio: GeneratedAudioFile) -> (r: Self)
        ensures
            r.audio == audio,
            r.kind@ == "audio"@,
    {
        GeneratedAudioFileWithType { audio, kind: "audio".to_string() }
    }

    /// A tagged audio file whose content is the base64 text `base64`.
    pub fn from_base64(base64: &str, media_type: &str) -> (r: Self)
        ensures
            r.audio.file.data matches DataContent::Base64(s) && s@ == base64@,
            r.audio.file.media_type@ == media_type@,
            r.audio.file.name is None,
            r.audio.format@ == spec_audio_format(media_type@),
            r.kind@ == "audio"@,
    {
        GeneratedAudioFileWithType::new(GeneratedAudioFile::from_base64(base64, media_type))
    }

    /// A tagged audio file whose content is `bytes`.
    pub fn from_bytes(bytes: Vec<u8>, media_type: &str) -> (r: Self)
        ensures
            r.audio.file.data == DataContent::Bytes(bytes),
            r.audio.file.media_type@ == media_type@,
            r.audio.file.name is None,
            r.audio.format@ == spec_audio_format(media_type@),
            r.kind@ == "audio"@,
    {
        GeneratedAudioFileWithType::new(GeneratedAudioFile::from_bytes(bytes, media_type))
    }

    /// The audio file.
    pub fn audio(&self) -> (r: &GeneratedAudioFile)
        ensures
            r == self.audio,
    {
        &self.audio
    }

    /// The audio file, handing it over.
    pub fn into_audio(self) -> (r: GeneratedAudioFile)
        ensures
            r == self.audio,
    {
        self.audio
    }
}

} // verus!

verus! {

/// What one call of a speech model returned.
#[derive(Debug)]
pub struct SpeechModelReply {
    pub audio: AudioData,
    pub warnings: Vec<CallWarning>,
    pub response: SpeechModelResponseMetadata,
    pub provider_metadata: Option<serde_json::Value>,
}

/// There is no audio in the data: empty text or no bytes.
pub open spec fn audio_is_empty(d: AudioData) -> bool {
    match d {
        AudioData::Base64(s) => s@.len() == 0,
        AudioData::Binary(b) => b@.len() == 0,
    }
}

/// The result of a speech generation from the reply of its call: the
/// audio with the media type that its signature announces, the reply's
/// warnings, response and provider metadata; the error that no speech was
/// generated, with the response, when the audio is empty.
pub fn speech_result_of(reply: SpeechModelReply) -> (r: Result<GenerateSpeechResult, AISDKError>)
    ensures
        r is Err <==> audio_is_empty(reply.audio),
        r matches Err(e) ==> e is NoSpeechGenerated && e->NoSpeechGenerated_message@
            == "No speech audio generated."@ && e->NoSpeechGenerated_responses@ == seq![
            reply.response,
        ],
        r matches Ok(g) ==> {
            &&& g.audio.file.media_type@ == spec_audio_data_media_type(reply.audio)
            &&& g.audio.file.name is None
            &&& g.audio.format@ == spec_audio_format(spec_audio_data_media_type(reply.audio))
            &&& match reply.audio {
                AudioData::Base64(s) => g.audio.file.data matches DataContent::Base64(t) && t@ == s@,
                AudioData::Binary(b) => g.audio.file.data == DataContent::Bytes(b),
            }
            &&& g.warnings == reply.warnings
            &&& g.responses@ == seq![reply.response]
            &&& g.provider_metadata == reply.provider_metadata
        },
{
    if reply.audio.is_empty() {
        let mut responses: Vec<SpeechModelResponseMetadata> = Vec::new();
        responses.push(reply.response);
        return Err(AISDKError::no_speech_generated(responses));
    }
    let media_type = detect_audio_media_type(&reply.audio);
    let audio = audio_data_to_generated_audio_file(reply.audio, media_type.as_str());
    let mut responses: Vec<SpeechModelResponseMetadata> = Vec::new();
    responses.push(reply.response);
    let result = GenerateSpeechResult::new(audio, responses).with_warnings(reply.warnings);
    match reply.provider_metadata {
        Some(m) => Ok(result.with_provider_metadata(m)),
        None => Ok(result),
    }
}

} // verus!
