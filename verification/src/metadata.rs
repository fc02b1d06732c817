//! Records of the responses that image, speech and transcription models
//! returned.

use crate::headers::Headers;
use std::time::SystemTime;
use vstd::prelude::*;

verus! {

broadcast use vstd::string::group_string_axioms;

/// Declares `std::time::SystemTime`, which the records below carry through.
#[verifier::external_type_specification]
#[verifier::external_body]
pub struct ExSystemTime(SystemTime);

/// The current time of the system clock.
///
/// Calls `SystemTime::now`; nothing is claimed of the result, which depends
/// on the clock.
#[verifier::external_body]
fn system_time_now() -> SystemTime {
    SystemTime::now()
}

/// Metadata of one response of an image model.
#[derive(Debug)]
pub struct ImageModelResponseMetadata {
    /// When the response was recorded.
    pub timestamp: SystemTime,
    /// The model that answered.
    pub model_id: String,
    /// Response headers, if any were kept.
    pub headers: Option<Headers>,
}

impl ImageModelResponseMetadata {
    /// A record for `model_id`, stamped with the current time.
    pub fn new(model_id: &str) -> (r: Self)
        ensures
            r.model_id@ == model_id@,
            r.headers is None,
    {
        ImageModelResponseMetadata {
            timestamp: system_time_now(),
            model_id: model_id.to_string(),
            headers: None,
        }
    }

    /// A record for `model_id` with the given timestamp.
    pub fn with_timestamp(model_id: &str, timestamp: SystemTime) -> (r: Self)
        ensures
            r.model_id@ == model_id@,
            r.timestamp == timestamp,
            r.headers is None,
    {
        ImageModelResponseMetadata { timestamp, model_id: model_id.to_string(), headers: None }
    }

    /// The same record with `headers` attached.
    pub fn with_headers(self, headers: Headers) -> (r: Self)
        ensures
            r.model_id == self.model_id,
            r.timestamp == self.timestamp,
            r.headers == Some(headers),
    {
        ImageModelResponseMetadata { headers: Some(headers), ..self }
    }
}

/// Metadata of one response of a speech model.
#[derive(Debug)]
pub struct SpeechModelResponseMetadata {
    /// When the response was recorded.
    pub timestamp: SystemTime,
    /// The model that answered.
    pub model_id: String,
    /// Response headers, if any were kept.
    pub headers: Option<Headers>,
}

impl SpeechModelResponseMetadata {
    /// A record for `model_id`, stamped with the current time.
    pub fn new(model_id: &str) -> (r: Self)
        ensures
            r.model_id@ == model_id@,
            r.headers is None,
    {
        SpeechModelResponseMetadata {
            timestamp: system_time_now(),
            model_id: model_id.to_string(),
            headers: None,
        }
    }
}

/// Metadata of one response of a transcription model.
#[derive(Debug)]
pub struct TranscriptionModelResponseMetadata {
    /// When the response was recorded.
    pub timestamp: SystemTime,
    /// The model that answered.
    pub model_id: String,
    /// Response headers, if any were kept.
    pub headers: Option<Headers>,
}

impl TranscriptionModelResponseMetadata {
    /// A record for `model_id`, stamped with the current time.
    pub fn new(model_id: &str) -> (r: Self)
        ensures
            r.model_id@ == model_id@,
            r.headers is None,
    {
        TranscriptionModelResponseMetadata {
            timestamp: system_time_now(),
            model_id: model_id.to_string(),
            headers: None,
        }
    }
}

} // verus!
