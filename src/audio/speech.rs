use vstd::prelude::*;

verus! {

/// The path of the speech endpoint, below `BASE_URL`.
pub const API_URL: &'static str = "v1/audio/speech";

/// The longest input, in bytes of UTF-8, that one speech request may carry.
pub const MAX_INPUT_LENGTH: usize = 4096;

/// The audio encodings that speech can be returned in.
#[derive(Debug, Clone, Copy, PartialEq, Eq, Structural)]
pub enum ResponseFormat {
    MP3,
    AAC,
    FLAC,
    OPUS,
}

/// Why a speech request could not be built.
#[derive(Debug, Clone, Copy, PartialEq, Eq, Structural)]
pub enum SpeechRequestBuilderError {
    TextTooLong,
    SpeedOutOfRange,
    ModelNotSet,
    ClientNotSet,
    ResponseFormatNotSet,
    InputNotSet,
    VoiceNotSet,
}

impl SpeechRequestBuilderError {
    /// The error's description.
    pub fn message(&self) -> (r: &'static str)
        ensures
            r@ == match self {
                SpeechRequestBuilderError::TextTooLong => "Input text is too long"@,
                SpeechRequestBuilderError::SpeedOutOfRange => "Speed must be between 0.25 and 4"@,
                SpeechRequestBuilderError::ModelNotSet => "Model not set"@,
                SpeechRequestBuilderError::ClientNotSet => "Client not set"@,
                SpeechRequestBuilderError::ResponseFormatNotSet => "Response format not set"@,
                SpeechRequestBuilderError::InputNotSet => "Input not set"@,
                SpeechRequestBuilderError::VoiceNotSet => "Voice not set"@,
            },
    {
        match self {
            SpeechRequestBuilderError::TextTooLong => "Input text is too long",
            SpeechRequestBuilderError::SpeedOutOfRange => "Speed must be between 0.25 and 4",
            SpeechRequestBuilderError::ModelNotSet => "Model not set",
            SpeechRequestBuilderError::ClientNotSet => "Client not set",
            SpeechRequestBuilderError::ResponseFormatNotSet => "Response format not set",
            SpeechRequestBuilderError::InputNotSet => "Input not set",
            SpeechRequestBuilderError::VoiceNotSet => "Voice not set",
        }
    }
}

/// The first fault of a speech request, in the order a builder checks them: input too long,
/// speed out of range, then the first missing part among model, input, voice, response format
/// and client. `input_len` is the input's length in bytes, where there is an input.
pub open spec fn speech_request_fault(
    input_len: Option<nat>,
    speed_in_range: bool,
    has_model: bool,
    has_voice: bool,
    has_response_format: bool,
    has_client: bool,
) -> Option<SpeechRequestBuilderError> {
    if input_len matches Some(n) && n > MAX_INPUT_LENGTH {
        Some(SpeechRequestBuilderError::TextTooLong)
    } else if !speed_in_range {
        Some(SpeechRequestBuilderError::SpeedOutOfRange)
    } else if !has_model {
        Some(SpeechRequestBuilderError::ModelNotSet)
    } else if input_len is None {
        Some(SpeechRequestBuilderError::InputNotSet)
    } else if !has_voice {
        Some(SpeechRequestBuilderError::VoiceNotSet)
    } else if !has_response_format {
        Some(SpeechRequestBuilderError::ResponseFormatNotSet)
    } else if !has_client {
        Some(SpeechRequestBuilderError::ClientNotSet)
    } else {
        None
    }
}

/// Checks what a speech request builder holds before it builds: `input` is the input text if
/// one was set, `speed_in_range` whether the speed, if set, lies within the allowed range.
pub fn check_speech_request(
    input: Option<&str>,
    speed_in_range: bool,
    has_model: bool,
    has_voice: bool,
    has_response_format: bool,
    has_client: bool,
) -> (r: Result<(), SpeechRequestBuilderError>)
    ensures
        r == match speech_request_fault(
            match input {
                Some(s) => Some(s.len() as nat),
                None => None,
            },
            speed_in_range,
            has_model,
            has_voice,
            has_response_format,
            has_client,
        ) {
            Some(e) => Err(e),
            None => Ok(()),
        },
{
    if let Some(text) = input {
        if text.len() > MAX_INPUT_LENGTH {
            return Err(SpeechRequestBuilderError::TextTooLong);
        }
    }
    if !speed_in_range {
        return Err(SpeechRequestBuilderError::SpeedOutOfRange);
    }
    if !has_model {
        return Err(SpeechRequestBuilderError::ModelNotSet);
    }
    if input.is_none() {
        return Err(SpeechRequestBuilderError::InputNotSet);
    }
    if !has_voice {
        return Err(SpeechRequestBuilderError::VoiceNotSet);
    }
    if !has_response_format {
        return Err(SpeechRequestBuilderError::ResponseFormatNotSet);
    }
    if !has_client {
        return Err(SpeechRequestBuilderError::ClientNotSet);
    }
    Ok(())
}

} // verus!
