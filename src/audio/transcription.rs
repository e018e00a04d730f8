use vstd::prelude::*;

use crate::text::same_text;

verus! {

/// The path of the transcription endpoint, below `BASE_URL`.
pub const API_URL: &'static str = "v1/audio/transcriptions";

/// The encodings of an audio file that the transcription endpoint takes.
#[derive(Debug, Clone, Copy, PartialEq, Eq, Structural)]
pub enum AudioFormat {
    Mp3,
    Mp4,
    Flac,
    Mpeg,
    Mpga,
    M4a,
    Ogg,
    Wav,
    Webm,
}

/// The MIME type under which a file of format `f` is uploaded.
pub open spec fn mime_of(f: AudioFormat) -> Seq<char> {
    match f {
        AudioFormat::Mp3 => "audio/mpeg"@,
        AudioFormat::Mp4 => "audio/mp4"@,
        AudioFormat::Flac => "audio/flac"@,
        AudioFormat::Mpeg => "audio/mpeg"@,
        AudioFormat::Mpga => "audio/mpeg"@,
        AudioFormat::M4a => "audio/mp4"@,
        AudioFormat::Ogg => "audio/ogg"@,
        AudioFormat::Wav => "audio/wav"@,
        AudioFormat::Webm => "audio/webm"@,
    }
}

/// The file extension of format `f`.
pub open spec fn extension_of(f: AudioFormat) -> Seq<char> {
    match f {
        AudioFormat::Mp3 => "mp3"@,
        AudioFormat::Mp4 => "mp4"@,
        AudioFormat::Flac => "flac"@,
        AudioFormat::Mpeg => "mpeg"@,
        AudioFormat::Mpga => "mpga"@,
        AudioFormat::M4a => "m4a"@,
        AudioFormat::Ogg => "ogg"@,
        AudioFormat::Wav => "wav"@,
        AudioFormat::Webm => "webm"@,
    }
}

impl AudioFormat {
    /// The MIME type of the format.
    pub fn to_mime(&self) -> (r: &'static str)
        ensures
            r@ == mime_of(*self),
    {
        match self {
            AudioFormat::Mp3 => "audio/mpeg",
            AudioFormat::Mp4 => "audio/mp4",
            AudioFormat::Flac => "audio/flac",
            AudioFormat::Mpeg => "audio/mpeg",
            AudioFormat::Mpga => "audio/mpeg",
            AudioFormat::M4a => "audio/mp4",
            AudioFormat::Ogg => "audio/ogg",
            AudioFormat::Wav => "audio/wav",
            AudioFormat::Webm => "audio/webm",
        }
    }

    /// The file extension of the format, without the dot.
    pub fn to_extension(&self) -> (r: &'static str)
        ensures
            r@ == extension_of(*self),
    {
        match self {
            AudioFormat::Mp3 => "mp3",
            AudioFormat::Mp4 => "mp4",
            AudioFormat::Flac => "flac",
            AudioFormat::Mpeg => "mpeg",
            AudioFormat::Mpga => "mpga",
            AudioFormat::M4a => "m4a",
            AudioFormat::Ogg => "ogg",
            AudioFormat::Wav => "wav",
            AudioFormat::Webm => "webm",
        }
    }

    /// The format whose extension is `extension`, if any.
    pub fn from_extension(extension: &str) -> (r: Option<AudioFormat>)
        ensures
            match r {
                Some(f) => extension_of(f) == extension@,
                None => forall|f: AudioFormat| extension_of(f) != extension@,
            },
    {
        if same_text(extension, "mp3") {
            Some(AudioFormat::Mp3)
        } else if same_text(extension, "mp4") {
            Some(AudioFormat::Mp4)
        } else if same_text(extension, "flac") {
            Some(AudioFormat::Flac)
        } else if same_text(extension, "mpeg") {
            Some(AudioFormat::Mpeg)
        } else if same_text(extension, "mpga") {
            Some(AudioFormat::Mpga)
        } else if same_text(extension, "m4a") {
            Some(AudioFormat::M4a)
        } else if same_text(extension, "ogg") {
            Some(AudioFormat::Ogg)
        } else if same_text(extension, "wav") {
            Some(AudioFormat::Wav)
        } else if same_text(extension, "webm") {
            Some(AudioFormat::Webm)
        } else {
            None
        }
    }

    /// The name under which the audio is uploaded: `audio.` and the format's extension.
    pub fn file_name(&self) -> (r: String)
        ensures
            r@ == "audio."@ + extension_of(*self),
    {
        let mut r = "audio.".to_owned();
        r.append(self.to_extension());
        r
    }
}

/// The shapes a transcription can be returned in.
#[derive(Debug, Clone, Copy, PartialEq, Eq, Structural)]
pub enum ResponseFormat {
    Json,
    Text,
    Srt,
    VerboseJson,
    Vtt,
}

/// The name under which format `f` is sent in the upload form.
pub open spec fn response_format_name(f: ResponseFormat) -> Seq<char> {
    match f {
        ResponseFormat::Json => "Json"@,
        ResponseFormat::Text => "Text"@,
        ResponseFormat::Srt => "Srt"@,
        ResponseFormat::VerboseJson => "VerboseJson"@,
        ResponseFormat::Vtt => "Vtt"@,
    }
}

impl ResponseFormat {
    /// The name under which the format is sent in the upload form.
    pub fn form_value(&self) -> (r: &'static str)
        ensures
            r@ == response_format_name(*self),
    {
        match self {
            ResponseFormat::Json => "Json",
            ResponseFormat::Text => "Text",
            ResponseFormat::Srt => "Srt",
            ResponseFormat::VerboseJson => "VerboseJson",
            ResponseFormat::Vtt => "Vtt",
        }
    }
}

/// Why a transcription request could not be built.
#[derive(Debug, Clone, Copy, PartialEq, Eq, Structural)]
pub enum TranscibeRequestBuilderError {
    FileNotSet,
    ModelNotSet,
    ClientNotSet,
    FormatNotSet,
}

impl TranscibeRequestBuilderError {
    /// The error's description.
    pub fn message(&self) -> (r: &'static str)
        ensures
            r@ == match self {
                TranscibeRequestBuilderError::FileNotSet => "File not set"@,
                TranscibeRequestBuilderError::ModelNotSet => "Model not set"@,
                TranscibeRequestBuilderError::ClientNotSet => "Client not set"@,
                TranscibeRequestBuilderError::FormatNotSet => "Format not set"@,
            },
    {
        match self {
            TranscibeRequestBuilderError::FileNotSet => "File not set",
            TranscibeRequestBuilderError::ModelNotSet => "Model not set",
            TranscibeRequestBuilderError::ClientNotSet => "Client not set",
            TranscibeRequestBuilderError::FormatNotSet => "Format not set",
        }
    }
}

/// Checks what a transcription request builder holds before it builds: the first missing part
/// among audio, model, format and client, in that order.
pub fn check_transcribe_request(
    has_audio: bool,
    has_model: bool,
    has_format: bool,
    has_client: bool,
) -> (r: Result<(), TranscibeRequestBuilderError>)
    ensures
        r == (if !has_audio {
            Err(TranscibeRequestBuilderError::FileNotSet)
        } else if !has_model {
            Err(TranscibeRequestBuilderError::ModelNotSet)
        } else if !has_format {
            Err(TranscibeRequestBuilderError::FormatNotSet)
        } else if !has_client {
            Err(TranscibeRequestBuilderError::ClientNotSet)
        } else {
            Ok(())
        }),
{
    if !has_audio {
        Err(TranscibeRequestBuilderError::FileNotSet)
    } else if !has_model {
        Err(TranscibeRequestBuilderError::ModelNotSet)
    } else if !has_format {
        Err(TranscibeRequestBuilderError::FormatNotSet)
    } else if !has_client {
        Err(TranscibeRequestBuilderError::ClientNotSet)
    } else {
        Ok(())
    }
}

/// Where the audio of a transcription comes from.
#[derive(Debug, Clone)]
pub enum Audio {
    /// The encoded audio itself.
    Bytes(Vec<u8>),
    /// The path of a file that holds it.
    File(String),
}

impl From<Vec<u8>> for Audio {
    fn from(bytes: Vec<u8>) -> (r: Audio)
        ensures
            r == Audio::Bytes(bytes),
    {
        Audio::Bytes(bytes)
    }
}

impl vstd::std_specs::convert::FromSpecImpl<Vec<u8>> for Audio {
    open spec fn obeys_from_spec() -> bool {
        true
    }

    open spec fn from_spec(bytes: Vec<u8>) -> Audio {
        Audio::Bytes(bytes)
    }
}

impl From<String> for Audio {
    fn from(file: String) -> (r: Audio)
        ensures
            r == Audio::File(file),
    {
        Audio::File(file)
    }
}

impl vstd::std_specs::convert::FromSpecImpl<String> for Audio {
    open spec fn obeys_from_spec() -> bool {
        true
    }

    open spec fn from_spec(file: String) -> Audio {
        Audio::File(file)
    }
}

/// The text after the last `.` of `path`; all of `path` where it has no `.`.
pub open spec fn extension_part(path: Seq<char>) -> Seq<char> {
    if exists|i: int| 0 <= i < path.len() && path[i] == '.' {
        let i = choose|i: int|
            0 <= i < path.len() && path[i] == '.' && forall|j: int|
                i < j < path.len() ==> path[j] != '.';
        path.subrange(i + 1, path.len() as int)
    } else {
        path
    }
}

/// The extension of a file path: the text after its last `.`, or the whole path where it has
/// none.
pub fn path_extension(path: &str) -> (r: String)
    ensures
        r@ == extension_part(path@),
{
    let n = path.unicode_len();
    let mut i: usize = n;
    while i > 0
        invariant
            i <= n,
            n == path@.len(),
            forall|j: int| i <= j < n ==> path@[j] != '.',
        decreases i,
    {
        if path.get_char(i - 1) == '.' {
            let ghost k = (i - 1) as int;
            assert(0 <= k < path@.len() && path@[k] == '.' && forall|j: int|
                k < j < path@.len() ==> path@[j] != '.');
            let ghost c = choose|c: int|
                0 <= c < path@.len() && path@[c] == '.' && forall|j: int|
                    c < j < path@.len() ==> path@[j] != '.';
            assert(c == k) by {
                if c < k {
                    assert(path@[k] != '.');
                }
                if c > k {
                    assert(path@[c] != '.');
                }
            }
            return path.substring_char(i, n).to_owned();
        }
        i = i - 1;
    }
    path.to_owned()
}

/// The decoded answer of a transcription in the `json` response format.
#[derive(Debug, Clone)]
pub struct TranscribeJsonResponse {
    pub text: String,
}

/// One text field of the upload form: its name and its value.
pub open spec fn field(name: Seq<char>, value: Seq<char>) -> (Seq<char>, Seq<char>) {
    (name, value)
}

/// The text fields of a transcription upload, in order: the model, then the language, the
/// prompt and the response format where they are set.
pub open spec fn form_fields(
    model: Seq<char>,
    language: Option<Seq<char>>,
    prompt: Option<Seq<char>>,
    response_format: Option<ResponseFormat>,
) -> Seq<(Seq<char>, Seq<char>)> {
    seq![field("model"@, model)] + match language {
        Some(l) => seq![field("language"@, l)],
        None => seq![],
    } + match prompt {
        Some(p) => seq![field("prompt"@, p)],
        None => seq![],
    } + match response_format {
        Some(f) => seq![field("response_format"@, response_format_name(f))],
        None => seq![],
    }
}

/// The views of a list of text fields.
pub open spec fn field_views(v: Seq<(String, String)>) -> Seq<(Seq<char>, Seq<char>)> {
    v.map_values(|p: (String, String)| (p.0@, p.1@))
}

/// The text fields that a transcription upload carries besides the audio file and the
/// temperature.
pub fn transcription_form_fields(
    model: &str,
    language: Option<&str>,
    prompt: Option<&str>,
    response_format: Option<ResponseFormat>,
) -> (r: Vec<(String, String)>)
    ensures
        field_views(r@) == form_fields(
            model@,
            match language {
                Some(l) => Some(l@),
                None => None,
            },
            match prompt {
                Some(p) => Some(p@),
                None => None,
            },
            response_format,
        ),
{
    let mut r: Vec<(String, String)> = Vec::new();
    r.push(("model".to_owned(), model.to_owned()));
    if let Some(l) = language {
        r.push(("language".to_owned(), l.to_owned()));
    }
    if let Some(p) = prompt {
        r.push(("prompt".to_owned(), p.to_owned()));
    }
    if let Some(f) = response_format {
        r.push(("response_format".to_owned(), f.form_value().to_owned()));
    }
    assert(field_views(r@) =~= form_fields(
        model@,
        match language {
            Some(l) => Some(l@),
            None => None,
        },
        match prompt {
            Some(p) => Some(p@),
            None => None,
        },
        response_format,
    ));
    r
}

} // verus!
