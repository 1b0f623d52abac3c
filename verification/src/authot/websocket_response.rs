use vstd::prelude::*;
use crate::error::WorkerError;

verus! {

/// A frame received on (or sent to) the recognition websocket.
pub enum WebsocketFrame {
    Text(String),
    Binary(Vec<u8>),
    Ping(Vec<u8>),
    Pong(Vec<u8>),
    Close,
}

/// A message of the recognition service.
pub struct WebsocketResponse {
    /// The kind of message: `RecognitionStarted`, `AudioAdded`,
    /// `AddTranscript`, `EndOfTranscript`, ...
    pub message: String,
    pub id: Option<String>,
    pub kind: Option<String>,
    pub quality: Option<String>,
    pub reason: Option<String>,
    pub metadata: Option<Metadata>,
    pub results: Option<Vec<Results>>,
}

/// The transcript of a stretch of audio. Its start and end times, in
/// seconds, are floating point numbers and travel beside it at the edge of
/// the worker.
pub struct Metadata {
    pub transcript: String,
}

/// A recognised word or punctuation mark with its candidates; its times
/// travel beside it at the edge of the worker.
pub struct Results {
    pub alternatives: Vec<Alternatives>,
    pub kind: String,
}

/// A candidate content of a result; its confidence travels beside it at the
/// edge of the worker.
pub struct Alternatives {
    pub content: String,
}

/// The EBU-TT Live document that publishes one transcript. Its paragraph
/// times are floating point numbers and are added at the edge of the worker.
pub struct LiveSubtitle {
    pub language: String,
    pub sequence_identifier: String,
    pub sequence_number: u64,
    pub clock_mode: String,
    pub time_base: String,
    /// The content of the document's single span.
    pub transcript: String,
}

/// `subtitle` is the document of sequence number `sequence_number` that
/// publishes `transcript`.
pub open spec fn is_subtitle_of(
    subtitle: LiveSubtitle,
    transcript: Seq<char>,
    sequence_number: nat,
) -> bool {
    &&& subtitle.language@ == "fr-FR"@
    &&& subtitle.sequence_identifier@ == "LiveSubtitle"@
    &&& subtitle.sequence_number == sequence_number
    &&& subtitle.clock_mode@ == "local"@
    &&& subtitle.time_base@ == "clock"@
    &&& subtitle.transcript@ == transcript
}

/// A subtitle carries the very sequence number it was made for, so two
/// subtitles made for different numbers never share one.
pub proof fn lemma_subtitle_numbers_distinct(
    first: LiveSubtitle,
    first_transcript: Seq<char>,
    first_number: usize,
    second: LiveSubtitle,
    second_transcript: Seq<char>,
    second_number: usize,
)
    requires
        is_subtitle_of(first, first_transcript, first_number as nat),
        is_subtitle_of(second, second_transcript, second_number as nat),
    ensures
        first.sequence_number as int == first_number as int,
        first_number != second_number ==> first.sequence_number != second.sequence_number,
{
}

/// A subtitle publishes the whole transcript it was made for, in the French
/// live subtitle sequence, on the local clock.
pub proof fn lemma_subtitle_document(subtitle: LiveSubtitle, transcript: Seq<char>, number: nat)
    requires
        is_subtitle_of(subtitle, transcript, number),
    ensures
        subtitle.transcript@ == transcript,
        subtitle.transcript@.len() == transcript.len(),
        subtitle.language@ == "fr-FR"@,
        subtitle.sequence_identifier@ == "LiveSubtitle"@,
        subtitle.clock_mode@ == "local"@,
        subtitle.time_base@ == "clock"@,
{
}

impl Metadata {
    /// The subtitle document that publishes this transcript under
    /// `sequence_number`.
    pub fn generate_ttml(&self, sequence_number: usize) -> (subtitle: LiveSubtitle)
        ensures
            is_subtitle_of(subtitle, self.transcript@, sequence_number as nat),
            subtitle.sequence_number as int == sequence_number as int,
    {
        LiveSubtitle {
            language: String::from_str("fr-FR"),
            sequence_identifier: String::from_str("LiveSubtitle"),
            sequence_number: sequence_number as u64,
            clock_mode: String::from_str("local"),
            time_base: String::from_str("clock"),
            transcript: self.transcript.clone(),
        }
    }
}

impl WebsocketResponse {
    /// The text that a frame carries: only text frames hold a response.
    pub fn frame_text(frame: &WebsocketFrame) -> (text: Result<String, WorkerError>)
        ensures
            match frame {
                WebsocketFrame::Text(payload) => text matches Ok(t) && t@ == payload@,
                _ => text matches Err(e) && e.reason() == "Bad message format"@,
            },
    {
        match frame {
            WebsocketFrame::Text(payload) => Ok(payload.clone()),
            _ => Err(WorkerError::RuntimeError(String::from_str("Bad message format"))),
        }
    }

    /// The response read from a text frame, given what the JSON reader made
    /// of the text: the response, or the reader's reason for refusing it.
    pub fn from_parse_result(parsed: Result<WebsocketResponse, String>) -> (response: Result<
        WebsocketResponse,
        WorkerError,
    >)
        ensures
            match parsed {
                Ok(r) => response == Ok::<WebsocketResponse, WorkerError>(r),
                Err(reason) => response matches Err(e) && e.reason() == "Invalid data: "@
                    + reason@,
            },
    {
        match parsed {
            Ok(r) => Ok(r),
            Err(reason) => {
                let mut message = String::from_str("Invalid data: ");
                message.append(reason.as_str());
                Err(WorkerError::RuntimeError(message))
            },
        }
    }

    /// The service has opened the recognition session: audio may follow.
    pub fn is_recognition_started(&self) -> (started: bool)
        ensures
            started == (self.message@ == "RecognitionStarted"@),
    {
        self.message == String::from_str("RecognitionStarted")
    }
}

} // verus!
