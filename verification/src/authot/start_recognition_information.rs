use vstd::prelude::*;

verus! {

/// The first message sent on the recognition websocket: it opens a
/// recognition session and says how the audio that follows is encoded.
pub struct StartRecognitionInformation {
    pub message: TranscriptionMode,
    pub transcription_config: TranscriptionConfig,
    pub audio_format: AudioFormat,
}

/// How the recognition runs.
pub struct TranscriptionConfig {
    pub language: Language,
    pub enable_partials: bool,
    /// The longest delay the service may take before it sends a transcript,
    /// in milliseconds (the wire message gives it in seconds).
    pub max_delay_ms: u32,
    pub diarization: String,
    pub additional_vocab: Vec<String>,
}

/// The kind of session message.
#[derive(PartialEq, Eq, Structural)]
pub enum TranscriptionMode {
    StartRecognition,
}

/// The encoding of the audio sent after the session opened.
#[derive(PartialEq, Eq, Structural)]
pub struct AudioFormat {
    pub audio_type: AudioType,
    pub encoding: AudioEncoding,
    pub sample_rate: u32,
}

/// The language of the speech.
#[derive(PartialEq, Eq, Structural)]
pub enum Language {
    Fr,
}

/// The container of the audio.
#[derive(PartialEq, Eq, Structural)]
pub enum AudioType {
    Raw,
}

/// The sample encoding of the audio.
#[derive(PartialEq, Eq, Structural)]
pub enum AudioEncoding {
    PcmS16le,
}

/// The delay given to the service: five seconds.
pub const DEFAULT_MAX_DELAY_MS: u32 = 5000;

/// The sample rate of the audio sent to the service.
pub const SAMPLE_RATE: u32 = 16000;

impl StartRecognitionInformation {
    /// The session opening of the worker: French, no partial transcripts,
    /// at most five seconds of delay, speaker change diarization, no extra
    /// vocabulary, raw 16 kHz signed 16-bit little endian audio.
    pub open spec fn is_default_session(self) -> bool {
        &&& self.message == TranscriptionMode::StartRecognition
        &&& self.transcription_config.language == Language::Fr
        &&& !self.transcription_config.enable_partials
        &&& self.transcription_config.max_delay_ms == DEFAULT_MAX_DELAY_MS
        &&& self.transcription_config.diarization@ == "speaker_change"@
        &&& self.audio_format == AudioFormat {
            audio_type: AudioType::Raw,
            encoding: AudioEncoding::PcmS16le,
            sample_rate: SAMPLE_RATE,
        }
    }

    /// Builds the default session opening, with no extra vocabulary.
    pub fn new() -> (info: Self)
        ensures
            info.is_default_session(),
            info.transcription_config.additional_vocab@.len() == 0,
    {
        StartRecognitionInformation {
            message: TranscriptionMode::StartRecognition,
            transcription_config: TranscriptionConfig {
                language: Language::Fr,
                enable_partials: false,
                max_delay_ms: DEFAULT_MAX_DELAY_MS,
                diarization: String::from_str("speaker_change"),
                additional_vocab: Vec::new(),
            },
            audio_format: AudioFormat {
                audio_type: AudioType::Raw,
                encoding: AudioEncoding::PcmS16le,
                sample_rate: SAMPLE_RATE,
            },
        }
    }

    /// Replaces the extra vocabulary that the service should know of, and
    /// leaves everything else as it was.
    pub fn set_custom_vocabulary(&mut self, custom_vocabulary: Vec<String>)
        ensures
            final(self).transcription_config.additional_vocab == custom_vocabulary,
            final(self).message == old(self).message,
            final(self).audio_format == old(self).audio_format,
            final(self).transcription_config.language == old(self).transcription_config.language,
            final(self).transcription_config.enable_partials
                == old(self).transcription_config.enable_partials,
            final(self).transcription_config.max_delay_ms
                == old(self).transcription_config.max_delay_ms,
            final(self).transcription_config.diarization
                == old(self).transcription_config.diarization,
    {
        self.transcription_config.additional_vocab = custom_vocabulary;
    }
}

} // verus!
