use vstd::prelude::*;
use crate::authot::start_recognition_information::SAMPLE_RATE;
use crate::error::WorkerError;

verus! {

/// The kind of a stream of the media source.
#[derive(PartialEq, Eq, Structural)]
pub enum MediaKind {
    Unknown,
    Video,
    Audio,
    Data,
    Subtitle,
    Attachment,
}

/// The audio stream the worker decodes and how it wants it delivered.
pub struct AudioStreamDescriptor {
    pub index: usize,
    pub channel_layouts: Vec<String>,
    pub sample_formats: Vec<String>,
    pub sample_rates: Vec<u32>,
}

/// What became of an attempt to queue a message for the websocket.
#[derive(PartialEq, Eq, Structural)]
pub enum SendOutcome {
    Sent,
    /// The queue was full.
    Full,
    /// The websocket side is gone.
    Disconnected,
}

/// What to do after an attempt to queue a message.
#[derive(PartialEq, Eq, Structural)]
pub enum SendStep {
    /// The message is queued.
    Done,
    /// Wait this many milliseconds, then try again.
    RetryAfterMs(u64),
    /// Give up: nobody will ever read the message.
    Abort,
}

/// The wait before another attempt on a full queue.
pub const RETRY_DELAY_MS: u64 = 50;

/// Decides what follows an attempt to queue a message: a full queue is
/// retried after a short wait, a lost websocket aborts.
pub fn next_send_step(outcome: SendOutcome) -> (step: SendStep)
    ensures
        outcome == SendOutcome::Sent ==> step == SendStep::Done,
        outcome == SendOutcome::Full ==> step == SendStep::RetryAfterMs(RETRY_DELAY_MS),
        outcome == SendOutcome::Disconnected ==> step == SendStep::Abort,
{
    match outcome {
        SendOutcome::Sent => SendStep::Done,
        SendOutcome::Full => SendStep::RetryAfterMs(RETRY_DELAY_MS),
        SendOutcome::Disconnected => SendStep::Abort,
    }
}

/// The byte length of a frame of signed 16-bit samples: two bytes per
/// sample of each channel.
pub fn pcm_s16_frame_len(channels: i32, nb_samples: i32) -> (len: usize)
    requires
        0 <= channels,
        0 <= nb_samples,
        channels * nb_samples * 2 <= i32::MAX,
    ensures
        len == channels * nb_samples * 2,
{
    assert(0 <= channels * nb_samples <= i32::MAX) by (nonlinear_arith)
        requires
            0 <= channels,
            0 <= nb_samples,
            channels * nb_samples * 2 <= i32::MAX,
    ;
    let product: i32 = channels * nb_samples;
    let bytes: i32 = product * 2;
    bytes as usize
}

/// The streams before `index` are none of them audio.
pub open spec fn no_audio_before(kinds: Seq<MediaKind>, index: int) -> bool {
    forall|i: int| 0 <= i < index ==> kinds[i] != MediaKind::Audio
}

/// Selects the first audio stream of the source, to be delivered as mono
/// signed 16-bit samples at 16 kHz; a source without audio is an error.
pub fn get_first_audio_stream_id(stream_kinds: &Vec<MediaKind>) -> (selection: Result<
    AudioStreamDescriptor,
    WorkerError,
>)
    ensures
        match selection {
            Ok(descriptor) => {
                &&& descriptor.index < stream_kinds@.len()
                &&& stream_kinds@[descriptor.index as int] == MediaKind::Audio
                &&& no_audio_before(stream_kinds@, descriptor.index as int)
                &&& descriptor.channel_layouts@.len() == 1
                &&& descriptor.channel_layouts@[0]@ == "mono"@
                &&& descriptor.sample_formats@.len() == 1
                &&& descriptor.sample_formats@[0]@ == "s16"@
                &&& descriptor.sample_rates@ == seq![SAMPLE_RATE]
            },
            Err(e) => {
                &&& no_audio_before(stream_kinds@, stream_kinds@.len() as int)
                &&& e.reason() == "No such audio stream in the source"@
            },
        },
{
    let mut stream_index: usize = 0;
    while stream_index < stream_kinds.len()
        invariant
            stream_index <= stream_kinds@.len(),
            no_audio_before(stream_kinds@, stream_index as int),
        decreases stream_kinds@.len() - stream_index,
    {
        if stream_kinds[stream_index] == MediaKind::Audio {
            let mut channel_layouts: Vec<String> = Vec::new();
            channel_layouts.push(String::from_str("mono"));
            let mut sample_formats: Vec<String> = Vec::new();
            sample_formats.push(String::from_str("s16"));
            let mut sample_rates: Vec<u32> = Vec::new();
            sample_rates.push(SAMPLE_RATE);
            assert(sample_rates@ =~= seq![SAMPLE_RATE]);
            return Ok(
                AudioStreamDescriptor {
                    index: stream_index,
                    channel_layouts,
                    sample_formats,
                    sample_rates,
                },
            );
        }
        stream_index = stream_index + 1;
    }
    Err(WorkerError::RuntimeError(String::from_str("No such audio stream in the source")))
}

} // verus!
