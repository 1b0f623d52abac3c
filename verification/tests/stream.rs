use transcript_worker::error::WorkerError;
use transcript_worker::stream::{
    get_first_audio_stream_id, next_send_step, pcm_s16_frame_len, MediaKind, SendOutcome,
    SendStep,
};

#[test]
fn first_audio_stream_is_selected() {
    let kinds = vec![
        MediaKind::Video,
        MediaKind::Subtitle,
        MediaKind::Audio,
        MediaKind::Audio,
    ];
    match get_first_audio_stream_id(&kinds) {
        Ok(descriptor) => {
            assert_eq!(descriptor.index, 2);
            assert_eq!(descriptor.channel_layouts, vec!["mono".to_string()]);
            assert_eq!(descriptor.sample_formats, vec!["s16".to_string()]);
            assert_eq!(descriptor.sample_rates, vec![16000]);
        }
        Err(_) => panic!("the source has audio"),
    }
}

#[test]
fn source_without_audio_is_refused() {
    for kinds in vec![vec![], vec![MediaKind::Video, MediaKind::Data]] {
        match get_first_audio_stream_id(&kinds) {
            Ok(_) => panic!("no audio to select"),
            Err(WorkerError::RuntimeError(reason)) => {
                assert_eq!(reason, "No such audio stream in the source")
            }
        }
    }
}

#[test]
fn frame_length_counts_two_bytes_per_sample() {
    assert_eq!(pcm_s16_frame_len(1, 1024), 2048);
    assert_eq!(pcm_s16_frame_len(2, 480), 1920);
    assert_eq!(pcm_s16_frame_len(0, 480), 0);
}

#[test]
fn send_retries_only_a_full_queue() {
    assert!(next_send_step(SendOutcome::Sent) == SendStep::Done);
    assert!(next_send_step(SendOutcome::Full) == SendStep::RetryAfterMs(50));
    assert!(next_send_step(SendOutcome::Disconnected) == SendStep::Abort);
}
