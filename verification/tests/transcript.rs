use transcript_worker::authot::websocket_response::{
    Metadata, WebsocketFrame, WebsocketResponse,
};
use transcript_worker::error::WorkerError;
use transcript_worker::transcript::{TranscriptAction, TranscriptSession};

fn response(message: &str, transcript: Option<&str>) -> WebsocketResponse {
    WebsocketResponse {
        message: message.to_string(),
        id: None,
        kind: None,
        quality: None,
        reason: None,
        metadata: transcript.map(|t| Metadata { transcript: t.to_string() }),
        results: None,
    }
}

fn reason(error: WorkerError) -> String {
    match error {
        WorkerError::RuntimeError(reason) => reason,
    }
}

#[test]
fn text_frames_hold_responses() {
    match WebsocketResponse::frame_text(&WebsocketFrame::Text("{}".to_string())) {
        Ok(text) => assert_eq!(text, "{}"),
        Err(_) => panic!("a text frame holds text"),
    }
    for frame in vec![
        WebsocketFrame::Binary(vec![1, 2]),
        WebsocketFrame::Ping(vec![]),
        WebsocketFrame::Pong(vec![]),
        WebsocketFrame::Close,
    ] {
        match WebsocketResponse::frame_text(&frame) {
            Ok(_) => panic!("only text frames hold responses"),
            Err(e) => assert_eq!(reason(e), "Bad message format"),
        }
    }
}

#[test]
fn parse_failures_become_invalid_data() {
    match WebsocketResponse::from_parse_result(Err("EOF while parsing".to_string())) {
        Ok(_) => panic!("a failed parse is an error"),
        Err(e) => assert_eq!(reason(e), "Invalid data: EOF while parsing"),
    }
    match WebsocketResponse::from_parse_result(Ok(response("AudioAdded", None))) {
        Ok(r) => assert_eq!(r.message, "AudioAdded"),
        Err(_) => panic!("a parsed response passes through"),
    }
}

#[test]
fn recognition_started() {
    assert!(response("RecognitionStarted", None).is_recognition_started());
    assert!(!response("AudioAdded", None).is_recognition_started());
}

#[test]
fn subtitle_document() {
    let metadata = Metadata { transcript: "bonjour".to_string() };
    let subtitle = metadata.generate_ttml(7);
    assert_eq!(subtitle.language, "fr-FR");
    assert_eq!(subtitle.sequence_identifier, "LiveSubtitle");
    assert_eq!(subtitle.sequence_number, 7);
    assert_eq!(subtitle.clock_mode, "local");
    assert_eq!(subtitle.time_base, "clock");
    assert_eq!(subtitle.transcript, "bonjour");
}

#[test]
fn session_numbers_transcripts_in_order() {
    let mut session = TranscriptSession::new();
    assert_eq!(session.next_sequence_number(), 0);
    let messages = vec![
        response("AudioAdded", None),
        response("AddTranscript", Some("un")),
        response("AddTranscript", None),
        response("AudioAdded", None),
        response("AddTranscript", Some("deux")),
        response("AddTranscript", Some("trois")),
    ];
    let mut published = Vec::new();
    for message in &messages {
        match session.handle_response(message) {
            TranscriptAction::Publish(subtitle) => {
                published.push((subtitle.sequence_number, subtitle.transcript))
            }
            TranscriptAction::Ignore => {}
            TranscriptAction::EndOfProcess => panic!("no end in these messages"),
        }
    }
    assert_eq!(
        published,
        vec![
            (0, "un".to_string()),
            (1, "deux".to_string()),
            (2, "trois".to_string())
        ]
    );
    assert_eq!(session.next_sequence_number(), 3);
}

#[test]
fn end_of_transcript_ends_process_and_keeps_number() {
    let mut session = TranscriptSession::new();
    session.handle_response(&response("AddTranscript", Some("un")));
    match session.handle_response(&response("EndOfTranscript", Some("ignored"))) {
        TranscriptAction::EndOfProcess => {}
        _ => panic!("the end of the transcript ends the process"),
    }
    assert_eq!(session.next_sequence_number(), 1);
}
