use transcript_worker::authot::authot_live_information::AuthotLiveInformation;
use transcript_worker::authot::start_recognition_information::{
    AudioEncoding, AudioFormat, AudioType, Language, StartRecognitionInformation,
    TranscriptionMode,
};
use transcript_worker::authot::{Authot, HttpMethod};
use transcript_worker::decimal::push_decimal;
use transcript_worker::parameters::{WebsocketEndpoint, WorkerParameters};

fn parameters(provider: &str, live_id: Option<u32>, token: Option<&str>) -> WorkerParameters {
    WorkerParameters {
        authot_live_id: live_id,
        authot_token: token.map(|t| t.to_string()),
        custom_vocabulary: None,
        destination_path: "/tmp/out.ttml".to_string(),
        source_path: "/tmp/in.wav".to_string(),
        provider: provider.to_string(),
    }
}

fn live_information(url: Option<&str>, stream_state: i32) -> AuthotLiveInformation {
    AuthotLiveInformation {
        id: Some(42),
        language: Some("fr".to_string()),
        language_to: None,
        message: None,
        status: 1,
        stream_state,
        stream_status: None,
        translation: Some(false),
        url: url.map(|u| u.to_string()),
    }
}

#[test]
fn decimal_writing() {
    let mut s = String::from("id=");
    push_decimal(&mut s, 0);
    assert_eq!(s, "id=0");
    let mut s = String::new();
    push_decimal(&mut s, 1234567);
    assert_eq!(s, "1234567");
    let mut s = String::new();
    push_decimal(&mut s, u32::MAX);
    assert_eq!(s, "4294967295");
    let mut s = String::new();
    push_decimal(&mut s, 10);
    assert_eq!(s, "10");
}

#[test]
fn token_defaults_to_empty() {
    let authot = Authot::new(&parameters("authot", None, None));
    assert_eq!(authot.access_token(), "");
    let authot = Authot::new(&parameters("authot", None, Some("SECRET-REDACTED")));
    assert_eq!(authot.access_token(), "SECRET-REDACTED");
}

#[test]
fn new_live_request_carries_token_in_query() {
    let authot = Authot::new(&parameters("authot", None, Some("abc")));
    let request = authot.new_live_request();
    assert!(request.method == HttpMethod::Post);
    assert_eq!(
        request.url,
        "https:///authot.live/api/streams/new?lang=fr&translation=false&access_token=abc"
    );
    assert!(request.headers.is_empty());
}

#[test]
fn live_information_request_names_stream_and_token() {
    let authot = Authot::new(&parameters("authot", None, Some("abc")));
    let request = authot.live_information_request(1789);
    assert!(request.method == HttpMethod::Get);
    assert_eq!(request.url, "https://authot.live/api/streams/1789/info_stream");
    assert_eq!(
        request.headers,
        vec![("access-token".to_string(), "abc".to_string())]
    );
    let other = authot.live_information_request(178);
    assert_ne!(request.url, other.url);
}

#[test]
fn websocket_url_appends_token() {
    let authot = Authot::new(&parameters("authot", None, Some("tok")));
    let info = live_information(Some("wss://live.authot.com/stream/7"), 0);
    assert_eq!(
        authot.get_websocket_url(&info),
        "wss://live.authot.com/stream/7?access_token=tok"
    );
}

#[test]
fn stream_readiness() {
    assert!(live_information(None, 0).is_stream_ready());
    assert!(!live_information(None, 1).is_stream_ready());
    assert!(!live_information(None, -1).is_stream_ready());
}

#[test]
fn endpoint_selection() {
    match parameters("authot", Some(12), None).websocket_endpoint() {
        WebsocketEndpoint::AuthotLive(id) => assert_eq!(id, 12),
        _ => panic!("expected an existing live process"),
    }
    match parameters("authot", None, None).websocket_endpoint() {
        WebsocketEndpoint::AuthotNewLive => {}
        _ => panic!("expected a new live process"),
    }
    match parameters("speechmatics", Some(12), None).websocket_endpoint() {
        WebsocketEndpoint::Fixed(url) => assert_eq!(url, "ws://192.168.101.109:9000/v2"),
        _ => panic!("expected the speechmatics service"),
    }
    match parameters("other", None, None).websocket_endpoint() {
        WebsocketEndpoint::Fixed(url) => assert_eq!(url, "ws://localhost:9000/v2"),
        _ => panic!("expected the local fallback"),
    }
    match parameters("Authot", None, None).websocket_endpoint() {
        WebsocketEndpoint::Fixed(url) => assert_eq!(url, "ws://localhost:9000/v2"),
        _ => panic!("provider names are case sensitive"),
    }
}

fn assert_default_session(info: &StartRecognitionInformation) {
    assert!(info.message == TranscriptionMode::StartRecognition);
    assert!(info.transcription_config.language == Language::Fr);
    assert!(!info.transcription_config.enable_partials);
    assert_eq!(info.transcription_config.max_delay_ms, 5000);
    assert_eq!(info.transcription_config.diarization, "speaker_change");
    assert!(
        info.audio_format
            == AudioFormat {
                audio_type: AudioType::Raw,
                encoding: AudioEncoding::PcmS16le,
                sample_rate: 16000,
            }
    );
}

#[test]
fn start_recognition_defaults() {
    let info = StartRecognitionInformation::new();
    assert_default_session(&info);
    assert!(info.transcription_config.additional_vocab.is_empty());
}

#[test]
fn custom_vocabulary_replaces_only_vocabulary() {
    let mut info = StartRecognitionInformation::new();
    info.set_custom_vocabulary(vec!["Authot".to_string(), "Verus".to_string()]);
    assert_default_session(&info);
    assert_eq!(
        info.transcription_config.additional_vocab,
        vec!["Authot".to_string(), "Verus".to_string()]
    );
    info.set_custom_vocabulary(vec![]);
    assert!(info.transcription_config.additional_vocab.is_empty());
}

#[test]
fn start_recognition_from_parameters() {
    let mut params = parameters("authot", None, None);
    assert!(params.start_recognition().transcription_config.additional_vocab.is_empty());
    params.custom_vocabulary = Some(vec!["mot".to_string()]);
    let info = params.start_recognition();
    assert_default_session(&info);
    assert_eq!(info.transcription_config.additional_vocab, vec!["mot".to_string()]);
}
