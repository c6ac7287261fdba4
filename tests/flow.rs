use quindar::{next_action, Action, FetchPlan, ItemSettings, Progress, Segment, ToneType, TransmissionError, TtsProvider};

fn item(notify: bool, provider: TtsProvider, api_key: Option<&str>, headless: bool) -> ItemSettings {
    ItemSettings {
        notify,
        tone: ToneType::Quindar,
        provider,
        api_key: api_key.map(|k| k.to_string()),
        headless,
    }
}

#[test]
fn missing_api_key_fails_before_fetch() {
    let s = item(false, TtsProvider::OpenAI, None, false);
    assert!(matches!(next_action(&s, Progress::Dequeued), Action::Discard(TransmissionError::ConfigError)));
    let s = item(true, TtsProvider::OpenAI, None, false);
    assert!(matches!(next_action(&s, Progress::Dequeued), Action::ShowToast));
    assert!(matches!(next_action(&s, Progress::ToastDispatched), Action::Discard(TransmissionError::ConfigError)));
}

#[test]
fn api_key_present_fetches_with_it() {
    let s = item(false, TtsProvider::OpenAI, Some("SECRET-REDACTED"), false);
    match next_action(&s, Progress::Dequeued) {
        Action::Fetch(FetchPlan::Api { key }) => assert_eq!(key, "SECRET-REDACTED"),
        other => panic!("unexpected {:?}", other),
    }
}

#[test]
fn edge_backend_fetches_after_toast() {
    let s = item(true, TtsProvider::Edge, None, false);
    assert!(matches!(next_action(&s, Progress::Dequeued), Action::ShowToast));
    assert!(matches!(next_action(&s, Progress::ToastDispatched), Action::Fetch(FetchPlan::Edge)));
}

#[test]
fn failed_fetch_drops_item() {
    let s = item(false, TtsProvider::Edge, None, false);
    assert!(matches!(
        next_action(&s, Progress::SpeechFetched { ok: false }),
        Action::Discard(TransmissionError::TransportError)
    ));
}

#[test]
fn fetched_speech_is_rendered_with_tones() {
    let s = item(false, TtsProvider::Edge, None, false);
    match next_action(&s, Progress::SpeechFetched { ok: true }) {
        Action::Render(v) => assert_eq!(
            v,
            vec![Segment::Quindar { duration_ms: 500 }, Segment::Speech, Segment::Quindar { duration_ms: 250 }]
        ),
        other => panic!("unexpected {:?}", other),
    }
}

#[test]
fn headless_completes_without_rendering() {
    for tone in [ToneType::Quindar, ToneType::NoTone, ToneType::ThreeNote] {
        let s = ItemSettings { notify: false, tone, provider: TtsProvider::Edge, api_key: None, headless: true };
        assert!(matches!(next_action(&s, Progress::SpeechFetched { ok: true }), Action::Complete));
    }
}

#[test]
fn playback_outcomes() {
    let s = item(false, TtsProvider::Edge, None, false);
    assert!(matches!(next_action(&s, Progress::PlaybackEnded { error: None }), Action::Complete));
    assert!(matches!(
        next_action(&s, Progress::PlaybackEnded { error: Some(TransmissionError::DecodeError) }),
        Action::Discard(TransmissionError::DecodeError)
    ));
    assert!(matches!(
        next_action(&s, Progress::PlaybackEnded { error: Some(TransmissionError::DeviceError) }),
        Action::Discard(TransmissionError::DeviceError)
    ));
}
