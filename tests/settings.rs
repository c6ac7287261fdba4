use quindar::{default_voice, is_headless, toast_enabled, ToastUrgency, ToneType, TtsProvider};

#[test]
fn tone_names_ignore_case() {
    assert_eq!(ToneType::from_str("no-tone"), ToneType::NoTone);
    assert_eq!(ToneType::from_str("None"), ToneType::NoTone);
    assert_eq!(ToneType::from_str("three-note"), ToneType::ThreeNote);
    assert_eq!(ToneType::from_str("Three-Note-Chime"), ToneType::ThreeNote);
    assert_eq!(ToneType::from_str("chime"), ToneType::ThreeNote);
    assert_eq!(ToneType::from_str("quindar"), ToneType::Quindar);
    assert_eq!(ToneType::from_str("bell"), ToneType::Quindar);
    assert_eq!(ToneType::from_str(""), ToneType::Quindar);
}

#[test]
fn tone_setting_default() {
    assert_eq!(ToneType::from_setting(None), ToneType::Quindar);
    assert_eq!(ToneType::from_setting(Some("CHIME")), ToneType::ThreeNote);
    assert_eq!(ToneType::from_setting(Some("none")), ToneType::NoTone);
}

#[test]
fn urgency_names_ignore_case() {
    assert_eq!(ToastUrgency::from_str("WARNING"), ToastUrgency::Warning);
    assert_eq!(ToastUrgency::from_str("warn"), ToastUrgency::Warning);
    assert_eq!(ToastUrgency::from_str("Critical"), ToastUrgency::Critical);
    assert_eq!(ToastUrgency::from_str("ERROR"), ToastUrgency::Critical);
    assert_eq!(ToastUrgency::from_str("urgent"), ToastUrgency::Critical);
    assert_eq!(ToastUrgency::from_str("info"), ToastUrgency::Info);
    assert_eq!(ToastUrgency::from_str("whatever"), ToastUrgency::Info);
}

#[test]
fn urgency_icons_and_timeouts() {
    assert_eq!(ToastUrgency::Info.icon(), "dialog-information");
    assert_eq!(ToastUrgency::Warning.icon(), "dialog-warning");
    assert_eq!(ToastUrgency::Critical.icon(), "dialog-error");
    assert_eq!(ToastUrgency::Info.timeout_ms(), 5000);
    assert_eq!(ToastUrgency::Warning.timeout_ms(), 8000);
    assert_eq!(ToastUrgency::Critical.timeout_ms(), 0);
}

#[test]
fn provider_setting() {
    assert_eq!(TtsProvider::from_setting(Some("OPENAI")), TtsProvider::OpenAI);
    assert_eq!(TtsProvider::from_setting(Some("EDGE")), TtsProvider::Edge);
    assert_eq!(TtsProvider::from_setting(Some("openai")), TtsProvider::Edge);
    assert_eq!(TtsProvider::from_setting(None), TtsProvider::Edge);
}

#[test]
fn headless_setting() {
    assert!(is_headless(Some("true")));
    assert!(is_headless(Some("TRUE")));
    assert!(is_headless(Some("TrUe")));
    assert!(is_headless(Some("1")));
    assert!(!is_headless(Some("yes")));
    assert!(!is_headless(Some("0")));
    assert!(!is_headless(None));
}

#[test]
fn toast_choice() {
    assert!(toast_enabled(Some(true), Some("false")));
    assert!(!toast_enabled(Some(false), Some("true")));
    assert!(toast_enabled(None, Some("TRUE")));
    assert!(toast_enabled(None, Some("true")));
    assert!(!toast_enabled(None, Some("yes")));
    assert!(!toast_enabled(None, None));
}

#[test]
fn voice_default_is_alloy() {
    assert_eq!(default_voice(), "alloy");
}
