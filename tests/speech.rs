use quindar::{edge_voice, plan_fetch, FetchPlan, RetryPolicy, RetryStep, TransmissionError, TtsProvider};

#[test]
fn api_backend_without_key_is_config_error() {
    assert!(matches!(plan_fetch(TtsProvider::OpenAI, None), Err(TransmissionError::ConfigError)));
}

#[test]
fn api_backend_with_key() {
    match plan_fetch(TtsProvider::OpenAI, Some("SECRET-REDACTED".to_string())) {
        Ok(FetchPlan::Api { key }) => assert_eq!(key, "SECRET-REDACTED"),
        _ => panic!("expected the API plan"),
    }
}

#[test]
fn edge_backend_needs_no_key() {
    assert!(matches!(plan_fetch(TtsProvider::Edge, None), Ok(FetchPlan::Edge)));
    assert!(matches!(plan_fetch(TtsProvider::Edge, Some("k".to_string())), Ok(FetchPlan::Edge)));
}

#[test]
fn generic_voices_map_to_default() {
    assert_eq!(edge_voice("alloy", None), "en-US-AndrewNeural");
    assert_eq!(edge_voice("shimmer", Some("en-GB-SoniaNeural")), "en-GB-SoniaNeural");
    assert_eq!(edge_voice("nova", None), "en-US-AndrewNeural");
    assert_eq!(edge_voice("en-US-JennyNeural", Some("en-GB-SoniaNeural")), "en-US-JennyNeural");
    assert_eq!(edge_voice("Alloy", None), "Alloy");
}

#[test]
fn edge_retry_two_failures_then_success() {
    let p = RetryPolicy::edge();
    let r = p.run(&vec![false, false, true]);
    assert!(r.succeeded);
    assert_eq!(r.attempts, 3);
    assert_eq!(r.delays_ms, vec![300, 300]);
    assert!(r.delays_ms.iter().all(|&d| d >= 300));
}

#[test]
fn edge_retry_first_success() {
    let r = RetryPolicy::edge().run(&vec![true]);
    assert!(r.succeeded);
    assert_eq!(r.attempts, 1);
    assert!(r.delays_ms.is_empty());
}

#[test]
fn edge_retry_exhausted() {
    let r = RetryPolicy::edge().run(&vec![false, false, false, true]);
    assert!(!r.succeeded);
    assert_eq!(r.attempts, 3);
    assert_eq!(r.delays_ms, vec![300, 300]);
}

#[test]
fn retry_steps() {
    let p = RetryPolicy::edge();
    assert_eq!(p.step(1, false), RetryStep::RetryAfter { delay_ms: 300 });
    assert_eq!(p.step(2, false), RetryStep::RetryAfter { delay_ms: 300 });
    assert_eq!(p.step(3, false), RetryStep::GaveUp);
    assert_eq!(p.step(2, true), RetryStep::Succeeded);
}
