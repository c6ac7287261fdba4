//! The steps of one transmission, from leaving the queue to the end of its
//! playback, as a function from what just happened to what to do next.
//! The worker performs each step (a toast, a network fetch, audio output)
//! and reports back.
use vstd::prelude::*;
use crate::settings::TtsProvider;
use crate::settings::ToneType;
use crate::speech::{plan_fetch, FetchPlan, TransmissionError};
use crate::tone::{render_plan, segments_of, Segment};

verus! {

/// What one transmission needs to know of its request and of the process
/// configuration read when it left the queue.
pub struct ItemSettings {
    pub notify: bool,
    pub tone: ToneType,
    pub provider: TtsProvider,
    pub api_key: Option<String>,
    pub headless: bool,
}

/// What just happened to the transmission.
#[derive(Clone, Copy, Debug, PartialEq, Eq, Structural)]
pub enum Progress {
    /// It has just left the queue.
    Dequeued,
    /// Its toast has been dispatched; whether that worked does not matter.
    ToastDispatched,
    /// Fetching its speech ended, successfully or not.
    SpeechFetched { ok: bool },
    /// Its audio has been played to the end, or failed to play.
    PlaybackEnded { error: Option<TransmissionError> },
}

/// What the worker does next.
#[derive(Debug)]
pub enum Action {
    ShowToast,
    Fetch(FetchPlan),
    /// Play these pieces in order, and wait until every sample has played.
    Render(Vec<Segment>),
    /// The transmission is done; take the next one.
    Complete,
    /// The transmission is dropped; take the next one.
    Discard(TransmissionError),
}

/// The action once the toast, if any, is behind: fetch with the selected
/// backend, or drop the item when that backend lacks its credential.
pub open spec fn fetch_or_discard(a: Action, s: ItemSettings) -> bool {
    match s.provider {
        TtsProvider::Edge => a matches Action::Fetch(FetchPlan::Edge),
        TtsProvider::OpenAI => match s.api_key {
            Some(k) => a matches Action::Fetch(FetchPlan::Api { key }) && key@ == k@,
            None => a matches Action::Discard(TransmissionError::ConfigError),
        },
    }
}

/// `a` is the right answer to `p` for a transmission with settings `s`.
pub open spec fn next_action_spec(s: ItemSettings, p: Progress, a: Action) -> bool {
    match p {
        Progress::Dequeued => if s.notify {
            a is ShowToast
        } else {
            fetch_or_discard(a, s)
        },
        Progress::ToastDispatched => fetch_or_discard(a, s),
        Progress::SpeechFetched { ok } => if !ok {
            a matches Action::Discard(TransmissionError::TransportError)
        } else if s.headless {
            a is Complete
        } else {
            a matches Action::Render(v) && v@ == segments_of(s.tone)
        },
        Progress::PlaybackEnded { error } => match error {
            None => a is Complete,
            Some(e) => a matches Action::Discard(x) && x == e,
        },
    }
}

fn fetch_step(s: &ItemSettings) -> (a: Action)
    ensures
        fetch_or_discard(a, *s),
{
    let key = match &s.api_key {
        Some(k) => Some(k.clone()),
        None => None,
    };
    match plan_fetch(s.provider, key) {
        Ok(plan) => Action::Fetch(plan),
        Err(e) => Action::Discard(e),
    }
}

/// Decides what the worker does after `p`.
pub fn next_action(s: &ItemSettings, p: Progress) -> (a: Action)
    ensures
        next_action_spec(*s, p, a),
{
    match p {
        Progress::Dequeued => if s.notify {
            Action::ShowToast
        } else {
            fetch_step(s)
        },
        Progress::ToastDispatched => fetch_step(s),
        Progress::SpeechFetched { ok } => if !ok {
            Action::Discard(TransmissionError::TransportError)
        } else {
            match render_plan(s.tone, s.headless) {
                None => Action::Complete,
                Some(v) => Action::Render(v),
            }
        },
        Progress::PlaybackEnded { error } => match error {
            None => Action::Complete,
            Some(e) => Action::Discard(e),
        },
    }
}

/// With the API backend selected and no API key, a transmission is dropped
/// with a configuration error before any fetch is asked for: on leaving the
/// queue the worker shows the toast or drops the item, and after the toast
/// it drops the item.
pub proof fn lemma_missing_key_fails_before_fetch(s: ItemSettings, a0: Action, a1: Action)
    requires
        s.provider == TtsProvider::OpenAI,
        s.api_key is None,
        next_action_spec(s, Progress::Dequeued, a0),
        next_action_spec(s, Progress::ToastDispatched, a1),
    ensures
        !(a0 is Fetch) && !(a1 is Fetch),
        s.notify ==> a0 is ShowToast,
        !s.notify ==> a0 matches Action::Discard(TransmissionError::ConfigError),
        a1 matches Action::Discard(TransmissionError::ConfigError),
{
}

/// In headless mode a transmission whose speech was fetched is complete
/// without any audio output being asked for.
pub proof fn lemma_headless_completes(s: ItemSettings, a: Action)
    requires
        s.headless,
        next_action_spec(s, Progress::SpeechFetched { ok: true }, a),
    ensures
        a is Complete,
{
}

} // verus!
