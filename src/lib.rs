//! Radio-style voice transmissions: tone synthesis plans, the speech backend
//! policy and the single-worker transmission schedule.

pub mod flow;
pub mod schedule;
pub mod settings;
pub mod speech;
pub mod tone;

pub use flow::{next_action, Action, ItemSettings, Progress};
pub use schedule::{PlaybackEvent, Scheduler};
pub use settings::{default_voice, is_headless, toast_enabled, ToastUrgency, ToneType, TtsProvider};
pub use speech::{edge_voice, plan_fetch, FetchPlan, RetryPolicy, RetryReport, RetryStep, TransmissionError};
pub use tone::{chime_envelope, chime_layout, chime_taps, closing_chime_len, quindar_envelope, render_plan, ChimeEnvelope, ChimeLayout, SampleCursor, Segment, Tap};
