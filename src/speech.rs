//! Policy of the two speech backends: which one serves a transmission and
//! with what, the voice the streaming backend is asked for, and its
//! fixed-delay retry schedule.
use vstd::prelude::*;
use crate::settings::{text_is, TtsProvider};

verus! {

/// Why one transmission was dropped.
#[derive(Clone, Copy, Debug, PartialEq, Eq, Structural)]
pub enum TransmissionError {
    /// The selected backend needs a credential that is not configured.
    ConfigError,
    /// Connecting to, or synthesising with, a backend failed.
    TransportError,
    /// The speech bytes could not be decoded.
    DecodeError,
    /// No audio output could be opened.
    DeviceError,
}

/// How the speech of one transmission is to be fetched.
#[derive(Debug)]
pub enum FetchPlan {
    /// The streaming backend, under its retry policy.
    Edge,
    /// The HTTP API backend, one attempt, with this API key.
    Api { key: String },
}

/// Chooses the fetch for a transmission. The API backend without a key is a
/// configuration error, decided before anything goes over the network.
pub fn plan_fetch(provider: TtsProvider, api_key: Option<String>) -> (r: Result<FetchPlan, TransmissionError>)
    ensures
        provider == TtsProvider::Edge ==> r matches Ok(FetchPlan::Edge),
        provider == TtsProvider::OpenAI ==> match api_key {
            Some(k) => r matches Ok(FetchPlan::Api { key }) && key@ == k@,
            None => r == Err::<FetchPlan, TransmissionError>(TransmissionError::ConfigError),
        },
{
    match provider {
        TtsProvider::Edge => Ok(FetchPlan::Edge),
        TtsProvider::OpenAI => match api_key {
            Some(k) => Ok(FetchPlan::Api { key: k }),
            None => Err(TransmissionError::ConfigError),
        },
    }
}

/// The API backend's voice names, which the streaming backend does not know.
pub open spec fn is_generic_voice(v: Seq<char>) -> bool {
    v == "alloy"@ || v == "echo"@ || v == "fable"@ || v == "onyx"@ || v == "nova"@ || v == "shimmer"@
}

/// The streaming backend's voice when none is configured.
pub open spec fn fallback_edge_voice() -> Seq<char> {
    "en-US-AndrewNeural"@
}

/// The voice the streaming backend is asked for: a generic voice name is
/// replaced by the configured default voice, any other name passes through.
pub fn edge_voice(voice: &str, configured: Option<&str>) -> (r: String)
    ensures
        r@ == (if is_generic_voice(voice@) {
            match configured {
                Some(c) => c@,
                None => fallback_edge_voice(),
            }
        } else {
            voice@
        }),
{
    if text_is(voice, "alloy") || text_is(voice, "echo") || text_is(voice, "fable")
        || text_is(voice, "onyx") || text_is(voice, "nova") || text_is(voice, "shimmer") {
        match configured {
            Some(c) => c.to_owned(),
            None => "en-US-AndrewNeural".to_owned(),
        }
    } else {
        voice.to_owned()
    }
}

/// A bounded retry schedule with a fixed delay between attempts.
#[derive(Clone, Copy, Debug, PartialEq, Eq, Structural)]
pub struct RetryPolicy {
    pub max_attempts: u32,
    pub backoff_ms: u64,
}

/// What follows one attempt.
#[derive(Clone, Copy, Debug, PartialEq, Eq, Structural)]
pub enum RetryStep {
    /// The attempt succeeded; its result is the fetch's result.
    Succeeded,
    /// The attempt failed; wait this long, then make the next one.
    RetryAfter { delay_ms: u64 },
    /// The attempt failed and was the last allowed; its error is surfaced.
    GaveUp,
}

/// Attempts made, delays waited, and whether the fetch succeeded.
#[derive(Debug)]
pub struct RetryReport {
    pub attempts: u32,
    pub delays_ms: Vec<u64>,
    pub succeeded: bool,
}

/// Whether attempt number `k + 1` succeeds; attempts past the given
/// outcomes fail.
pub open spec fn outcome_at(outcomes: Seq<bool>, k: nat) -> bool {
    k < outcomes.len() && outcomes[k as int]
}

impl RetryPolicy {
    /// The step after attempt number `attempt` (counted from 1).
    pub open spec fn step_spec(self, attempt: nat, succeeded: bool) -> RetryStep {
        if succeeded {
            RetryStep::Succeeded
        } else if attempt < self.max_attempts {
            RetryStep::RetryAfter { delay_ms: self.backoff_ms }
        } else {
            RetryStep::GaveUp
        }
    }

    /// Attempts, delays and success of a fetch whose first `done` attempts
    /// have failed, when its attempts have the given outcomes.
    pub open spec fn run_from(self, outcomes: Seq<bool>, done: nat) -> (nat, Seq<u64>, bool)
        decreases self.max_attempts - done,
    {
        if done >= self.max_attempts {
            (done, Seq::empty(), false)
        } else if outcome_at(outcomes, done) {
            (done + 1, Seq::empty(), true)
        } else if done + 1 < self.max_attempts {
            let rest = self.run_from(outcomes, done + 1);
            (rest.0, seq![self.backoff_ms].add(rest.1), rest.2)
        } else {
            (done + 1, Seq::empty(), false)
        }
    }

    /// The streaming backend's policy: three attempts, 300 ms apart.
    pub fn edge() -> (r: RetryPolicy)
        ensures
            r.max_attempts == 3,
            r.backoff_ms == 300,
    {
        RetryPolicy { max_attempts: 3, backoff_ms: 300 }
    }

    /// Decides what follows attempt number `attempt`.
    pub fn step(&self, attempt: u32, succeeded: bool) -> (r: RetryStep)
        requires
            1 <= attempt <= self.max_attempts,
        ensures
            r == self.step_spec(attempt as nat, succeeded),
    {
        if succeeded {
            RetryStep::Succeeded
        } else if attempt < self.max_attempts {
            RetryStep::RetryAfter { delay_ms: self.backoff_ms }
        } else {
            RetryStep::GaveUp
        }
    }

    /// Runs the schedule against the outcomes of successive attempts.
    pub fn run(&self, outcomes: &Vec<bool>) -> (r: RetryReport)
        ensures
            (r.attempts as nat, r.delays_ms@, r.succeeded) == self.run_from(outcomes@, 0),
    {
        let mut delays: Vec<u64> = Vec::new();
        let mut done: u32 = 0;
        while done < self.max_attempts
            invariant
                done <= self.max_attempts,
                self.run_from(outcomes@, 0).0 == self.run_from(outcomes@, done as nat).0,
                self.run_from(outcomes@, 0).1 == delays@ + self.run_from(outcomes@, done as nat).1,
                self.run_from(outcomes@, 0).2 == self.run_from(outcomes@, done as nat).2,
            decreases self.max_attempts - done,
        {
            let ok: bool = (done as usize) < outcomes.len() && outcomes[done as usize];
            assert(ok == outcome_at(outcomes@, done as nat));
            match self.step(done + 1, ok) {
                RetryStep::Succeeded => {
                    assert(delays@ + Seq::<u64>::empty() =~= delays@);
                    return RetryReport { attempts: done + 1, delays_ms: delays, succeeded: true };
                },
                RetryStep::GaveUp => {
                    assert(delays@ + Seq::<u64>::empty() =~= delays@);
                    return RetryReport { attempts: done + 1, delays_ms: delays, succeeded: false };
                },
                RetryStep::RetryAfter { delay_ms } => {
                    let ghost before = delays@;
                    delays.push(delay_ms);
                    let ghost rest = self.run_from(outcomes@, (done + 1) as nat);
                    assert(before + (seq![self.backoff_ms] + rest.1) =~= delays@ + rest.1);
                    done = done + 1;
                },
            }
        }
        assert(delays@ + Seq::<u64>::empty() =~= delays@);
        RetryReport { attempts: done, delays_ms: delays, succeeded: false }
    }
}

/// Under the streaming backend's policy, two failed attempts followed by a
/// successful one make exactly three attempts, with a 300 ms wait before each
/// of the two retries, and the fetch succeeds.
pub proof fn lemma_edge_two_failures_then_success(p: RetryPolicy, outcomes: Seq<bool>)
    requires
        p.max_attempts == 3,
        p.backoff_ms == 300,
        outcomes == seq![false, false, true],
    ensures
        p.run_from(outcomes, 0) == (3nat, seq![300u64, 300u64], true),
{
    let r2 = p.run_from(outcomes, 2);
    assert(r2 == (3nat, Seq::<u64>::empty(), true));
    let r1 = p.run_from(outcomes, 1);
    assert(r1.1 =~= seq![300u64]);
    let r0 = p.run_from(outcomes, 0);
    assert(r0.1 =~= seq![300u64, 300u64]);
}

} // verus!
