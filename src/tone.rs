//! Integer structure of the tone generators: sample counts, envelope levels
//! and where each chime contribution lands. The waveforms themselves
//! (sines and exponentials) are computed by the caller from these values.
use vstd::prelude::*;
use crate::settings::ToneType;

verus! {

/// Samples per second of every generated buffer.
pub const SAMPLE_RATE: u64 = 48000;

/// Length of the Quindar fade-in and of its fade-out, in samples (50 ms).
pub const FADE_SAMPLES: u64 = 2400;

/// Number of samples in a tone of `duration_ms` milliseconds.
pub open spec fn samples_for_ms(duration_ms: nat) -> nat {
    SAMPLE_RATE as nat * duration_ms / 1000
}

/// Envelope level of Quindar sample `i` out of `total`, in units of
/// `1 / FADE_SAMPLES`: rising over the first 50 ms, falling over the last
/// 50 ms, full in between. The fade-in wins where the two windows meet.
pub open spec fn quindar_level(i: int, total: int) -> int {
    if i < FADE_SAMPLES {
        i
    } else if i > total - FADE_SAMPLES {
        total - i
    } else {
        FADE_SAMPLES as int
    }
}

/// Envelope levels of a Quindar tone of `duration_ms` milliseconds, one per
/// sample. Sample `i` is `sin(2π · 2500 · i / 48000) · 0.5 · level / 2400`.
pub fn quindar_envelope(duration_ms: u32) -> (r: Vec<u32>)
    requires
        samples_for_ms(duration_ms as nat) <= usize::MAX,
    ensures
        r@.len() == samples_for_ms(duration_ms as nat),
        forall|i: int| 0 <= i < r@.len() ==> #[trigger] r@[i] as int == quindar_level(i, r@.len() as int),
        forall|i: int| 0 <= i < r@.len() ==> #[trigger] r@[i] <= FADE_SAMPLES,
{
    let total64: u64 = SAMPLE_RATE * (duration_ms as u64) / 1000;
    let total: usize = total64 as usize;
    let mut r: Vec<u32> = Vec::with_capacity(total);
    let mut i: usize = 0;
    while i < total
        invariant
            total == samples_for_ms(duration_ms as nat),
            total64 == total,
            i <= total,
            r@.len() == i,
            forall|k: int| 0 <= k < i ==> #[trigger] r@[k] as int == quindar_level(k, total as int),
            forall|k: int| 0 <= k < i ==> #[trigger] r@[k] <= FADE_SAMPLES,
        decreases total - i,
    {
        let level: u32 = if (i as u64) < FADE_SAMPLES {
            i as u32
        } else if (i as u64) > total64 - FADE_SAMPLES {
            (total64 - i as u64) as u32
        } else {
            FADE_SAMPLES as u32
        };
        r.push(level);
        i = i + 1;
    }
    r
}

/// Over the first 50 ms of a Quindar tone the envelope never falls.
pub proof fn lemma_quindar_fade_in_rises(total: int, i: int, j: int)
    requires
        0 <= i <= j < FADE_SAMPLES,
        j < total,
    ensures
        quindar_level(i, total) <= quindar_level(j, total),
{
}

/// Over the last 50 ms of a Quindar tone the envelope never rises, for a tone
/// long enough that its fade-in and fade-out windows do not meet.
pub proof fn lemma_quindar_fade_out_falls(total: int, i: int, j: int)
    requires
        total >= 2 * FADE_SAMPLES,
        total - FADE_SAMPLES <= i <= j < total,
    ensures
        quindar_level(i, total) >= quindar_level(j, total),
{
}

/// Nominal length of one chime note, in milliseconds.
pub const NOTE_MS: u64 = 800;

/// How long each chime note overlaps the next, in milliseconds.
pub const OVERLAP_MS: u64 = 300;

/// Soft attack of a chime note, in milliseconds.
pub const ATTACK_MS: u64 = 10;

/// Delays of the two echoes of a chime note, in milliseconds.
pub const ECHO1_MS: u64 = 120;
pub const ECHO2_MS: u64 = 240;

/// Length of the closing bell note, in milliseconds.
pub const CLOSING_MS: u64 = 300;

/// Sample counts that lay out the three-note chime.
#[derive(Clone, Copy, Debug, PartialEq, Eq, Structural)]
pub struct ChimeLayout {
    pub note_samples: usize,
    pub overlap_samples: usize,
    /// Distance between the starts of two consecutive notes.
    pub spacing: usize,
    pub attack_samples: usize,
    pub echo1_offset: usize,
    pub echo2_offset: usize,
    /// Length of the whole buffer: the last note and 500 ms of decay tail.
    pub total_len: usize,
}

/// The chime's layout at 48 kHz.
pub open spec fn chime_layout_spec() -> ChimeLayout {
    let note = samples_for_ms(NOTE_MS as nat);
    let overlap = samples_for_ms(OVERLAP_MS as nat);
    ChimeLayout {
        note_samples: note as usize,
        overlap_samples: overlap as usize,
        spacing: (note - overlap) as usize,
        attack_samples: samples_for_ms(ATTACK_MS as nat) as usize,
        echo1_offset: samples_for_ms(ECHO1_MS as nat) as usize,
        echo2_offset: samples_for_ms(ECHO2_MS as nat) as usize,
        total_len: (note + 2 * (note - overlap) + SAMPLE_RATE / 2) as usize,
    }
}

pub fn chime_layout() -> (r: ChimeLayout)
    ensures
        r == chime_layout_spec(),
        r.note_samples == 38400,
        r.overlap_samples == 14400,
        r.total_len == r.note_samples + 2 * (r.note_samples - r.overlap_samples) + SAMPLE_RATE / 2,
        r.total_len == 110400,
        r.spacing == 24000,
        r.attack_samples == 480,
        r.echo1_offset == 5760,
        r.echo2_offset == 11520,
{
    let note: usize = (SAMPLE_RATE * NOTE_MS / 1000) as usize;
    let overlap: usize = (SAMPLE_RATE * OVERLAP_MS / 1000) as usize;
    let spacing: usize = note - overlap;
    ChimeLayout {
        note_samples: note,
        overlap_samples: overlap,
        spacing,
        attack_samples: (SAMPLE_RATE * ATTACK_MS / 1000) as usize,
        echo1_offset: (SAMPLE_RATE * ECHO1_MS / 1000) as usize,
        echo2_offset: (SAMPLE_RATE * ECHO2_MS / 1000) as usize,
        total_len: note + spacing * 2 + (SAMPLE_RATE / 2) as usize,
    }
}

/// One additive contribution of a chime note: the enveloped note sample,
/// scaled by `weight_percent / 100`, is added at `position`.
#[derive(Clone, Copy, Debug, PartialEq, Eq, Structural)]
pub struct Tap {
    pub position: usize,
    pub weight_percent: u32,
}

/// `t` as a one-element sequence if its position lies inside the buffer,
/// else nothing.
pub open spec fn tap_if_inside(t: Tap, len: int) -> Seq<Tap> {
    if t.position < len {
        seq![t]
    } else {
        Seq::empty()
    }
}

/// Where sample `i` of note `note` lands: the note itself at a quarter of its
/// level, then two echoes at 12% and 6%; positions past the buffer's end are
/// dropped.
pub open spec fn chime_taps_spec(note: int, i: int) -> Seq<Tap> {
    let l = chime_layout_spec();
    let pos = note * l.spacing + i;
    tap_if_inside(Tap { position: pos as usize, weight_percent: 25 }, l.total_len as int)
        + tap_if_inside(Tap { position: (pos + l.echo1_offset) as usize, weight_percent: 12 }, l.total_len as int)
        + tap_if_inside(Tap { position: (pos + l.echo2_offset) as usize, weight_percent: 6 }, l.total_len as int)
}

pub fn chime_taps(note: usize, i: usize) -> (r: Vec<Tap>)
    requires
        note < 3,
        i < chime_layout_spec().note_samples,
    ensures
        r@ == chime_taps_spec(note as int, i as int),
        forall|k: int| 0 <= k < r@.len() ==> (#[trigger] r@[k]).position < chime_layout_spec().total_len,
{
    let l = chime_layout();
    let pos: usize = note * l.spacing + i;
    let mut r: Vec<Tap> = Vec::new();
    if pos < l.total_len {
        r.push(Tap { position: pos, weight_percent: 25 });
    }
    let echo1_pos: usize = pos + l.echo1_offset;
    if echo1_pos < l.total_len {
        r.push(Tap { position: echo1_pos, weight_percent: 12 });
    }
    let echo2_pos: usize = pos + l.echo2_offset;
    if echo2_pos < l.total_len {
        r.push(Tap { position: echo2_pos, weight_percent: 6 });
    }
    proof {
        let t0 = tap_if_inside(Tap { position: pos, weight_percent: 25 }, l.total_len as int);
        let t1 = tap_if_inside(Tap { position: echo1_pos, weight_percent: 12 }, l.total_len as int);
        let t2 = tap_if_inside(Tap { position: echo2_pos, weight_percent: 6 }, l.total_len as int);
        assert(r@ =~= t0 + t1 + t2);
    }
    r
}

/// Phase of a chime note's envelope at one of its samples.
#[derive(Clone, Copy, Debug, PartialEq, Eq, Structural)]
pub enum ChimeEnvelope {
    /// Linear rise: level `0.5 · step / attack_samples`.
    Attack { step: u32 },
    /// Exponential fall: level `0.5 · exp(-1.8 · elapsed / note_samples)`.
    Decay { elapsed: u32 },
}

pub open spec fn chime_envelope_spec(i: int) -> ChimeEnvelope {
    let a = chime_layout_spec().attack_samples as int;
    if i < a {
        ChimeEnvelope::Attack { step: i as u32 }
    } else {
        ChimeEnvelope::Decay { elapsed: (i - a) as u32 }
    }
}

/// Envelope phase of sample `i` of a chime note.
pub fn chime_envelope(i: usize) -> (r: ChimeEnvelope)
    requires
        i < chime_layout_spec().note_samples,
    ensures
        r == chime_envelope_spec(i as int),
{
    let l = chime_layout();
    if i < l.attack_samples {
        ChimeEnvelope::Attack { step: i as u32 }
    } else {
        ChimeEnvelope::Decay { elapsed: (i - l.attack_samples) as u32 }
    }
}

/// Length of the closing bell note: 300 ms at 48 kHz. Sample `i` of it is
/// `sin(2π · 783.99 · i / 48000) · 0.35 · exp(-2.5 · i / len)`.
pub fn closing_chime_len() -> (r: usize)
    ensures
        r == samples_for_ms(CLOSING_MS as nat),
        r == 14400,
{
    (SAMPLE_RATE * CLOSING_MS / 1000) as usize
}

/// A finished buffer handed out one sample at a time, front to back, once.
pub struct SampleCursor<T> {
    samples: Vec<T>,
    current: usize,
}

impl<T: Copy> SampleCursor<T> {
    /// The samples not yet handed out.
    pub closed spec fn remaining(&self) -> Seq<T> {
        self.samples@.subrange(self.current as int, self.samples@.len() as int)
    }

    pub closed spec fn wf(&self) -> bool {
        self.current <= self.samples@.len()
    }

    pub fn new(samples: Vec<T>) -> (r: Self)
        ensures
            r.wf(),
            r.remaining() == samples@,
    {
        let r = SampleCursor { samples, current: 0 };
        assert(r.remaining() =~= r.samples@);
        r
    }

    /// The next sample, or `None` once all have been handed out.
    pub fn next(&mut self) -> (r: Option<T>)
        requires
            old(self).wf(),
        ensures
            final(self).wf(),
            old(self).remaining().len() > 0 ==> r == Some(old(self).remaining()[0])
                && final(self).remaining() == old(self).remaining().drop_first(),
            old(self).remaining().len() == 0 ==> r is None && final(self).remaining() == old(self).remaining(),
    {
        if self.current < self.samples.len() {
            let sample = self.samples[self.current];
            self.current = self.current + 1;
            assert(self.remaining() =~= old(self).remaining().drop_first());
            Some(sample)
        } else {
            None
        }
    }
}

/// One piece of a rendered transmission, in playing order.
#[derive(Clone, Copy, Debug, PartialEq, Eq, Structural)]
pub enum Segment {
    Quindar { duration_ms: u32 },
    Chime,
    ClosingChime,
    /// The decoded speech, each sample multiplied by the request's volume.
    Speech,
}

/// The pieces of a transmission for each tone variant: the opening tone,
/// the speech, the closing tone.
pub open spec fn segments_of(tone: ToneType) -> Seq<Segment> {
    match tone {
        ToneType::Quindar => seq![
            Segment::Quindar { duration_ms: 500 },
            Segment::Speech,
            Segment::Quindar { duration_ms: 250 },
        ],
        ToneType::ThreeNote => seq![Segment::Chime, Segment::Speech, Segment::ClosingChime],
        ToneType::NoTone => seq![Segment::Speech],
    }
}

/// What to render for a transmission: nothing at all in headless mode, where
/// the speech having been fetched is success, else the pieces for its tone.
pub fn render_plan(tone: ToneType, headless: bool) -> (r: Option<Vec<Segment>>)
    ensures
        headless <==> r is None,
        !headless ==> (r matches Some(v) && v@ == segments_of(tone)),
{
    if headless {
        return None;
    }
    let mut v: Vec<Segment> = Vec::new();
    match tone {
        ToneType::Quindar => {
            v.push(Segment::Quindar { duration_ms: 500 });
            v.push(Segment::Speech);
            v.push(Segment::Quindar { duration_ms: 250 });
        },
        ToneType::ThreeNote => {
            v.push(Segment::Chime);
            v.push(Segment::Speech);
            v.push(Segment::ClosingChime);
        },
        ToneType::NoTone => {
            v.push(Segment::Speech);
        },
    }
    proof {
        assert(v@ =~= segments_of(tone));
    }
    Some(v)
}

} // verus!
