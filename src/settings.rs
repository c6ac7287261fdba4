//! Request options and process settings: tone variants, toast urgency,
//! speech backend selection and the flags read from the environment.
use vstd::prelude::*;

verus! {

/// What `str::to_uppercase` makes of a string of characters.
pub uninterp spec fn upper_of(s: Seq<char>) -> Seq<char>;

/// What `str::to_lowercase` makes of a string of characters.
pub uninterp spec fn lower_of(s: Seq<char>) -> Seq<char>;

/// Relies on `str::to_uppercase`: Unicode upper-casing, which depends on the
/// characters alone.
#[verifier::external_body]
fn uppercase(s: &str) -> (r: String)
    ensures
        r@ == upper_of(s@),
{
    s.to_uppercase()
}

/// Relies on `str::to_lowercase`: Unicode lower-casing, which depends on the
/// characters alone.
#[verifier::external_body]
fn lowercase(s: &str) -> (r: String)
    ensures
        r@ == lower_of(s@),
{
    s.to_lowercase()
}

/// ASCII lower-casing of one character, as a code point.
pub open spec fn ascii_lower_code(c: char) -> u32 {
    if 'A' <= c && c <= 'Z' {
        (c as u32 + 32) as u32
    } else {
        c as u32
    }
}

/// Two strings that differ at most in the case of ASCII letters.
pub open spec fn eq_ignoring_ascii_case(a: Seq<char>, b: Seq<char>) -> bool {
    &&& a.len() == b.len()
    &&& forall|i: int| 0 <= i < a.len() ==> ascii_lower_code(#[trigger] a[i]) == ascii_lower_code(b[i])
}

/// Relies on `str::eq_ignore_ascii_case`: equal after mapping `A`..`Z` to
/// `a`..`z` in both strings.
#[verifier::external_body]
fn ascii_case_insensitive_eq(a: &str, b: &str) -> (r: bool)
    ensures
        r == eq_ignoring_ascii_case(a@, b@),
{
    a.eq_ignore_ascii_case(b)
}

/// Whether `s` holds exactly the characters of `lit`.
pub(crate) fn text_is(s: &str, lit: &str) -> (r: bool)
    ensures
        r == (s@ == lit@),
{
    let a = s.to_owned();
    let b = lit.to_owned();
    a == b
}

/// The sound that brackets a transmission.
#[derive(Clone, Copy, Debug, PartialEq, Eq, Structural)]
pub enum ToneType {
    /// A 2500 Hz beep before and after the speech.
    Quindar,
    /// Speech only.
    NoTone,
    /// A rising three-note chime before, a single bell note after.
    ThreeNote,
}

/// The tone variant named by an upper-cased tone setting.
pub open spec fn tone_of_upper(u: Seq<char>) -> ToneType {
    if u == "NO-TONE"@ || u == "NONE"@ {
        ToneType::NoTone
    } else if u == "THREE-NOTE"@ || u == "THREE-NOTE-CHIME"@ || u == "CHIME"@ {
        ToneType::ThreeNote
    } else {
        ToneType::Quindar
    }
}

/// The tone variant named by a tone setting that is already upper-cased.
pub fn tone_from_upper(u: &str) -> (r: ToneType)
    ensures
        r == tone_of_upper(u@),
{
    if text_is(u, "NO-TONE") || text_is(u, "NONE") {
        ToneType::NoTone
    } else if text_is(u, "THREE-NOTE") || text_is(u, "THREE-NOTE-CHIME") || text_is(u, "CHIME") {
        ToneType::ThreeNote
    } else {
        ToneType::Quindar
    }
}

impl ToneType {
    /// Reads a tone name without regard to case; unknown names give `Quindar`.
    pub fn from_str(s: &str) -> (r: ToneType)
        ensures
            r == tone_of_upper(upper_of(s@)),
    {
        let u = uppercase(s);
        tone_from_upper(u.as_str())
    }

    /// The process default: the configured tone name if there is one, else `Quindar`.
    pub fn from_setting(setting: Option<&str>) -> (r: ToneType)
        ensures
            r == match setting {
                Some(s) => tone_of_upper(upper_of(s@)),
                None => ToneType::Quindar,
            },
    {
        match setting {
            Some(s) => ToneType::from_str(s),
            None => ToneType::Quindar,
        }
    }
}

/// How pressing a toast notification is.
#[derive(Clone, Copy, Debug, PartialEq, Eq, Structural)]
pub enum ToastUrgency {
    Info,
    Warning,
    Critical,
}

/// The urgency named by a lower-cased urgency setting.
pub open spec fn urgency_of_lower(l: Seq<char>) -> ToastUrgency {
    if l == "warning"@ || l == "warn"@ {
        ToastUrgency::Warning
    } else if l == "critical"@ || l == "error"@ || l == "urgent"@ {
        ToastUrgency::Critical
    } else {
        ToastUrgency::Info
    }
}

/// The urgency named by an urgency setting that is already lower-cased.
pub fn urgency_from_lower(l: &str) -> (r: ToastUrgency)
    ensures
        r == urgency_of_lower(l@),
{
    if text_is(l, "warning") || text_is(l, "warn") {
        ToastUrgency::Warning
    } else if text_is(l, "critical") || text_is(l, "error") || text_is(l, "urgent") {
        ToastUrgency::Critical
    } else {
        ToastUrgency::Info
    }
}

/// The icon name shown with a toast of the given urgency.
pub open spec fn icon_of(u: ToastUrgency) -> Seq<char> {
    match u {
        ToastUrgency::Info => "dialog-information"@,
        ToastUrgency::Warning => "dialog-warning"@,
        ToastUrgency::Critical => "dialog-error"@,
    }
}

/// How long a toast stays up, in milliseconds; 0 keeps it until dismissed.
pub open spec fn timeout_of(u: ToastUrgency) -> i32 {
    match u {
        ToastUrgency::Info => 5000,
        ToastUrgency::Warning => 8000,
        ToastUrgency::Critical => 0,
    }
}

impl ToastUrgency {
    /// Reads an urgency name without regard to case; unknown names give `Info`.
    pub fn from_str(s: &str) -> (r: ToastUrgency)
        ensures
            r == urgency_of_lower(lower_of(s@)),
    {
        let l = lowercase(s);
        urgency_from_lower(l.as_str())
    }

    pub fn icon(&self) -> (r: &'static str)
        ensures
            r@ == icon_of(*self),
    {
        match self {
            ToastUrgency::Info => "dialog-information",
            ToastUrgency::Warning => "dialog-warning",
            ToastUrgency::Critical => "dialog-error",
        }
    }

    pub fn timeout_ms(&self) -> (r: i32)
        ensures
            r == timeout_of(*self),
    {
        match self {
            ToastUrgency::Info => 5000,
            ToastUrgency::Warning => 8000,
            ToastUrgency::Critical => 0,
        }
    }
}

/// The speech backend that serves a transmission.
#[derive(Clone, Copy, Debug, PartialEq, Eq, Structural)]
pub enum TtsProvider {
    /// The streaming synthesis backend, with retries; needs no credential.
    Edge,
    /// The HTTP API backend, one attempt; needs an API key.
    OpenAI,
}

impl TtsProvider {
    /// The backend named by the backend setting: exactly `OPENAI` selects the
    /// API backend, anything else or nothing selects the streaming one.
    pub fn from_setting(setting: Option<&str>) -> (r: TtsProvider)
        ensures
            r == (match setting {
                Some(s) => if s@ == "OPENAI"@ {
                    TtsProvider::OpenAI
                } else {
                    TtsProvider::Edge
                },
                None => TtsProvider::Edge,
            }),
    {
        match setting {
            Some(s) => if text_is(s, "OPENAI") {
                TtsProvider::OpenAI
            } else {
                TtsProvider::Edge
            },
            None => TtsProvider::Edge,
        }
    }
}

/// Whether the headless setting asks for no audio output: `true` in any
/// ASCII case, or `1`.
pub fn is_headless(setting: Option<&str>) -> (r: bool)
    ensures
        r == (match setting {
            Some(v) => eq_ignoring_ascii_case(v@, "true"@) || v@ == "1"@,
            None => false,
        }),
{
    match setting {
        Some(v) => ascii_case_insensitive_eq(v, "true") || text_is(v, "1"),
        None => false,
    }
}

/// Whether a transmission shows a toast: the request's own choice if it made
/// one, else the toast setting, on when it reads `true` in lower case.
pub fn toast_enabled(requested: Option<bool>, setting: Option<&str>) -> (r: bool)
    ensures
        r == (match requested {
            Some(b) => b,
            None => match setting {
                Some(s) => lower_of(s@) == "true"@,
                None => false,
            },
        }),
{
    match requested {
        Some(b) => b,
        None => match setting {
            Some(s) => {
                let l = lowercase(s);
                text_is(l.as_str(), "true")
            },
            None => false,
        },
    }
}

/// Default voice name of a request that names none.
pub fn default_voice() -> (r: String)
    ensures
        r@ == "alloy"@,
{
    "alloy".to_owned()
}

} // verus!
