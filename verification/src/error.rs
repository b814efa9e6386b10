//! Errors of the bridge and the payload the user interface receives for them.
use vstd::prelude::*;
use crate::redact::{redact_secrets, spec_redact};

verus! {

/// What went wrong, with a human-readable detail. The I/O, HTTP and
/// serialization variants carry the message of the underlying error.
#[derive(Debug)]
pub enum BridgeError {
    Config(String),
    Network(String),
    Process(String),
    MediaMtx(String),
    Ffmpeg(String),
    Obs(String),
    VirtualCamera(String),
    InvalidTransition(String),
    UnsupportedAutomation(String),
    Validation(String),
    Io(String),
    Http(String),
    Serialization(String),
}

pub type BridgeResult<T> = Result<T, BridgeError>;

#[derive(Debug, Clone, Copy, PartialEq, Eq, Structural)]
pub enum ErrorKind {
    Config,
    Network,
    Process,
    MediaMtx,
    Ffmpeg,
    Obs,
    VirtualCamera,
    InvalidTransition,
    UnsupportedAutomation,
    Validation,
    Io,
    Http,
    Serialization,
}

impl View for BridgeError {
    type V = (ErrorKind, Seq<char>);

    open spec fn view(&self) -> (ErrorKind, Seq<char>) {
        match self {
            BridgeError::Config(d) => (ErrorKind::Config, d@),
            BridgeError::Network(d) => (ErrorKind::Network, d@),
            BridgeError::Process(d) => (ErrorKind::Process, d@),
            BridgeError::MediaMtx(d) => (ErrorKind::MediaMtx, d@),
            BridgeError::Ffmpeg(d) => (ErrorKind::Ffmpeg, d@),
            BridgeError::Obs(d) => (ErrorKind::Obs, d@),
            BridgeError::VirtualCamera(d) => (ErrorKind::VirtualCamera, d@),
            BridgeError::InvalidTransition(d) => (ErrorKind::InvalidTransition, d@),
            BridgeError::UnsupportedAutomation(d) => (ErrorKind::UnsupportedAutomation, d@),
            BridgeError::Validation(d) => (ErrorKind::Validation, d@),
            BridgeError::Io(d) => (ErrorKind::Io, d@),
            BridgeError::Http(d) => (ErrorKind::Http, d@),
            BridgeError::Serialization(d) => (ErrorKind::Serialization, d@),
        }
    }
}

/// The result of a check: `None` when it passes, or the error it gives.
pub open spec fn result_matches<T>(r: Result<T, BridgeError>, expected: Option<(ErrorKind, Seq<char>)>) -> bool {
    match expected {
        None => r is Ok,
        Some(e) => r matches Err(x) && x@ == e,
    }
}

/// The text in front of the detail when an error is displayed.
pub open spec fn error_prefix(kind: ErrorKind) -> Seq<char> {
    match kind {
        ErrorKind::Config => "Configuration error: "@,
        ErrorKind::Network => "Network discovery failed: "@,
        ErrorKind::Process => "Process error: "@,
        ErrorKind::MediaMtx => "MediaMTX error: "@,
        ErrorKind::Ffmpeg => "FFmpeg error: "@,
        ErrorKind::Obs => "OBS error: "@,
        ErrorKind::VirtualCamera => "Virtual camera error: "@,
        ErrorKind::InvalidTransition => "Invalid workflow transition: "@,
        ErrorKind::UnsupportedAutomation => "Unsupported automation: "@,
        ErrorKind::Validation => "Validation error: "@,
        ErrorKind::Io => "I/O error: "@,
        ErrorKind::Http => "HTTP error: "@,
        ErrorKind::Serialization => "Serialization error: "@,
    }
}

pub open spec fn error_text(e: (ErrorKind, Seq<char>)) -> Seq<char> {
    error_prefix(e.0) + e.1
}

pub open spec fn error_code(kind: ErrorKind) -> Seq<char> {
    match kind {
        ErrorKind::Config => "CONFIG"@,
        ErrorKind::Network => "NETWORK"@,
        ErrorKind::Process => "PROCESS"@,
        ErrorKind::MediaMtx => "MEDIAMTX"@,
        ErrorKind::Ffmpeg => "FFMPEG"@,
        ErrorKind::Obs => "OBS"@,
        ErrorKind::VirtualCamera => "VIRTUAL_CAMERA"@,
        ErrorKind::InvalidTransition => "INVALID_TRANSITION"@,
        ErrorKind::UnsupportedAutomation => "UNSUPPORTED_AUTOMATION"@,
        ErrorKind::Validation => "VALIDATION"@,
        ErrorKind::Io => "IO"@,
        ErrorKind::Http => "HTTP"@,
        ErrorKind::Serialization => "SERIALIZATION"@,
    }
}

/// The translation key of the error's name: `errors.message.<topic>`.
pub open spec fn error_topic(kind: ErrorKind) -> Seq<char> {
    match kind {
        ErrorKind::Config => "config"@,
        ErrorKind::Network => "network"@,
        ErrorKind::Process => "process"@,
        ErrorKind::MediaMtx => "mediamtx"@,
        ErrorKind::Ffmpeg => "ffmpeg"@,
        ErrorKind::Obs => "obs"@,
        ErrorKind::VirtualCamera => "virtualCamera"@,
        ErrorKind::InvalidTransition => "transition"@,
        ErrorKind::UnsupportedAutomation => "unsupported"@,
        ErrorKind::Validation => "validation"@,
        ErrorKind::Io => "io"@,
        ErrorKind::Http => "http"@,
        ErrorKind::Serialization => "serialization"@,
    }
}

impl BridgeError {
    pub fn kind(&self) -> (k: ErrorKind)
        ensures
            k == self@.0,
    {
        match self {
            BridgeError::Config(_) => ErrorKind::Config,
            BridgeError::Network(_) => ErrorKind::Network,
            BridgeError::Process(_) => ErrorKind::Process,
            BridgeError::MediaMtx(_) => ErrorKind::MediaMtx,
            BridgeError::Ffmpeg(_) => ErrorKind::Ffmpeg,
            BridgeError::Obs(_) => ErrorKind::Obs,
            BridgeError::VirtualCamera(_) => ErrorKind::VirtualCamera,
            BridgeError::InvalidTransition(_) => ErrorKind::InvalidTransition,
            BridgeError::UnsupportedAutomation(_) => ErrorKind::UnsupportedAutomation,
            BridgeError::Validation(_) => ErrorKind::Validation,
            BridgeError::Io(_) => ErrorKind::Io,
            BridgeError::Http(_) => ErrorKind::Http,
            BridgeError::Serialization(_) => ErrorKind::Serialization,
        }
    }

    pub fn detail(&self) -> (d: &String)
        ensures
            d@ == self@.1,
    {
        match self {
            BridgeError::Config(d) => d,
            BridgeError::Network(d) => d,
            BridgeError::Process(d) => d,
            BridgeError::MediaMtx(d) => d,
            BridgeError::Ffmpeg(d) => d,
            BridgeError::Obs(d) => d,
            BridgeError::VirtualCamera(d) => d,
            BridgeError::InvalidTransition(d) => d,
            BridgeError::UnsupportedAutomation(d) => d,
            BridgeError::Validation(d) => d,
            BridgeError::Io(d) => d,
            BridgeError::Http(d) => d,
            BridgeError::Serialization(d) => d,
        }
    }

    /// The error as it is displayed: "<prefix><detail>".
    pub fn message(&self) -> (m: String)
        ensures
            m@ == error_text(self@),
    {
        let prefix = match self {
            BridgeError::Config(_) => "Configuration error: ",
            BridgeError::Network(_) => "Network discovery failed: ",
            BridgeError::Process(_) => "Process error: ",
            BridgeError::MediaMtx(_) => "MediaMTX error: ",
            BridgeError::Ffmpeg(_) => "FFmpeg error: ",
            BridgeError::Obs(_) => "OBS error: ",
            BridgeError::VirtualCamera(_) => "Virtual camera error: ",
            BridgeError::InvalidTransition(_) => "Invalid workflow transition: ",
            BridgeError::UnsupportedAutomation(_) => "Unsupported automation: ",
            BridgeError::Validation(_) => "Validation error: ",
            BridgeError::Io(_) => "I/O error: ",
            BridgeError::Http(_) => "HTTP error: ",
            BridgeError::Serialization(_) => "Serialization error: ",
        };
        String::from_str(prefix).concat(self.detail().as_str())
    }
}

/// What the user interface receives for an error: a stable code, translation
/// keys for the message and the suggested action, and the redacted detail.
#[derive(Debug, Clone)]
pub struct ErrorPayload {
    pub code: &'static str,
    pub message_key: &'static str,
    pub detail: String,
    pub action_key: &'static str,
}

pub open spec fn message_key_of(kind: ErrorKind) -> Seq<char> {
    "errors.message."@ + error_topic(kind)
}

pub open spec fn action_key_of(kind: ErrorKind) -> Seq<char> {
    "errors.action."@ + error_topic(kind)
}

impl ErrorPayload {
    /// The payload for `value`; its detail is the displayed error with every
    /// secret removed.
    pub fn from(value: BridgeError) -> (p: Self)
        ensures
            p.code@ == error_code(value@.0),
            p.message_key@ == message_key_of(value@.0),
            p.action_key@ == action_key_of(value@.0),
            p.detail@ == spec_redact(error_text(value@)),
    {
        let (code, message, action) = match &value {
            BridgeError::Config(_) => ("CONFIG", "errors.message.config", "errors.action.config"),
            BridgeError::Network(_) => ("NETWORK", "errors.message.network", "errors.action.network"),
            BridgeError::Process(_) => ("PROCESS", "errors.message.process", "errors.action.process"),
            BridgeError::MediaMtx(_) => ("MEDIAMTX", "errors.message.mediamtx", "errors.action.mediamtx"),
            BridgeError::Ffmpeg(_) => ("FFMPEG", "errors.message.ffmpeg", "errors.action.ffmpeg"),
            BridgeError::Obs(_) => ("OBS", "errors.message.obs", "errors.action.obs"),
            BridgeError::VirtualCamera(_) => (
                "VIRTUAL_CAMERA",
                "errors.message.virtualCamera",
                "errors.action.virtualCamera",
            ),
            BridgeError::InvalidTransition(_) => (
                "INVALID_TRANSITION",
                "errors.message.transition",
                "errors.action.transition",
            ),
            BridgeError::UnsupportedAutomation(_) => (
                "UNSUPPORTED_AUTOMATION",
                "errors.message.unsupported",
                "errors.action.unsupported",
            ),
            BridgeError::Validation(_) => (
                "VALIDATION",
                "errors.message.validation",
                "errors.action.validation",
            ),
            BridgeError::Io(_) => ("IO", "errors.message.io", "errors.action.io"),
            BridgeError::Http(_) => ("HTTP", "errors.message.http", "errors.action.http"),
            BridgeError::Serialization(_) => (
                "SERIALIZATION",
                "errors.message.serialization",
                "errors.action.serialization",
            ),
        };
        proof {
            reveal_strlit("errors.message.");
            reveal_strlit("errors.action.");
            reveal_strlit("config");
            reveal_strlit("errors.message.config");
            reveal_strlit("errors.action.config");
            reveal_strlit("network");
            reveal_strlit("errors.message.network");
            reveal_strlit("errors.action.network");
            reveal_strlit("process");
            reveal_strlit("errors.message.process");
            reveal_strlit("errors.action.process");
            reveal_strlit("mediamtx");
            reveal_strlit("errors.message.mediamtx");
            reveal_strlit("errors.action.mediamtx");
            reveal_strlit("ffmpeg");
            reveal_strlit("errors.message.ffmpeg");
            reveal_strlit("errors.action.ffmpeg");
            reveal_strlit("obs");
            reveal_strlit("errors.message.obs");
            reveal_strlit("errors.action.obs");
            reveal_strlit("virtualCamera");
            reveal_strlit("errors.message.virtualCamera");
            reveal_strlit("errors.action.virtualCamera");
            reveal_strlit("transition");
            reveal_strlit("errors.message.transition");
            reveal_strlit("errors.action.transition");
            reveal_strlit("unsupported");
            reveal_strlit("errors.message.unsupported");
            reveal_strlit("errors.action.unsupported");
            reveal_strlit("validation");
            reveal_strlit("errors.message.validation");
            reveal_strlit("errors.action.validation");
            reveal_strlit("io");
            reveal_strlit("errors.message.io");
            reveal_strlit("errors.action.io");
            reveal_strlit("http");
            reveal_strlit("errors.message.http");
            reveal_strlit("errors.action.http");
            reveal_strlit("serialization");
            reveal_strlit("errors.message.serialization");
            reveal_strlit("errors.action.serialization");
            assert(message_key_of(value@.0) =~= message@);
            assert(action_key_of(value@.0) =~= action@);
        }
        let text = value.message();
        ErrorPayload { code, message_key: message, detail: redact_secrets(text.as_str()), action_key: action }
    }
}

} // verus!
