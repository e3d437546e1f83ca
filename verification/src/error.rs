//! Error types of the library, each with the message it is shown with.
use vstd::prelude::*;

verus! {

/// `<std::io::Error as Display>::to_string`: the error's text. Nothing is
/// stated of it: the operating system and locale supply it.
#[verifier::external_body]
fn io_error_text(e: &std::io::Error) -> String {
    e.to_string()
}

/// `prefix` followed by `detail`.
fn prefixed(prefix: &str, detail: &String) -> (r: String)
    ensures
        r@ == prefix@ + detail@,
{
    let mut s = String::from_str(prefix);
    s.append(detail.as_str());
    s
}

/// Audio capture errors.
#[derive(Debug)]
pub enum CaptureError {
    MicUnavailable(String),
    SystemAudioUnavailable(String),
    DeviceDisconnected(String),
    BufferUnderrun,
    Backend(String),
    Io(std::io::Error),
    ChannelClosed(String),
}

/// The message of a capture error, except for I/O errors, whose message is
/// "I/O error: " followed by the error's own text.
pub open spec fn capture_error_message(e: &CaptureError) -> Seq<char> {
    match e {
        CaptureError::MicUnavailable(s) => "Microphone unavailable: "@ + s@,
        CaptureError::SystemAudioUnavailable(s) => "System audio unavailable: "@ + s@,
        CaptureError::DeviceDisconnected(s) => "Device disconnected during capture: "@ + s@,
        CaptureError::BufferUnderrun => "Buffer underrun"@,
        CaptureError::Backend(s) => "Backend-specific error: "@ + s@,
        CaptureError::Io(_) => "I/O error: "@,
        CaptureError::ChannelClosed(s) => "Channel closed: "@ + s@,
    }
}

impl CaptureError {
    /// The message the error is shown with.
    pub fn message(&self) -> (r: String)
        ensures
            !(self is Io) ==> r@ == capture_error_message(self),
            self is Io ==> r@.len() >= capture_error_message(self).len()
                && r@.subrange(0, capture_error_message(self).len() as int) == capture_error_message(self),
    {
        match self {
            CaptureError::MicUnavailable(s) => prefixed("Microphone unavailable: ", s),
            CaptureError::SystemAudioUnavailable(s) => prefixed("System audio unavailable: ", s),
            CaptureError::DeviceDisconnected(s) => prefixed("Device disconnected during capture: ", s),
            CaptureError::BufferUnderrun => String::from_str("Buffer underrun"),
            CaptureError::Backend(s) => prefixed("Backend-specific error: ", s),
            CaptureError::Io(e) => {
                let text = io_error_text(e);
                let r = prefixed("I/O error: ", &text);
                assert(r@.subrange(0, "I/O error: "@.len() as int) =~= "I/O error: "@);
                r
            },
            CaptureError::ChannelClosed(s) => prefixed("Channel closed: ", s),
        }
    }
}

/// Meeting detection errors.
#[derive(Debug)]
pub enum DetectionError {
    PlatformUnavailable(String),
    ProcessQuery(String),
    AudioSensor(String),
    Other(String),
}

/// The message of a detection error.
pub open spec fn detection_error_message(e: &DetectionError) -> Seq<char> {
    match e {
        DetectionError::PlatformUnavailable(s) => "Platform detection unavailable: "@ + s@,
        DetectionError::ProcessQuery(s) => "Process query failed: "@ + s@,
        DetectionError::AudioSensor(s) => "Audio sensor error: "@ + s@,
        DetectionError::Other(s) => s@,
    }
}

impl DetectionError {
    /// The message the error is shown with.
    pub fn message(&self) -> (r: String)
        ensures
            r@ == detection_error_message(self),
    {
        match self {
            DetectionError::PlatformUnavailable(s) => prefixed("Platform detection unavailable: ", s),
            DetectionError::ProcessQuery(s) => prefixed("Process query failed: ", s),
            DetectionError::AudioSensor(s) => prefixed("Audio sensor error: ", s),
            DetectionError::Other(s) => s.clone(),
        }
    }
}

/// Consent errors.
#[derive(Debug)]
pub enum ConsentError {
    NotYetGiven,
    AlreadyGiven,
    LogWrite(String),
}

/// The message of a consent error.
pub open spec fn consent_error_message(e: &ConsentError) -> Seq<char> {
    match e {
        ConsentError::NotYetGiven => "Consent not yet given"@,
        ConsentError::AlreadyGiven => "Consent already given"@,
        ConsentError::LogWrite(s) => "Log write failed: "@ + s@,
    }
}

impl ConsentError {
    /// The message the error is shown with.
    pub fn message(&self) -> (r: String)
        ensures
            r@ == consent_error_message(self),
    {
        match self {
            ConsentError::NotYetGiven => String::from_str("Consent not yet given"),
            ConsentError::AlreadyGiven => String::from_str("Consent already given"),
            ConsentError::LogWrite(s) => prefixed("Log write failed: ", s),
        }
    }
}

} // verus!
