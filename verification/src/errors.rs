//! The ways loading and playing a song can fail, and what each one tells
//! the user.

use vstd::prelude::*;

verus! {

/// A failure while loading or playing audio. Variants with a `String`
/// carry the underlying error's own description.
#[derive(Clone, Debug)]
pub enum AudioError {
    /// The audio file could not be opened.
    OpenFile(String),
    /// No demuxer recognises the file's format.
    UnsupportedFormat(String),
    /// The file holds no default track.
    NoDefaultTrack,
    /// No decoder supports the track's codec.
    UnsupportedCodec(String),
    /// A packet of the track could not be decoded.
    PacketDecode(String),
    /// The system offers no audio output device.
    NoOutputDevice,
    /// Playback was asked for before an output device was set up.
    NoDevice,
    /// The output stream could not be built.
    StreamBuild(String),
}

/// The text shown for an error.
pub open spec fn error_message(error: AudioError) -> Seq<char> {
    match error {
        AudioError::OpenFile(detail) => "failed to open file: "@ + detail@,
        AudioError::UnsupportedFormat(detail) => "input format not supported: "@ + detail@,
        AudioError::NoDefaultTrack => "no default track"@,
        AudioError::UnsupportedCodec(detail) => "input codec not supported: "@ + detail@,
        AudioError::PacketDecode(detail) => "packet failed to decode: "@ + detail@,
        AudioError::NoOutputDevice => "No output device available, you shouldn't be using this if you got nothing that can output sound."@,
        AudioError::NoDevice => "oops tried to play audio with no device!"@,
        AudioError::StreamBuild(detail) => "failed to build stream: "@ + detail@,
    }
}

/// A fixed text followed by the underlying error's description.
fn with_detail(prefix: &str, detail: &String) -> (text: String)
    ensures
        text@ == prefix@ + detail@,
{
    let mut text = String::from_str(prefix);
    text.append(detail.as_str());
    text
}

impl AudioError {
    /// The text shown for this error.
    pub fn message(&self) -> (text: String)
        ensures
            text@ == error_message(*self),
    {
        match self {
            AudioError::OpenFile(detail) => with_detail("failed to open file: ", detail),
            AudioError::UnsupportedFormat(detail) => with_detail("input format not supported: ", detail),
            AudioError::NoDefaultTrack => String::from_str("no default track"),
            AudioError::UnsupportedCodec(detail) => with_detail("input codec not supported: ", detail),
            AudioError::PacketDecode(detail) => with_detail("packet failed to decode: ", detail),
            AudioError::NoOutputDevice => String::from_str(
                "No output device available, you shouldn't be using this if you got nothing that can output sound.",
            ),
            AudioError::NoDevice => String::from_str("oops tried to play audio with no device!"),
            AudioError::StreamBuild(detail) => with_detail("failed to build stream: ", detail),
        }
    }
}

} // verus!
