//! The failures the tool reports, each with a message and remedies.

use vstd::prelude::*;
use crate::text::{concat3, concat};

verus! {

/// A failure reported to the user.
#[derive(Clone, Debug, PartialEq, Eq)]
pub enum BiboError {
    /// The identifier names no voice of the catalog.
    VoiceNotFound(String),
    /// The voice is known but its files are absent.
    VoiceNotInstalled(String),
    FileNotFound(String),
    UnsupportedFileType(String),
    EmptyFile(String),
    NoTextProvided,
    InvalidSpeed(String),
    DownloadFailed(String),
    SynthesisFailed(String),
    PlaybackFailed(String),
    /// An installed voice lacks a file it needs.
    ConfigError(String),
    /// The synthesis engine's executable cannot be found.
    SherpaNotFound,
    Other(String),
}

/// The one-line message of an error.
pub open spec fn message_of(e: BiboError) -> Seq<char> {
    match e {
        BiboError::VoiceNotFound(v) => "Voice '"@ + v@ + "' not found"@,
        BiboError::VoiceNotInstalled(v) => "Voice '"@ + v@ + "' not installed"@,
        BiboError::FileNotFound(p) => "File not found: "@ + p@,
        BiboError::UnsupportedFileType(x) => "Unsupported file type: "@ + x@,
        BiboError::EmptyFile(p) => "Empty file: "@ + p@,
        BiboError::NoTextProvided => "No text provided"@,
        BiboError::InvalidSpeed(s) => "Invalid speed: "@ + s@,
        BiboError::DownloadFailed(m) => "Download failed: "@ + m@,
        BiboError::SynthesisFailed(m) => "TTS synthesis failed: "@ + m@,
        BiboError::PlaybackFailed(m) => "Audio playback failed: "@ + m@,
        BiboError::ConfigError(m) => "Config error: "@ + m@,
        BiboError::SherpaNotFound => "sherpa-onnx TTS engine not found"@,
        BiboError::Other(m) => m@,
    }
}

/// The remedies suggested for an error, one per line.
pub open spec fn tips_of(e: BiboError) -> Seq<Seq<char>> {
    match e {
        BiboError::VoiceNotFound(_) => seq![
            "bibo -l          # List installed voices"@,
            "bibo -d list     # Show downloadable voices"@,
        ],
        BiboError::VoiceNotInstalled(v) => seq![
            "bibo -d "@ + v@ + "  # Download this voice"@,
            "bibo -d list     # Show all downloadable voices"@,
        ],
        BiboError::FileNotFound(_) => seq![
            "Check the file path for typos"@,
            "Use absolute path: bibo -i /full/path/to/file.md"@,
        ],
        BiboError::UnsupportedFileType(_) => seq![
            "bibo -i file.md   # Markdown files"@,
            "bibo -i file.txt  # Text files"@,
            "bibo \"text\"       # Or just pass text directly"@,
        ],
        BiboError::EmptyFile(_) => seq![
            "Check if the file contains text content"@,
            "For Markdown: ensure text outside code blocks"@,
        ],
        BiboError::NoTextProvided => seq![
            "bibo \"Hello world\"     # Direct text"@,
            "bibo -i README.md      # From file"@,
        ],
        BiboError::InvalidSpeed(_) => seq![
            "bibo \"text\" -s slow   # Slow speed"@,
            "bibo \"text\" -s normal # Normal speed"@,
            "bibo \"text\" -s fast   # Fast speed"@,
            "bibo \"text\" -f        # Fast mode shortcut"@,
        ],
        BiboError::DownloadFailed(_) => seq![
            "Check your internet connection"@,
            "Try again later"@,
            "Use VPN if HuggingFace is blocked"@,
        ],
        BiboError::SynthesisFailed(_) | BiboError::PlaybackFailed(_) => seq![
            "Check if voice model is valid"@,
            "bibo -d <voice>  # Re-download the voice"@,
        ],
        BiboError::SherpaNotFound => seq![
            "Set BIBO_SHERPA_PATH to the sherpa-onnx-offline-tts binary"@,
            "Or put sherpa-onnx-offline-tts on your PATH"@,
        ],
        BiboError::ConfigError(_) | BiboError::Other(_) => seq!["bibo --help  # Show usage"@],
    }
}

fn push_text(v: &mut Vec<String>, s: &str)
    ensures
        final(v).deep_view() == old(v).deep_view().push(s@),
{
    v.push(String::from_str(s));
    assert(v.deep_view() =~= old(v).deep_view().push(s@));
}

fn texts2(a: &str, b: &str) -> (r: Vec<String>)
    ensures
        r.deep_view() == seq![a@, b@],
{
    let mut v: Vec<String> = Vec::new();
    assert(v.deep_view() =~= Seq::<Seq<char>>::empty());
    push_text(&mut v, a);
    push_text(&mut v, b);
    assert(v.deep_view() =~= seq![a@, b@]);
    v
}

fn texts3(a: &str, b: &str, c: &str) -> (r: Vec<String>)
    ensures
        r.deep_view() == seq![a@, b@, c@],
{
    let mut v = texts2(a, b);
    push_text(&mut v, c);
    assert(v.deep_view() =~= seq![a@, b@, c@]);
    v
}

impl BiboError {
    /// The one-line message of this error.
    pub fn message(&self) -> (r: String)
        ensures
            r@ == message_of(*self),
    {
        match self {
            BiboError::VoiceNotFound(v) => concat3("Voice '", v.as_str(), "' not found"),
            BiboError::VoiceNotInstalled(v) => concat3("Voice '", v.as_str(), "' not installed"),
            BiboError::FileNotFound(p) => concat("File not found: ", p.as_str()),
            BiboError::UnsupportedFileType(x) => concat("Unsupported file type: ", x.as_str()),
            BiboError::EmptyFile(p) => concat("Empty file: ", p.as_str()),
            BiboError::NoTextProvided => String::from_str("No text provided"),
            BiboError::InvalidSpeed(s) => concat("Invalid speed: ", s.as_str()),
            BiboError::DownloadFailed(m) => concat("Download failed: ", m.as_str()),
            BiboError::SynthesisFailed(m) => concat("TTS synthesis failed: ", m.as_str()),
            BiboError::PlaybackFailed(m) => concat("Audio playback failed: ", m.as_str()),
            BiboError::ConfigError(m) => concat("Config error: ", m.as_str()),
            BiboError::SherpaNotFound => String::from_str("sherpa-onnx TTS engine not found"),
            BiboError::Other(m) => m.clone(),
        }
    }

    /// Actionable remedies for this error.
    pub fn tips(&self) -> (r: Vec<String>)
        ensures
            r.deep_view() == tips_of(*self),
    {
        match self {
            BiboError::VoiceNotFound(_) => texts2(
                "bibo -l          # List installed voices",
                "bibo -d list     # Show downloadable voices",
            ),
            BiboError::VoiceNotInstalled(v) => {
                let first = concat3("bibo -d ", v.as_str(), "  # Download this voice");
                texts2(first.as_str(), "bibo -d list     # Show all downloadable voices")
            },
            BiboError::FileNotFound(_) => texts2(
                "Check the file path for typos",
                "Use absolute path: bibo -i /full/path/to/file.md",
            ),
            BiboError::UnsupportedFileType(_) => texts3(
                "bibo -i file.md   # Markdown files",
                "bibo -i file.txt  # Text files",
                "bibo \"text\"       # Or just pass text directly",
            ),
            BiboError::EmptyFile(_) => texts2(
                "Check if the file contains text content",
                "For Markdown: ensure text outside code blocks",
            ),
            BiboError::NoTextProvided => texts2(
                "bibo \"Hello world\"     # Direct text",
                "bibo -i README.md      # From file",
            ),
            BiboError::InvalidSpeed(_) => {
                let mut v = texts3(
                    "bibo \"text\" -s slow   # Slow speed",
                    "bibo \"text\" -s normal # Normal speed",
                    "bibo \"text\" -s fast   # Fast speed",
                );
                push_text(&mut v, "bibo \"text\" -f        # Fast mode shortcut");
                assert(v.deep_view() =~= tips_of(*self));
                v
            },
            BiboError::DownloadFailed(_) => texts3(
                "Check your internet connection",
                "Try again later",
                "Use VPN if HuggingFace is blocked",
            ),
            BiboError::SynthesisFailed(_) | BiboError::PlaybackFailed(_) => texts2(
                "Check if voice model is valid",
                "bibo -d <voice>  # Re-download the voice",
            ),
            BiboError::SherpaNotFound => texts2(
                "Set BIBO_SHERPA_PATH to the sherpa-onnx-offline-tts binary",
                "Or put sherpa-onnx-offline-tts on your PATH",
            ),
            BiboError::ConfigError(_) | BiboError::Other(_) => {
                let mut v: Vec<String> = Vec::new();
                assert(v.deep_view() =~= Seq::<Seq<char>>::empty());
                push_text(&mut v, "bibo --help  # Show usage");
                assert(v.deep_view() =~= tips_of(*self));
                v
            },
        }
    }
}

} // verus!
