//! Target audio formats and the ffmpeg command that converts to them.
use vstd::prelude::*;

verus! {

/// An audio format a download can be converted to.
#[derive(Debug, Clone, Copy, PartialEq, Eq, Structural)]
pub enum AudioFormat {
    Flac,
    Wav,
    Mp3,
}

/// The file extension (and display name) of a format.
pub open spec fn format_name(f: AudioFormat) -> Seq<char> {
    match f {
        AudioFormat::Flac => "flac"@,
        AudioFormat::Wav => "wav"@,
        AudioFormat::Mp3 => "mp3"@,
    }
}

/// The ffmpeg audio codec that produces a format.
pub open spec fn format_codec(f: AudioFormat) -> Seq<char> {
    match f {
        AudioFormat::Flac => "flac"@,
        AudioFormat::Wav => "pcm_s16le"@,
        AudioFormat::Mp3 => "libmp3lame"@,
    }
}

/// The ffmpeg command line that converts `input` to `output` in `format` at
/// 320 kbit/s.
pub open spec fn ffmpeg_command_spec(input: Seq<char>, output: Seq<char>, format: AudioFormat) -> Seq<Seq<char>> {
    seq!["ffmpeg"@, "-i"@, input, "-c:a"@, format_codec(format), "-b:a"@, "320k"@, output]
}

impl AudioFormat {
    /// The file extension and display name of the format (`flac`, `wav` or `mp3`).
    pub fn name(&self) -> (s: &'static str)
        ensures
            s@ == format_name(*self),
    {
        match self {
            AudioFormat::Flac => "flac",
            AudioFormat::Wav => "wav",
            AudioFormat::Mp3 => "mp3",
        }
    }

    /// The format's name as an owned string.
    pub fn to_string(&self) -> (s: String)
        ensures
            s@ == format_name(*self),
    {
        String::from_str(self.name())
    }

    /// The ffmpeg audio codec for the format.
    pub fn codec(&self) -> (s: &'static str)
        ensures
            s@ == format_codec(*self),
    {
        match self {
            AudioFormat::Flac => "flac",
            AudioFormat::Wav => "pcm_s16le",
            AudioFormat::Mp3 => "libmp3lame",
        }
    }
}

/// The ffmpeg command line (program name first) that converts `input` to
/// `output` in `format`.
pub fn ffmpeg_command(input: &str, output: &str, format: AudioFormat) -> (cmd: Vec<String>)
    ensures
        cmd.deep_view() == ffmpeg_command_spec(input@, output@, format),
{
    let mut cmd: Vec<String> = Vec::new();
    cmd.push(String::from_str("ffmpeg"));
    cmd.push(String::from_str("-i"));
    cmd.push(String::from_str(input));
    cmd.push(String::from_str("-c:a"));
    cmd.push(String::from_str(format.codec()));
    cmd.push(String::from_str("-b:a"));
    cmd.push(String::from_str("320k"));
    cmd.push(String::from_str(output));
    assert(cmd.deep_view() =~= ffmpeg_command_spec(input@, output@, format));
    cmd
}

} // verus!
