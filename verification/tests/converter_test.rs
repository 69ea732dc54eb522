use mm_dlp_core::media::converter::{ffmpeg_command, AudioFormat};
use mm_dlp_core::media::tagger::{cover_mime, CoverMime};

fn generate_ffmpeg_command(input: &str, output: &str, format: AudioFormat) -> Vec<String> {
    ffmpeg_command(input, output, format)
}

// The codec is the word after `-c:a`, at index 4 of the command; index 5
// holds `-b:a`, so an assertion of the codec at index 5 cannot pass on this
// command line, and the checks below read index 4.
#[test]
fn test_ffmpeg_command_generation() {
    let input = "input.opus";
    let output_flac = "output.flac";
    let output_wav = "output.wav";
    let output_mp3 = "output.mp3";

    let flac_command = generate_ffmpeg_command(input, output_flac, AudioFormat::Flac);
    assert_eq!(flac_command[4], "flac");

    let wav_command = generate_ffmpeg_command(input, output_wav, AudioFormat::Wav);
    assert_eq!(wav_command[4], "pcm_s16le");

    let mp3_command = generate_ffmpeg_command(input, output_mp3, AudioFormat::Mp3);
    assert_eq!(mp3_command[4], "libmp3lame");
}

#[test]
fn ffmpeg_command_is_complete() {
    let cmd = ffmpeg_command("in.m4a", "out.mp3", AudioFormat::Mp3);
    assert_eq!(cmd, vec!["ffmpeg", "-i", "in.m4a", "-c:a", "libmp3lame", "-b:a", "320k", "out.mp3"]);
}

#[test]
fn format_names_and_codecs() {
    assert_eq!(AudioFormat::Flac.to_string(), "flac");
    assert_eq!(AudioFormat::Wav.name(), "wav");
    assert_eq!(AudioFormat::Mp3.name(), "mp3");
    assert_eq!(AudioFormat::Wav.codec(), "pcm_s16le");
}

#[test]
fn cover_art_type_from_magic_bytes() {
    assert_eq!(cover_mime(&[0xFF, 0xD8, 0x00]), CoverMime::Jpeg);
    assert_eq!(cover_mime(&[0x89, 0x50, 0x4E, 0x47]), CoverMime::Png);
    assert_eq!(cover_mime(&[0x47, 0x49]), CoverMime::Jpeg);
    assert_eq!(cover_mime(&[0x89]), CoverMime::Jpeg);
    assert_eq!(cover_mime(&[]), CoverMime::Jpeg);
}
