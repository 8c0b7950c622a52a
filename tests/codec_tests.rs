use media_compress::codec::{ffmpeg_args, ffmpeg_failure, ffmpeg_flags};

fn s(v: &str) -> String {
    v.to_string()
}

#[test]
fn mp3_gets_quality_flags() {
    let a = ffmpeg_args(&s("in.mp3.tmp"), &s("in.mp3"), &s("mp3"));
    assert_eq!(a, vec!["-i", "in.mp3.tmp", "in.mp3", "-qscale:a", "2", "-y"]);
}

#[test]
fn video_gets_h265_flags() {
    for e in ["mp4", "mkv", "mov", "avi"] {
        assert_eq!(ffmpeg_flags(&s(e)), vec!["-vcodec", "libx265", "-crf", "28"]);
    }
    assert_eq!(ffmpeg_flags(&s("flac")), vec!["-compression_level", "12"]);
}

#[test]
fn unlisted_extension_gets_no_flags() {
    assert!(ffmpeg_flags(&s("webm")).is_empty());
    assert!(ffmpeg_flags(&s("MP3")).is_empty());
    let a = ffmpeg_args(&s("a.ogg"), &s("a.opus"), &s("opus"));
    assert_eq!(a, vec!["-i", "a.ogg", "a.opus", "-y"]);
}

#[test]
fn failure_report_carries_both_streams() {
    assert_eq!(
        ffmpeg_failure("bad input", "nothing"),
        "Failed FFMPEG execution!\nStdErr: bad input\nStdOut: nothing"
    );
}
