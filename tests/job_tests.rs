use std::collections::HashSet;

use media_compress::index::index;
use media_compress::job::{jobs_for, CompressionOptions, Event, FileJob, Outcome, Role, Step};
use media_compress::media::{ExtensionMap, MediaType};

fn options(
    image: Option<Option<&str>>,
    audio: Option<Option<&str>>,
    video: Option<Option<&str>>,
    keep: bool,
) -> CompressionOptions {
    let conv = |o: Option<Option<&str>>| o.map(|e| e.map(|s| s.to_string()));
    CompressionOptions {
        image_ext: conv(image),
        audio_ext: conv(audio),
        video_ext: conv(video),
        keep_files: keep,
        quality: Some(80),
        threads: 2,
    }
}

/// Drives a job against a set of existing paths; the codec writes the output
/// where `codec_ok` holds.
fn drive(job: &mut FileJob, fs: &mut HashSet<String>, codec_ok: bool) -> (Outcome, Vec<Step>) {
    let mut e = Event::Begin;
    let mut steps = Vec::new();
    loop {
        let step = job.next(e);
        steps.push(step);
        e = match step {
            Step::Rename(a, b) => {
                let from = job.path(a).clone();
                if fs.remove(&from) {
                    fs.insert(job.path(b).clone());
                    Event::Succeeded
                } else {
                    Event::Failed
                }
            }
            Step::CheckExists(r) => {
                if fs.contains(job.path(r)) {
                    Event::Present
                } else {
                    Event::Absent
                }
            }
            Step::Compress => {
                if codec_ok && fs.contains(job.input()) {
                    fs.insert(job.output.clone());
                    Event::Succeeded
                } else {
                    Event::Failed
                }
            }
            Step::Remove(r) => {
                if fs.remove(job.path(r)) {
                    Event::Succeeded
                } else {
                    Event::Failed
                }
            }
            Step::Finish(o) => return (o, steps),
        };
    }
}

fn set(names: &[&str]) -> HashSet<String> {
    names.iter().map(|s| s.to_string()).collect()
}

fn job(t: MediaType, source: &str, o: &CompressionOptions) -> FileJob {
    match FileJob::new(t, &source.to_string(), o) {
        Ok(j) => j,
        Err(e) => panic!("no job: {:?}", e),
    }
}

#[test]
fn unconfigured_media_type_is_skipped() {
    let o = options(Some(Some("webp")), None, None, false);
    assert!(matches!(
        FileJob::new(MediaType::Audio, &"b.mp3".to_string(), &o),
        Err(Outcome::NotConfigured)
    ));
    assert!(matches!(
        FileJob::new(MediaType::Video, &"v.mp4".to_string(), &o),
        Err(Outcome::NotConfigured)
    ));
}

#[test]
fn kept_extension_needs_one() {
    let o = options(Some(None), None, None, false);
    assert!(matches!(
        FileJob::new(MediaType::Image, &"d/noext".to_string(), &o),
        Err(Outcome::NoExtension)
    ));
}

#[test]
fn job_names() {
    let o = options(Some(Some("webp")), Some(None), None, false);
    let a = job(MediaType::Image, "d/a.png", &o);
    assert_eq!(a.output, "d/a.webp");
    assert_eq!(a.output_ext, "webp");
    assert!(!a.overwritten);
    assert_eq!(a.input(), "d/a.png");
    let b = job(MediaType::Audio, "d/b.mp3", &o);
    assert_eq!(b.output, "d/b.mp3");
    assert!(b.overwritten);
    assert_eq!(b.temporary, "d/b.mp3.tmp");
    assert_eq!(b.backup, "d/b.mp3.backup");
    assert_eq!(b.input(), "d/b.mp3.tmp");
    assert_eq!(b.path(Role::Source), "d/b.mp3");
}

#[test]
fn kept_extension_is_lowercased() {
    let o = options(None, Some(None), None, false);
    let b = job(MediaType::Audio, "d/B.MP3", &o);
    assert_eq!(b.output_ext, "mp3");
    assert_eq!(b.output, "d/B.mp3");
    assert!(!b.overwritten);
}

#[test]
fn override_extension_is_verbatim() {
    let o = options(Some(Some("WEBP")), None, None, false);
    let a = job(MediaType::Image, "a.png", &o);
    assert_eq!(a.output, "a.WEBP");
}

#[test]
fn in_place_without_keep_replaces_original() {
    let o = options(None, Some(None), None, false);
    let mut b = job(MediaType::Audio, "b.mp3", &o);
    let mut fs = set(&["b.mp3"]);
    let (out, steps) = drive(&mut b, &mut fs, true);
    assert_eq!(out, Outcome::Compressed);
    assert_eq!(
        steps,
        vec![
            Step::Rename(Role::Source, Role::Temporary),
            Step::CheckExists(Role::Output),
            Step::Compress,
            Step::Remove(Role::Temporary),
            Step::Finish(Outcome::Compressed),
        ]
    );
    assert_eq!(fs, set(&["b.mp3"]));
}

#[test]
fn in_place_with_keep_leaves_backup() {
    let o = options(None, Some(None), None, true);
    let mut b = job(MediaType::Audio, "b.mp3", &o);
    let mut fs = set(&["b.mp3"]);
    let (out, _) = drive(&mut b, &mut fs, true);
    assert_eq!(out, Outcome::Compressed);
    assert_eq!(fs, set(&["b.mp3", "b.mp3.backup"]));
}

#[test]
fn conversion_with_keep_leaves_original() {
    let o = options(Some(Some("webp")), None, None, true);
    let mut a = job(MediaType::Image, "a.png", &o);
    let mut fs = set(&["a.png"]);
    let (out, _) = drive(&mut a, &mut fs, true);
    assert_eq!(out, Outcome::Compressed);
    assert_eq!(fs, set(&["a.png", "a.webp"]));
}

#[test]
fn running_twice_in_place_changes_nothing() {
    let o = options(Some(None), None, None, false);
    let mut fs = set(&["p.jpg", "q.png"]);
    for _ in 0..2 {
        let mut j = job(MediaType::Image, "p.jpg", &o);
        let (out, _) = drive(&mut j, &mut fs, true);
        assert_eq!(out, Outcome::Compressed);
        assert_eq!(fs, set(&["p.jpg", "q.png"]));
    }
}

#[test]
fn existing_output_is_not_overwritten() {
    let o = options(Some(Some("png")), None, None, false);
    let mut j = job(MediaType::Image, "photo.jpg", &o);
    let mut fs = set(&["photo.jpg", "photo.png"]);
    let (out, steps) = drive(&mut j, &mut fs, true);
    assert_eq!(out, Outcome::OutputExists);
    assert_eq!(
        steps,
        vec![Step::CheckExists(Role::Output), Step::Finish(Outcome::OutputExists)]
    );
    assert_eq!(fs, set(&["photo.jpg", "photo.png"]));
}

#[test]
fn codec_failure_leaves_temporary() {
    let o = options(Some(None), Some(None), None, false);
    let mut a = job(MediaType::Image, "a.png", &o);
    let mut b = job(MediaType::Audio, "b.mp3", &o);
    let mut fs = set(&["a.png", "b.mp3"]);
    let (out_a, _) = drive(&mut a, &mut fs, false);
    assert_eq!(out_a, Outcome::CodecFailed);
    let (out_b, _) = drive(&mut b, &mut fs, true);
    assert_eq!(out_b, Outcome::Compressed);
    assert_eq!(fs, set(&["a.png.tmp", "b.mp3"]));
}

#[test]
fn filesystem_failures_are_outcomes() {
    let o = options(Some(None), None, None, false);
    let mut a = job(MediaType::Image, "a.png", &o);
    let mut fs = set(&[]);
    let (out, _) = drive(&mut a, &mut fs, true);
    assert_eq!(out, Outcome::MoveFailed);
    let mut c = job(MediaType::Image, "c.png", &o);
    assert_eq!(c.next(Event::Begin), Step::Rename(Role::Source, Role::Temporary));
    assert_eq!(c.next(Event::Succeeded), Step::CheckExists(Role::Output));
    assert_eq!(c.next(Event::Absent), Step::Compress);
    assert_eq!(c.next(Event::Succeeded), Step::Remove(Role::Temporary));
    assert_eq!(c.next(Event::Failed), Step::Finish(Outcome::CleanupFailed));
    assert_eq!(c.next(Event::Begin), Step::Finish(Outcome::CleanupFailed));
}

#[test]
fn three_file_scenario() {
    let m = ExtensionMap::standard();
    let files: Vec<String> = ["d/a.png", "d/b.mp3", "d/c.txt"].iter().map(|s| s.to_string()).collect();
    let idx = index(&files, &m);
    assert_eq!(idx.len(), 2);
    assert_eq!((idx[0].path.as_str(), idx[0].media_type), ("d/a.png", MediaType::Image));
    assert_eq!((idx[1].path.as_str(), idx[1].media_type), ("d/b.mp3", MediaType::Audio));
    let o = options(Some(Some("webp")), Some(None), None, false);
    let jobs = jobs_for(&idx, &o);
    assert_eq!(jobs.len(), 2);
    let mut fs = set(&["d/a.png", "d/b.mp3", "d/c.txt"]);
    let mut b_steps = Vec::new();
    for j in jobs {
        let mut j = j.unwrap();
        let (out, steps) = drive(&mut j, &mut fs, true);
        assert_eq!(out, Outcome::Compressed);
        if j.media_type == MediaType::Audio {
            b_steps = steps;
        }
    }
    assert_eq!(fs, set(&["d/a.webp", "d/b.mp3", "d/c.txt"]));
    assert_eq!(
        b_steps,
        vec![
            Step::Rename(Role::Source, Role::Temporary),
            Step::CheckExists(Role::Output),
            Step::Compress,
            Step::Remove(Role::Temporary),
            Step::Finish(Outcome::Compressed),
        ]
    );
}
