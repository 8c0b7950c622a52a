use vstd::prelude::*;
use crate::index::MediaIndex;
use crate::media::{MediaType, lower_of, lowercase};
use crate::path::{extension, extension_of, replace_ext, with_extension};

verus! {

/// What the tool is asked to do with each media type, and how.
pub struct CompressionOptions {
    /// `None`: images are left alone; `Some(None)`: recompressed under their
    /// own extension; `Some(Some(e))`: converted to extension `e`.
    pub image_ext: Option<Option<String>>,
    /// The same for audio files.
    pub audio_ext: Option<Option<String>>,
    /// The same for video files.
    pub video_ext: Option<Option<String>>,
    /// Keep the originals; an original replaced in place is kept as a backup.
    pub keep_files: bool,
    /// Image compression quality.
    pub quality: Option<u16>,
    /// Number of workers.
    pub threads: u64,
}

/// The configured target of a media type.
pub open spec fn target_of(o: CompressionOptions, t: MediaType) -> Option<Option<String>> {
    match t {
        MediaType::Image => o.image_ext,
        MediaType::Audio => o.audio_ext,
        MediaType::Video => o.video_ext,
    }
}

/// The extension of the output: the configured one verbatim, or else the
/// source's own, lowercased.
pub open spec fn output_ext_of(target: Option<String>, source: Seq<char>) -> Option<Seq<char>> {
    match target {
        Some(e) => Some(e@),
        None => match extension_of(source) {
            Some(x) => Some(lower_of(x)),
            None => None,
        },
    }
}

/// The name under which a source replaced in place is set aside.
pub open spec fn temporary_of(source: Seq<char>) -> Seq<char> {
    source + seq!['.', 't', 'm', 'p']
}

/// The name under which a source replaced in place is kept.
pub open spec fn backup_of(source: Seq<char>) -> Seq<char> {
    source + seq!['.', 'b', 'a', 'c', 'k', 'u', 'p']
}

/// How the handling of one file ended.
#[derive(Clone, Copy, Debug, PartialEq, Eq, Structural)]
pub enum Outcome {
    /// No target is configured for the file's media type.
    NotConfigured,
    /// The output would keep the source's extension, and the source has none.
    NoExtension,
    /// A file already stands at the output path; nothing was written.
    OutputExists,
    /// The output was written and the retention rule applied.
    Compressed,
    /// The codec failed; a source set aside stays under its temporary name.
    CodecFailed,
    /// The source could not be set aside.
    MoveFailed,
    /// The output was written, but the input could not be removed or backed up.
    CleanupFailed,
}

/// The files that a job names.
#[derive(Clone, Copy, Debug, PartialEq, Eq, Structural)]
pub enum Role {
    Source,
    Temporary,
    Output,
    Backup,
}

/// Where a job stands.
#[derive(Clone, Copy, Debug, PartialEq, Eq, Structural)]
pub enum Stage {
    Start,
    MovingAside,
    Checking,
    Compressing,
    Retaining,
    Finished(Outcome),
}

/// What the caller reports of the step it performed last.
#[derive(Clone, Copy, Debug, PartialEq, Eq, Structural)]
pub enum Event {
    /// No step was performed yet.
    Begin,
    /// The rename, removal or compression succeeded.
    Succeeded,
    /// The rename, removal or compression failed.
    Failed,
    /// The checked path exists.
    Present,
    /// The checked path does not exist.
    Absent,
}

/// The next thing the caller is to do for a job.
#[derive(Clone, Copy, Debug, PartialEq, Eq, Structural)]
pub enum Step {
    /// Rename the first file to the second.
    Rename(Role, Role),
    /// Report whether the file exists.
    CheckExists(Role),
    /// Run the codec of the media type from the input to the output.
    Compress,
    /// Delete the file.
    Remove(Role),
    /// Nothing more to do.
    Finish(Outcome),
}

/// The file that the codec reads.
pub open spec fn input_role(overwritten: bool) -> Role {
    if overwritten {
        Role::Temporary
    } else {
        Role::Source
    }
}

/// The protocol of one file: from a stage and the report of the last step, the
/// next stage and the step to perform.
pub open spec fn transition(stage: Stage, e: Event, overwritten: bool, keep: bool) -> (Stage, Step) {
    match stage {
        Stage::Start => if overwritten {
            (Stage::MovingAside, Step::Rename(Role::Source, Role::Temporary))
        } else {
            (Stage::Checking, Step::CheckExists(Role::Output))
        },
        Stage::MovingAside => if e == Event::Succeeded {
            (Stage::Checking, Step::CheckExists(Role::Output))
        } else {
            (Stage::Finished(Outcome::MoveFailed), Step::Finish(Outcome::MoveFailed))
        },
        Stage::Checking => if e == Event::Absent {
            (Stage::Compressing, Step::Compress)
        } else {
            (Stage::Finished(Outcome::OutputExists), Step::Finish(Outcome::OutputExists))
        },
        Stage::Compressing => if e != Event::Succeeded {
            (Stage::Finished(Outcome::CodecFailed), Step::Finish(Outcome::CodecFailed))
        } else if !keep {
            (Stage::Retaining, Step::Remove(input_role(overwritten)))
        } else if overwritten {
            (Stage::Retaining, Step::Rename(Role::Temporary, Role::Backup))
        } else {
            (Stage::Finished(Outcome::Compressed), Step::Finish(Outcome::Compressed))
        },
        Stage::Retaining => if e == Event::Succeeded {
            (Stage::Finished(Outcome::Compressed), Step::Finish(Outcome::Compressed))
        } else {
            (Stage::Finished(Outcome::CleanupFailed), Step::Finish(Outcome::CleanupFailed))
        },
        Stage::Finished(o) => (Stage::Finished(o), Step::Finish(o)),
    }
}

/// `r` is what a job for `source` of type `media_type` under `o` starts as:
/// a skip where no target is configured or no output extension can be had,
/// else a fresh job toward the output extension.
pub open spec fn job_made(
    media_type: MediaType,
    source: Seq<char>,
    o: CompressionOptions,
    r: Result<FileJob, Outcome>,
) -> bool {
    match target_of(o, media_type) {
        None => r == Err::<FileJob, Outcome>(Outcome::NotConfigured),
        Some(t) => match output_ext_of(t, source) {
            None => r == Err::<FileJob, Outcome>(Outcome::NoExtension),
            Some(e) => r matches Ok(j) && j.wf() && j.media_type == media_type && j.source@
                == source && j.output_ext@ == e && j.keep_files == o.keep_files && j.quality
                == o.quality && j.stage == Stage::Start,
        },
    }
}

/// One job for each entry of an index, in its order.
pub fn jobs_for(index: &Vec<MediaIndex>, options: &CompressionOptions) -> (r: Vec<
    Result<FileJob, Outcome>,
>)
    ensures
        r@.len() == index@.len(),
        forall|i: int|
            0 <= i < index@.len() ==> job_made(
                index@[i].media_type,
                index@[i].path@,
                *options,
                #[trigger] r@[i],
            ),
{
    let mut r: Vec<Result<FileJob, Outcome>> = Vec::new();
    let mut i: usize = 0;
    while i < index.len()
        invariant
            i <= index@.len(),
            r@.len() == i,
            forall|j: int|
                0 <= j < i ==> job_made(index@[j].media_type, index@[j].path@, *options, #[trigger] r@[j]),
        decreases index@.len() - i,
    {
        r.push(FileJob::new(index[i].media_type, &index[i].path, options));
        i = i + 1;
    }
    r
}

/// The work on one file of the index.
pub struct FileJob {
    pub media_type: MediaType,
    pub source: String,
    pub temporary: String,
    pub backup: String,
    pub output: String,
    pub output_ext: String,
    /// The output replaces the source at the same path.
    pub overwritten: bool,
    pub keep_files: bool,
    pub quality: Option<u16>,
    pub stage: Stage,
}

impl FileJob {
    /// The names of a job are those of its source and output extension.
    pub open spec fn wf(&self) -> bool {
        &&& self.temporary@ == temporary_of(self.source@)
        &&& self.backup@ == backup_of(self.source@)
        &&& self.output@ == replace_ext(self.source@, self.output_ext@)
        &&& self.overwritten == (self.output@ == self.source@)
    }

    /// The path of the file that plays `role`.
    pub open spec fn path_of(&self, role: Role) -> Seq<char> {
        match role {
            Role::Source => self.source@,
            Role::Temporary => self.temporary@,
            Role::Output => self.output@,
            Role::Backup => self.backup@,
        }
    }

    /// The job for `source`, of media type `media_type`, under `options`; or,
    /// where there is nothing to do, why.
    pub fn new(media_type: MediaType, source: &String, options: &CompressionOptions) -> (r: Result<
        FileJob,
        Outcome,
    >)
        ensures
            job_made(media_type, source@, *options, r),
    {
        let target = match media_type {
            MediaType::Image => &options.image_ext,
            MediaType::Audio => &options.audio_ext,
            MediaType::Video => &options.video_ext,
        };
        let output_ext = match target {
            None => { return Err(Outcome::NotConfigured); },
            Some(Some(e)) => e.clone(),
            Some(None) => match extension(source.as_str()) {
                Some(x) => lowercase(x.as_str()),
                None => { return Err(Outcome::NoExtension); },
            },
        };
        let output = with_extension(source.as_str(), output_ext.as_str());
        let mut temporary = source.clone();
        temporary.append(".tmp");
        let mut backup = source.clone();
        backup.append(".backup");
        proof {
            reveal_strlit(".tmp");
            reveal_strlit(".backup");
            assert(temporary@ =~= temporary_of(source@));
            assert(backup@ =~= backup_of(source@));
        }
        let overwritten = output == *source;
        Ok(FileJob {
            media_type,
            source: source.clone(),
            temporary,
            backup,
            output,
            output_ext,
            overwritten,
            keep_files: options.keep_files,
            quality: options.quality,
            stage: Stage::Start,
        })
    }

    /// The path of the file that plays `role`.
    pub fn path(&self, role: Role) -> (r: &String)
        ensures
            r@ == self.path_of(role),
    {
        match role {
            Role::Source => &self.source,
            Role::Temporary => &self.temporary,
            Role::Output => &self.output,
            Role::Backup => &self.backup,
        }
    }

    /// The path that the codec reads.
    pub fn input(&self) -> (r: &String)
        ensures
            r@ == self.path_of(input_role(self.overwritten)),
    {
        if self.overwritten {
            &self.temporary
        } else {
            &self.source
        }
    }

    /// Takes the report `e` of the last step and gives the next step.
    pub fn next(&mut self, e: Event) -> (r: Step)
        ensures
            (final(self).stage, r) == transition(
                old(self).stage,
                e,
                old(self).overwritten,
                old(self).keep_files,
            ),
            final(self).media_type == old(self).media_type,
            final(self).source == old(self).source,
            final(self).temporary == old(self).temporary,
            final(self).backup == old(self).backup,
            final(self).output == old(self).output,
            final(self).output_ext == old(self).output_ext,
            final(self).overwritten == old(self).overwritten,
            final(self).keep_files == old(self).keep_files,
            final(self).quality == old(self).quality,
    {
        let (stage, step) = match self.stage {
            Stage::Start => if self.overwritten {
                (Stage::MovingAside, Step::Rename(Role::Source, Role::Temporary))
            } else {
                (Stage::Checking, Step::CheckExists(Role::Output))
            },
            Stage::MovingAside => if e == Event::Succeeded {
                (Stage::Checking, Step::CheckExists(Role::Output))
            } else {
                (Stage::Finished(Outcome::MoveFailed), Step::Finish(Outcome::MoveFailed))
            },
            Stage::Checking => if e == Event::Absent {
                (Stage::Compressing, Step::Compress)
            } else {
                (Stage::Finished(Outcome::OutputExists), Step::Finish(Outcome::OutputExists))
            },
            Stage::Compressing => if e != Event::Succeeded {
                (Stage::Finished(Outcome::CodecFailed), Step::Finish(Outcome::CodecFailed))
            } else if !self.keep_files {
                let input = if self.overwritten {
                    Role::Temporary
                } else {
                    Role::Source
                };
                (Stage::Retaining, Step::Remove(input))
            } else if self.overwritten {
                (Stage::Retaining, Step::Rename(Role::Temporary, Role::Backup))
            } else {
                (Stage::Finished(Outcome::Compressed), Step::Finish(Outcome::Compressed))
            },
            Stage::Retaining => if e == Event::Succeeded {
                (Stage::Finished(Outcome::Compressed), Step::Finish(Outcome::Compressed))
            } else {
                (Stage::Finished(Outcome::CleanupFailed), Step::Finish(Outcome::CleanupFailed))
            },
            Stage::Finished(o) => (Stage::Finished(o), Step::Finish(o)),
        };
        self.stage = stage;
        step
    }
}

/// What performing `step` does to the set `fs` of paths that exist, and what
/// is reported of it; `codec_ok` tells whether the codec succeeds.
pub open spec fn perform(job: FileJob, fs: Set<Seq<char>>, step: Step, codec_ok: bool) -> (
    Set<Seq<char>>,
    Event,
) {
    match step {
        Step::Rename(a, b) => if fs.contains(job.path_of(a)) {
            (fs.remove(job.path_of(a)).insert(job.path_of(b)), Event::Succeeded)
        } else {
            (fs, Event::Failed)
        },
        Step::CheckExists(r) => if fs.contains(job.path_of(r)) {
            (fs, Event::Present)
        } else {
            (fs, Event::Absent)
        },
        Step::Compress => if codec_ok && fs.contains(job.path_of(input_role(job.overwritten))) {
            (fs.insert(job.output@), Event::Succeeded)
        } else {
            (fs, Event::Failed)
        },
        Step::Remove(r) => if fs.contains(job.path_of(r)) {
            (fs.remove(job.path_of(r)), Event::Succeeded)
        } else {
            (fs, Event::Failed)
        },
        Step::Finish(_) => (fs, Event::Begin),
    }
}

/// The paths that exist and the outcome once a job has been driven from
/// `stage` and the report `e` until it finishes, if it does within `fuel` steps.
pub open spec fn run(
    job: FileJob,
    stage: Stage,
    e: Event,
    fs: Set<Seq<char>>,
    codec_ok: bool,
    fuel: nat,
) -> Option<(Set<Seq<char>>, Outcome)>
    decreases fuel,
{
    let (next_stage, step) = transition(stage, e, job.overwritten, job.keep_files);
    match step {
        Step::Finish(o) => Some((fs, o)),
        _ => if fuel == 0 {
            None
        } else {
            let (fs2, e2) = perform(job, fs, step, codec_ok);
            run(job, next_stage, e2, fs2, codec_ok, (fuel - 1) as nat)
        },
    }
}

/// A whole job, driven from its start.
pub open spec fn run_job(job: FileJob, fs: Set<Seq<char>>, codec_ok: bool) -> Option<
    (Set<Seq<char>>, Outcome),
> {
    run(job, Stage::Start, Event::Begin, fs, codec_ok, 5)
}

/// Every job finishes within its five steps.
pub proof fn law_job_finishes(job: FileJob, fs: Set<Seq<char>>, codec_ok: bool)
    ensures
        run_job(job, fs, codec_ok) is Some,
{
    reveal_with_fuel(run, 6);
}

/// The paths that a job may touch.
pub open spec fn touches(job: FileJob, q: Seq<char>) -> bool {
    q == job.source@ || q == job.temporary@ || q == job.output@ || q == job.backup@
}

proof fn lemma_names_distinct(job: FileJob)
    requires
        job.wf(),
    ensures
        job.temporary@ != job.source@,
        job.backup@ != job.source@,
        job.backup@ != job.temporary@,
{
    assert(job.temporary@.len() == job.source@.len() + 4);
    assert(job.backup@.len() == job.source@.len() + 7);
}

/// A file replaced in place is never lost: where the codec succeeds the new
/// file stands at the source's path, and the original is either removed or,
/// where originals are kept, kept as a backup; where the codec fails the
/// original stays under its temporary name.
pub proof fn law_in_place_keeps_data(job: FileJob, fs: Set<Seq<char>>, codec_ok: bool)
    requires
        job.wf(),
        job.overwritten,
        fs.contains(job.source@),
    ensures
        run_job(job, fs, codec_ok) matches Some((after, o)) && if codec_ok {
            &&& o == Outcome::Compressed
            &&& after.contains(job.output@)
            &&& job.keep_files ==> after.contains(job.backup@)
            &&& !job.keep_files ==> !after.contains(job.temporary@)
        } else {
            o == Outcome::CodecFailed && after.contains(job.temporary@)
        },
{
    reveal_with_fuel(run, 6);
    lemma_names_distinct(job);
    let fs1 = fs.remove(job.source@).insert(job.temporary@);
    assert(!fs1.contains(job.output@));
    assert(fs1.contains(job.temporary@));
    if codec_ok {
        let fs2 = fs1.insert(job.output@);
        assert(fs2.contains(job.temporary@));
        if job.keep_files {
            assert(fs2.remove(job.temporary@).insert(job.backup@).contains(job.output@));
        } else {
            assert(fs2.remove(job.temporary@).contains(job.output@));
        }
    }
}

/// Recompressing in place without keeping originals leaves the same paths on
/// disk, so a second run finds what the first left and does the same again.
pub proof fn law_in_place_idempotent(job: FileJob, fs: Set<Seq<char>>)
    requires
        job.wf(),
        job.overwritten,
        !job.keep_files,
        fs.contains(job.source@),
        !fs.contains(job.temporary@),
    ensures
        run_job(job, fs, true) == Some((fs, Outcome::Compressed)),
        run_job(job, fs, true) matches Some((after, _)) && run_job(job, after, true) == Some(
            (after, Outcome::Compressed),
        ),
{
    reveal_with_fuel(run, 6);
    lemma_names_distinct(job);
    let fs1 = fs.remove(job.source@).insert(job.temporary@);
    let fs2 = fs1.insert(job.output@);
    assert(fs2.remove(job.temporary@) =~= fs);
}

/// A file that already stands at a distinct output path is never overwritten:
/// the job is skipped and nothing changes on disk.
pub proof fn law_existing_output_untouched(job: FileJob, fs: Set<Seq<char>>, codec_ok: bool)
    requires
        job.wf(),
        !job.overwritten,
        fs.contains(job.output@),
    ensures
        run_job(job, fs, codec_ok) == Some((fs, Outcome::OutputExists)),
{
    reveal_with_fuel(run, 3);
}

proof fn lemma_run_local(
    job: FileJob,
    stage: Stage,
    e: Event,
    fs: Set<Seq<char>>,
    codec_ok: bool,
    fuel: nat,
    q: Seq<char>,
)
    requires
        !touches(job, q),
    ensures
        run(job, stage, e, fs, codec_ok, fuel) matches Some((after, _)) ==> after.contains(q)
            == fs.contains(q),
    decreases fuel,
{
    let (next_stage, step) = transition(stage, e, job.overwritten, job.keep_files);
    if fuel > 0 {
        let (fs2, e2) = perform(job, fs, step, codec_ok);
        assert(fs2.contains(q) == fs.contains(q));
        lemma_run_local(job, next_stage, e2, fs2, codec_ok, (fuel - 1) as nat, q);
    }
}

proof fn lemma_run_depends_on_own_paths(
    job: FileJob,
    stage: Stage,
    e: Event,
    fs: Set<Seq<char>>,
    gs: Set<Seq<char>>,
    codec_ok: bool,
    fuel: nat,
)
    requires
        forall|q: Seq<char>| touches(job, q) ==> (fs.contains(q) == gs.contains(q)),
    ensures
        (run(job, stage, e, fs, codec_ok, fuel) is Some) == (run(
            job,
            stage,
            e,
            gs,
            codec_ok,
            fuel,
        ) is Some),
        run(job, stage, e, fs, codec_ok, fuel) matches Some((a, o)) ==> run(
            job,
            stage,
            e,
            gs,
            codec_ok,
            fuel,
        ) matches Some((b, p)) && o == p && forall|q: Seq<char>|
            touches(job, q) ==> (a.contains(q) == b.contains(q)),
    decreases fuel,
{
    let (next_stage, step) = transition(stage, e, job.overwritten, job.keep_files);
    if fuel > 0 {
        let (fs2, e2) = perform(job, fs, step, codec_ok);
        let (gs2, f2) = perform(job, gs, step, codec_ok);
        assert(e2 == f2);
        assert forall|q: Seq<char>| touches(job, q) implies (fs2.contains(q) == gs2.contains(q)) by {
        }
        lemma_run_depends_on_own_paths(job, next_stage, e2, fs2, gs2, codec_ok, (fuel - 1) as nat);
    }
}

/// Jobs are isolated from each other: a job changes no path but its own, and
/// its outcome depends on its own paths alone. So when the first of two jobs
/// with distinct paths fails or succeeds, the second runs as it would alone.
pub proof fn law_jobs_isolated(
    first: FileJob,
    second: FileJob,
    fs: Set<Seq<char>>,
    first_ok: bool,
    second_ok: bool,
)
    requires
        forall|q: Seq<char>| touches(first, q) ==> !touches(second, q),
    ensures
        run_job(first, fs, first_ok) matches Some((after, _)) && (run_job(
            second,
            after,
            second_ok,
        ) is Some) == (run_job(second, fs, second_ok) is Some) && (run_job(
            second,
            after,
            second_ok,
        ) matches Some((_, o)) ==> run_job(second, fs, second_ok) matches Some((_, p)) && o == p),
        forall|q: Seq<char>|
            !touches(first, q) ==> (run_job(first, fs, first_ok) matches Some((after, _))
                && after.contains(q) == fs.contains(q)),
{
    law_job_finishes(first, fs, first_ok);
    let after = run_job(first, fs, first_ok).unwrap().0;
    assert forall|q: Seq<char>| !touches(first, q) implies (run_job(first, fs, first_ok) matches Some((a, _))
        && a.contains(q) == fs.contains(q)) by {
        lemma_run_local(first, Stage::Start, Event::Begin, fs, first_ok, 5, q);
    }
    assert forall|q: Seq<char>| touches(second, q) implies (after.contains(q) == fs.contains(q)) by {
        lemma_run_local(first, Stage::Start, Event::Begin, fs, first_ok, 5, q);
    }
    lemma_run_depends_on_own_paths(second, Stage::Start, Event::Begin, after, fs, second_ok, 5);
}

} // verus!
