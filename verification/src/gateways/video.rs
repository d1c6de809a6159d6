use vstd::prelude::*;
use vstd::string::*;

use crate::common::error::Error;
use crate::common::format::Format;
use crate::common::text::texts;

verus! {

/// The one directory that holds every scratch file of the video backend.
pub const DIRECTORY: &'static str = "/tmp/daochan";

/// The program that transcodes.
pub const TRANSCODER: &'static str = "ffmpeg";

/// The rules of the video backend: where scratch files live, how the
/// transcoder is invoked, what its exit means, and which scratch files are
/// due for removal. Running the transcoder and touching the disk is left to
/// the caller.
pub struct VideoImpl {}

/// Builds the video backend's rule set.
pub fn new() -> (backend: VideoImpl)
    ensures
        backend == (VideoImpl {}),
{
    VideoImpl {}
}

/// Where the scratch file called `file_name` lives for a given format.
pub open spec fn scratch_path(file_name: Seq<char>, format: Format) -> Seq<char> {
    DIRECTORY@ + "/"@ + file_name + "."@ + format.suffix()
}

/// The argument list of one transcoder run, in order: input, overwrite,
/// quiet logging, no audio, 16 frames per second, quality 23, slow preset,
/// H.264, fast start, 4:2:0 pixels, output.
pub open spec fn transcoder_arguments(input: Seq<char>, output: Seq<char>) -> Seq<Seq<char>> {
    seq![
        "-i"@,
        input,
        "-y"@,
        "-hide_banner"@,
        "-loglevel"@,
        "error"@,
        "-an"@,
        "-r"@,
        "16"@,
        "-crf"@,
        "23"@,
        "-preset"@,
        "slow"@,
        "-c:v"@,
        "libx264"@,
        "-movflags"@,
        "+faststart"@,
        "-pix_fmt"@,
        "yuv420p"@,
        output,
    ]
}

/// One planned transcoder run.
#[derive(Debug, Clone, PartialEq, Eq)]
pub struct TranscodeJob {
    pub input_path: String,
    pub output_path: String,
    pub arguments: Vec<String>,
}

/// The job that two scratch names and an input format determine. The output
/// is always MP4, whatever the input.
pub open spec fn planned_job(job: TranscodeJob, input_name: Seq<char>, output_name: Seq<char>, input_format: Format) -> bool {
    &&& job.input_path@ == scratch_path(input_name, input_format)
    &&& job.output_path@ == scratch_path(output_name, Format::Mp4)
    &&& texts(job.arguments@) == transcoder_arguments(job.input_path@, job.output_path@)
}

/// How a transcoder run ended.
#[derive(Debug, Clone, PartialEq, Eq)]
pub enum ProcessReport {
    /// The process could not be started.
    SpawnFailed(String),
    /// The process started, but waiting for it failed.
    WaitFailed(String),
    /// The process ended; `code` is absent when a signal ended it.
    Exited { success: bool, code: Option<i32> },
}

/// What one transcoder run amounts to, given whether the input could be
/// staged, how the process ended and whether its output could be read back.
pub open spec fn transcode_outcome(
    staged: Result<(), String>,
    report: ProcessReport,
    output: Result<Vec<u8>, String>,
) -> Result<(Vec<u8>, Format), Error> {
    match staged {
        Err(detail) => Err(Error::TranscodeSpawnFailed(detail)),
        Ok(_) => match report {
            ProcessReport::SpawnFailed(detail) => Err(Error::TranscodeSpawnFailed(detail)),
            ProcessReport::WaitFailed(_) => Err(Error::TranscodeProcessFailed(None)),
            ProcessReport::Exited { success, code } => if !success {
                Err(Error::TranscodeProcessFailed(code))
            } else {
                match output {
                    Ok(bytes) => Ok((bytes, Format::Mp4)),
                    Err(_) => Err(Error::TranscodeProcessFailed(code)),
                }
            },
        },
    }
}

/// A point in time: whole seconds since the epoch and the nanoseconds
/// beyond them.
#[derive(Debug, Clone, Copy, PartialEq, Eq, Structural)]
pub struct Timestamp {
    pub secs: u64,
    pub nanos: u32,
}

impl Timestamp {
    /// The point in time as one count of nanoseconds.
    pub open spec fn total_nanos(self) -> int {
        self.secs * 1_000_000_000 + self.nanos
    }
}

/// What a listing of the scratch directory says of one entry.
#[derive(Debug, Clone, PartialEq, Eq)]
pub enum ScratchEntry {
    /// The entry, or its metadata, could not be read.
    Unreadable(String),
    /// A regular file, with its modification time where the platform has one.
    File { path: String, modified: Option<Timestamp> },
    /// Anything that is not a regular file.
    Other,
}

/// What the sweep decides about one entry.
#[derive(Debug, Clone, Copy, PartialEq, Eq, Structural)]
pub enum Verdict {
    /// Leave it.
    Keep,
    /// Remove it.
    Remove,
    /// Stop the sweep: the entry cannot be judged.
    Fail,
}

/// A file is stale once strictly more than `stale_seconds` have passed
/// since it was last modified. A file modified at or after `now` is not.
pub open spec fn is_stale(now: Timestamp, modified: Timestamp, stale_seconds: u64) -> bool {
    now.total_nanos() - modified.total_nanos() > stale_seconds * 1_000_000_000
}

/// The sweep's decision about one entry. Only regular files with a known
/// modification time are ever removed, and only stale ones: a newer file,
/// also one modified after `now`, is kept. Only an entry that cannot be
/// read ends the pass.
pub open spec fn verdict_of(now: Timestamp, entry: ScratchEntry, stale_seconds: u64) -> Verdict {
    match entry {
        ScratchEntry::Unreadable(_) => Verdict::Fail,
        ScratchEntry::Other => Verdict::Keep,
        ScratchEntry::File { path, modified } => match modified {
            None => Verdict::Keep,
            Some(time) => if is_stale(now, time, stale_seconds) {
                Verdict::Remove
            } else {
                Verdict::Keep
            },
        },
    }
}

/// The paths among the first `n` entries that the sweep removes, in order.
pub open spec fn stale_paths(
    now: Timestamp,
    entries: Seq<ScratchEntry>,
    stale_seconds: u64,
    n: int,
) -> Seq<Seq<char>>
    decreases n,
{
    if n <= 0 {
        Seq::empty()
    } else {
        let earlier = stale_paths(now, entries, stale_seconds, n - 1);
        match entries[n - 1] {
            ScratchEntry::File { path, modified } => if verdict_of(
                now,
                entries[n - 1],
                stale_seconds,
            ) is Remove {
                earlier.push(path@)
            } else {
                earlier
            },
            _ => earlier,
        }
    }
}

/// What one pass over the scratch directory is to do.
#[derive(Debug, Clone, PartialEq, Eq)]
pub struct SweepPlan {
    /// How many entries were judged before the pass ended.
    pub examined: usize,
    /// The files to remove, in listing order.
    pub remove: Vec<String>,
    /// Why the pass ended early, if it did.
    pub failure: Option<Error>,
}

/// Whether a character may stand in a scratch name: a lowercase
/// hexadecimal digit or a hyphen.
pub open spec fn is_name_char(c: char) -> bool {
    let code = c as u32;
    (0x30 <= code <= 0x39) || (0x61 <= code <= 0x66) || code == 0x2d
}

/// The shape of every scratch name: 36 characters, each a lowercase
/// hexadecimal digit or a hyphen.
pub open spec fn is_scratch_name(name: Seq<char>) -> bool {
    name.len() == 36 && forall|i: int| 0 <= i < name.len() ==> is_name_char(#[trigger] name[i])
}

/// Calls `uuid::Uuid::new_v4` and formats the identifier as text.
///
/// Trusted: the identifier is random, and of every identifier the text is
/// the hyphenated form, 36 characters that are lowercase hexadecimal digits
/// or hyphens.
#[verifier::external_body]
fn fresh_name() -> (name: String)
    ensures
        is_scratch_name(name@),
{
    uuid::Uuid::new_v4().to_string()
}

impl VideoImpl {
    /// The path of the scratch file called `file_name`: the scratch
    /// directory, the name, a dot and the format's extension.
    pub fn get_path(&self, file_name: &str, format: Format) -> (path: String)
        ensures
            path@ == scratch_path(file_name@, format),
    {
        let extension = format.extension();
        String::from_str(DIRECTORY).concat("/").concat(file_name).concat(".").concat(
            extension.as_str(),
        )
    }

    /// The fixed argument list for transcoding `input_path` into `output_path`.
    pub fn arguments(&self, input_path: &str, output_path: &str) -> (args: Vec<String>)
        ensures
            texts(args@) == transcoder_arguments(input_path@, output_path@),
    {
        let mut args: Vec<String> = Vec::new();
        args.push(String::from_str("-i"));
        args.push(String::from_str(input_path));
        args.push(String::from_str("-y"));
        args.push(String::from_str("-hide_banner"));
        args.push(String::from_str("-loglevel"));
        args.push(String::from_str("error"));
        args.push(String::from_str("-an"));
        args.push(String::from_str("-r"));
        args.push(String::from_str("16"));
        args.push(String::from_str("-crf"));
        args.push(String::from_str("23"));
        args.push(String::from_str("-preset"));
        args.push(String::from_str("slow"));
        args.push(String::from_str("-c:v"));
        args.push(String::from_str("libx264"));
        args.push(String::from_str("-movflags"));
        args.push(String::from_str("+faststart"));
        args.push(String::from_str("-pix_fmt"));
        args.push(String::from_str("yuv420p"));
        args.push(String::from_str(output_path));
        assert(texts(args@) =~= transcoder_arguments(input_path@, output_path@));
        args
    }

    /// Plans the run that transcodes the scratch file `input_name` into the
    /// scratch file `output_name`.
    pub fn plan_named(&self, input_name: &str, output_name: &str, input_format: Format) -> (job:
        TranscodeJob)
        ensures
            planned_job(job, input_name@, output_name@, input_format),
    {
        let input_path = self.get_path(input_name, input_format);
        let output_path = self.get_path(output_name, Format::Mp4);
        let arguments = self.arguments(input_path.as_str(), output_path.as_str());
        TranscodeJob { input_path, output_path, arguments }
    }

    /// Plans one run under two freshly drawn scratch names, so that
    /// concurrent runs do not meet on a file. The names hold neither a
    /// slash nor a dot, so both files lie directly in the scratch directory.
    pub fn plan(&self, input_format: Format) -> (job: TranscodeJob)
        ensures
            exists|input_name: Seq<char>, output_name: Seq<char>|
                #![trigger planned_job(job, input_name, output_name, input_format)]
                {
                    &&& is_scratch_name(input_name)
                    &&& is_scratch_name(output_name)
                    &&& planned_job(job, input_name, output_name, input_format)
                },
    {
        let input_name = fresh_name();
        let output_name = fresh_name();
        let job = self.plan_named(input_name.as_str(), output_name.as_str(), input_format);
        assert(planned_job(job, input_name@, output_name@, input_format));
        job
    }

    /// Decides about one entry of the scratch directory: `Ok(true)` to
    /// remove it, `Ok(false)` to leave it, or the failure that ends the pass.
    pub fn judge(&self, now: Timestamp, entry: &ScratchEntry, stale_seconds: u64) -> (res: Result<
        bool,
        Error,
    >)
        ensures
            match verdict_of(now, *entry, stale_seconds) {
                Verdict::Keep => res == Ok::<bool, Error>(false),
                Verdict::Remove => res == Ok::<bool, Error>(true),
                Verdict::Fail => *entry matches ScratchEntry::Unreadable(detail) && res == Err::<
                    bool,
                    Error,
                >(Error::SweepIOFailed(detail)),
            },
    {
        match entry {
            ScratchEntry::Unreadable(detail) => Err(Error::SweepIOFailed(detail.clone())),
            ScratchEntry::Other => Ok(false),
            ScratchEntry::File { path, modified } => match modified {
                None => Ok(false),
                Some(time) => {
                    let now_nanos: u128 = now.secs as u128 * 1_000_000_000 + now.nanos as u128;
                    let then_nanos: u128 = time.secs as u128 * 1_000_000_000 + time.nanos as u128;
                    if then_nanos >= now_nanos {
                        Ok(false)
                    } else {
                        Ok(now_nanos - then_nanos > stale_seconds as u128 * 1_000_000_000)
                    }
                },
            },
        }
    }

    /// Plans one pass over a listing taken at `now`: judges the entries in
    /// order, collects the stale files for removal, and stops at the first
    /// entry that could not be read, with `SweepIOFailed` and that entry's
    /// complaint. Of a listing that was read in full, every stale file is
    /// to be removed, nothing else is, and the pass does not fail.
    pub fn sweep(&self, now: Timestamp, entries: &Vec<ScratchEntry>, stale_seconds: u64) -> (plan:
        SweepPlan)
        ensures
            plan.examined <= entries@.len(),
            forall|i: int|
                0 <= i < plan.examined ==> !(#[trigger] verdict_of(now, entries@[i], stale_seconds)
                    is Fail),
            texts(plan.remove@) == stale_paths(now, entries@, stale_seconds, plan.examined as int),
            plan.examined == entries@.len() ==> plan.failure is None,
            plan.examined < entries@.len() ==> (entries@[plan.examined as int] matches ScratchEntry::Unreadable(
                detail,
            ) && plan.failure == Some(Error::SweepIOFailed(detail))),
    {
        let mut remove: Vec<String> = Vec::new();
        let mut i: usize = 0;
        while i < entries.len()
            invariant
                i <= entries@.len(),
                forall|k: int|
                    0 <= k < i ==> !(#[trigger] verdict_of(now, entries@[k], stale_seconds)
                        is Fail),
                texts(remove@) == stale_paths(now, entries@, stale_seconds, i as int),
            decreases entries@.len() - i,
        {
            let entry = &entries[i];
            match self.judge(now, entry, stale_seconds) {
                Err(e) => {
                    return SweepPlan { examined: i, remove, failure: Some(e) };
                },
                Ok(stale) => {
                    if stale {
                        match entry {
                            ScratchEntry::File { path, modified } => {
                                remove.push(path.clone());
                            },
                            _ => {},
                        }
                    }
                },
            }
            i += 1;
            assert(texts(remove@) =~= stale_paths(now, entries@, stale_seconds, i as int));
        }
        SweepPlan { examined: i, remove, failure: None }
    }

    /// Judges the staging of the input: a scratch file that could not be
    /// written keeps the transcoder from starting.
    pub fn staged(&self, written: Result<(), String>) -> (res: Result<(), Error>)
        ensures
            match written {
                Ok(_) => res is Ok,
                Err(detail) => res == Err::<(), Error>(Error::TranscodeSpawnFailed(detail)),
            },
    {
        match written {
            Ok(_) => Ok(()),
            Err(detail) => Err(Error::TranscodeSpawnFailed(detail)),
        }
    }

    /// Judges how the process ended. Only an exit that reports success
    /// lets the run go on, and its exit code is handed back.
    pub fn exited(&self, report: ProcessReport) -> (res: Result<Option<i32>, Error>)
        ensures
            match report {
                ProcessReport::SpawnFailed(detail) => res == Err::<Option<i32>, Error>(
                    Error::TranscodeSpawnFailed(detail),
                ),
                ProcessReport::WaitFailed(_) => res == Err::<Option<i32>, Error>(
                    Error::TranscodeProcessFailed(None),
                ),
                ProcessReport::Exited { success, code } => if success {
                    res == Ok::<Option<i32>, Error>(code)
                } else {
                    res == Err::<Option<i32>, Error>(Error::TranscodeProcessFailed(code))
                },
            },
    {
        match report {
            ProcessReport::SpawnFailed(detail) => Err(Error::TranscodeSpawnFailed(detail)),
            ProcessReport::WaitFailed(_) => Err(Error::TranscodeProcessFailed(None)),
            ProcessReport::Exited { success, code } => if success {
                Ok(code)
            } else {
                Err(Error::TranscodeProcessFailed(code))
            },
        }
    }

    /// Judges the reading back of the output after an exit with `code`:
    /// the bytes are MP4, and output that cannot be read means that the
    /// process has failed after all.
    pub fn collected(&self, code: Option<i32>, output: Result<Vec<u8>, String>) -> (res: Result<
        (Vec<u8>, Format),
        Error,
    >)
        ensures
            match output {
                Ok(bytes) => res == Ok::<(Vec<u8>, Format), Error>((bytes, Format::Mp4)),
                Err(_) => res == Err::<(Vec<u8>, Format), Error>(
                    Error::TranscodeProcessFailed(code),
                ),
            },
    {
        match output {
            Ok(bytes) => Ok((bytes, Format::Mp4)),
            Err(_) => Err(Error::TranscodeProcessFailed(code)),
        }
    }

    /// Says what a whole run yields, from the three answers at once: the
    /// MP4 bytes, or the first failure.
    pub fn conclude(
        &self,
        staged: Result<(), String>,
        report: ProcessReport,
        output: Result<Vec<u8>, String>,
    ) -> (res: Result<(Vec<u8>, Format), Error>)
        ensures
            res == transcode_outcome(staged, report, output),
    {
        match self.staged(staged) {
            Err(e) => Err(e),
            Ok(_) => match self.exited(report) {
                Err(e) => Err(e),
                Ok(code) => self.collected(code, output),
            },
        }
    }
}

/// A scratch name holds no slash and no dot, so the path built from it has
/// the scratch directory as its parent and the format's extension as its
/// only extension.
pub proof fn lemma_scratch_names_are_plain(name: Seq<char>)
    requires
        is_scratch_name(name),
    ensures
        !name.contains('/'),
        !name.contains('.'),
{
    assert forall|i: int| 0 <= i < name.len() implies name[i] != '/' && name[i] != '.' by {
        assert(is_name_char(name[i]));
    }
}

/// The transcoder is invoked the same way whatever variant was asked for:
/// the argument list is fixed by the two paths alone, the paths by the
/// scratch names and the input format, and the output is always MP4.
pub proof fn lemma_transcoding_ignores_the_variant(
    first: TranscodeJob,
    second: TranscodeJob,
    input_name: Seq<char>,
    output_name: Seq<char>,
    input_format: Format,
)
    requires
        planned_job(first, input_name, output_name, input_format),
        planned_job(second, input_name, output_name, input_format),
    ensures
        first.input_path@ == second.input_path@,
        first.output_path@ == second.output_path@,
        texts(first.arguments@) == texts(second.arguments@),
        first.output_path@ == scratch_path(output_name, Format::Mp4),
{
}

/// A run that exits with success yields what was read back from its
/// output, as MP4, whatever the input format; every other run fails.
pub proof fn lemma_transcoding_yields_mp4(
    staged: Result<(), String>,
    report: ProcessReport,
    output: Result<Vec<u8>, String>,
)
    ensures
        transcode_outcome(staged, report, output) matches Ok((bytes, format)) ==> format
            == Format::Mp4 && output == Ok::<Vec<u8>, String>(bytes),
        transcode_outcome(staged, report, output) is Ok <==> (staged is Ok && output is Ok
            && report is Exited && report->success),
{
}

/// A pass removes exactly the stale files it reached: every entry judged
/// `Remove` among the first `n` has its path in the removal list, and every
/// path in that list belongs to such an entry. A file modified no more than
/// the threshold ago, also one dated after `now`, is judged `Keep` and so is
/// left untouched, as is everything that is not a regular file.
pub proof fn lemma_sweep_removes_exactly_the_stale(
    now: Timestamp,
    entries: Seq<ScratchEntry>,
    stale_seconds: u64,
    n: int,
)
    requires
        0 <= n <= entries.len(),
    ensures
        forall|i: int|
            0 <= i < n && (#[trigger] verdict_of(now, entries[i], stale_seconds)) is Remove
                ==> entries[i] is File && stale_paths(now, entries, stale_seconds, n).contains(
                entries[i]->path@,
            ),
        forall|i: int|
            0 <= i < n ==> ((#[trigger] verdict_of(now, entries[i], stale_seconds)) is Keep <==> (
            entries[i] is Other || (entries[i] matches ScratchEntry::File { modified, .. }
                && (modified matches Some(time) ==> now.total_nanos() - time.total_nanos()
                <= stale_seconds * 1_000_000_000)))),
        forall|p: Seq<char>| #[trigger]
            stale_paths(now, entries, stale_seconds, n).contains(p) ==> exists|i: int|
                0 <= i < n && entries[i] is File && entries[i]->path@ == p && verdict_of(
                    now,
                    entries[i],
                    stale_seconds,
                ) is Remove,
    decreases n,
{
    if n > 0 {
        lemma_sweep_removes_exactly_the_stale(now, entries, stale_seconds, n - 1);
        let earlier = stale_paths(now, entries, stale_seconds, n - 1);
        let all = stale_paths(now, entries, stale_seconds, n);
        assert forall|i: int|
            0 <= i < n && (#[trigger] verdict_of(now, entries[i], stale_seconds)) is Remove
            implies entries[i] is File && all.contains(entries[i]->path@) by {
            if i < n - 1 {
                let k = choose|k: int| 0 <= k < earlier.len() && earlier[k] == entries[i]->path@;
                assert(all[k] == entries[i]->path@);
            } else {
                assert(all[all.len() - 1] == entries[i]->path@);
            }
        }
        assert forall|p: Seq<char>| #[trigger] all.contains(p) implies exists|i: int|
            0 <= i < n && entries[i] is File && entries[i]->path@ == p && verdict_of(
                now,
                entries[i],
                stale_seconds,
            ) is Remove by {
            let k = choose|k: int| 0 <= k < all.len() && all[k] == p;
            if k < earlier.len() {
                assert(earlier[k] == p);
                assert(earlier.contains(p));
            } else {
                assert(entries[n - 1] is File && entries[n - 1]->path@ == p && verdict_of(
                    now,
                    entries[n - 1],
                    stale_seconds,
                ) is Remove);
            }
        }
    }
}

} // verus!
