//! The download of one catalog entry as tagged audio.
//!
//! A job runs nothing itself. Each call tells what has happened and hands
//! back the steps to take next: states to send to the consumer, the tool to
//! run, the file to tag, the time to let pass. Whoever drives the job takes
//! the steps in order and reports back.

use crate::extract::{file_path, find_filepath, has_marker};
use crate::paths::{parent_of, path_parent};
use crate::text::{text_of, text_of_str};
use vstd::prelude::*;

verus! {

/// How long an intermediate state stays visible before the terminal state
/// follows, in seconds, unless a job is told otherwise. The pause is there
/// for consumers that poll; nothing else rests on it.
pub const SETTLE_SECONDS: u64 = 5;

/// How the download tool ended.
#[derive(Debug, Clone, Copy, PartialEq, Eq)]
pub enum ToolResult {
    Success,
    IoError,
    Failure,
}

/// What the consumer is told of a job.
#[derive(Debug, Clone, PartialEq, Eq)]
pub enum TransferState {
    /// The job was taken on and the tool is running.
    Running,
    /// The tool ended well.
    Success,
    /// The tool reported a failure.
    ErrDownload,
    /// The job is over; the path of the audio file where it was recovered.
    Completed(Option<String>),
}

/// What a state holds.
pub enum StateModel {
    Running,
    Success,
    ErrDownload,
    Completed(Option<Seq<char>>),
}

impl View for TransferState {
    type V = StateModel;

    open spec fn view(&self) -> StateModel {
        match *self {
            TransferState::Running => StateModel::Running,
            TransferState::Success => StateModel::Success,
            TransferState::ErrDownload => StateModel::ErrDownload,
            TransferState::Completed(path) => StateModel::Completed(text_of(path)),
        }
    }
}

/// One thing for the driver of a job to do.
#[derive(Debug, Clone, PartialEq, Eq)]
pub enum JobStep {
    /// Send the state to the consumer.
    Emit(TransferState),
    /// Run the download tool and wait until it ends.
    RunTool,
    /// Tag the audio file at the path.
    Tag(String),
    /// Let this many seconds pass.
    Settle(u64),
}

/// What a step holds.
pub enum StepModel {
    Emit(StateModel),
    RunTool,
    Tag(Seq<char>),
    Settle(u64),
}

impl View for JobStep {
    type V = StepModel;

    open spec fn view(&self) -> StepModel {
        match *self {
            JobStep::Emit(state) => StepModel::Emit(state@),
            JobStep::RunTool => StepModel::RunTool,
            JobStep::Tag(path) => StepModel::Tag(path@),
            JobStep::Settle(seconds) => StepModel::Settle(seconds),
        }
    }
}

/// What a list of steps holds.
pub open spec fn steps_model(steps: Seq<JobStep>) -> Seq<StepModel> {
    steps.map_values(|s: JobStep| s@)
}

/// How far a job has come.
#[derive(Debug, Clone, PartialEq, Eq)]
pub enum JobPhase {
    /// Not started.
    Idle,
    /// The tool is running.
    Running,
    /// The tool has ended and the intermediate state is out; the path is what
    /// the terminal state will carry.
    Settling(Option<String>),
    /// The terminal state is out.
    Completed,
}

/// What a phase holds.
pub enum PhaseModel {
    Idle,
    Running,
    Settling(Option<Seq<char>>),
    Completed,
}

impl View for JobPhase {
    type V = PhaseModel;

    open spec fn view(&self) -> PhaseModel {
        match *self {
            JobPhase::Idle => PhaseModel::Idle,
            JobPhase::Running => PhaseModel::Running,
            JobPhase::Settling(path) => PhaseModel::Settling(text_of(path)),
            JobPhase::Completed => PhaseModel::Completed,
        }
    }
}

/// What a job is told.
pub enum Signal {
    /// Begin.
    Start,
    /// The tool has ended; the path is the audio file's, where the tool ended
    /// well and the path was recovered from its log.
    Exited { result: ToolResult, path: Option<Seq<char>> },
    /// The settle time has passed.
    Settled,
}

/// One move of a job that settles for `settle` seconds: the phase it reaches
/// on a signal, and the steps it hands back. A signal that does not fit the
/// phase changes nothing and asks for nothing.
pub open spec fn step(phase: PhaseModel, signal: Signal, settle: u64) -> (
    PhaseModel,
    Seq<StepModel>,
) {
    match (phase, signal) {
        (PhaseModel::Idle, Signal::Start) => (
            PhaseModel::Running,
            seq![StepModel::Emit(StateModel::Running), StepModel::RunTool],
        ),
        (PhaseModel::Running, Signal::Exited { result: ToolResult::Success, path: Some(p) }) => (
            PhaseModel::Settling(Some(p)),
            seq![
                StepModel::Tag(p),
                StepModel::Emit(StateModel::Success),
                StepModel::Settle(settle),
            ],
        ),
        (PhaseModel::Running, Signal::Exited { result: ToolResult::Success, path: None }) => (
            PhaseModel::Settling(None),
            seq![StepModel::Emit(StateModel::Success), StepModel::Settle(settle)],
        ),
        (PhaseModel::Running, Signal::Exited { result, path }) => (
            PhaseModel::Settling(None),
            seq![StepModel::Emit(StateModel::ErrDownload), StepModel::Settle(settle)],
        ),
        (PhaseModel::Settling(path), Signal::Settled) => (
            PhaseModel::Completed,
            seq![StepModel::Emit(StateModel::Completed(path))],
        ),
        _ => (phase, Seq::empty()),
    }
}

/// The states that a list of steps sends, in order.
pub open spec fn states_of(steps: Seq<StepModel>) -> Seq<StateModel>
    decreases steps.len(),
{
    if steps.len() == 0 {
        Seq::empty()
    } else {
        match steps.last() {
            StepModel::Emit(state) => states_of(steps.drop_last()).push(state),
            _ => states_of(steps.drop_last()),
        }
    }
}

/// A job from `phase` on, told `signals` one after the other: the phase it
/// reaches, and the states it has sent on the way.
pub open spec fn run(phase: PhaseModel, signals: Seq<Signal>, settle: u64) -> (
    PhaseModel,
    Seq<StateModel>,
)
    decreases signals.len(),
{
    if signals.len() == 0 {
        (phase, Seq::empty())
    } else {
        let (before, sent) = run(phase, signals.drop_last(), settle);
        let (after, steps) = step(before, signals.last(), settle);
        (after, sent + states_of(steps))
    }
}

/// The three histories of a finished job: running, then success or failure,
/// then completion, which carries no path after a failure.
pub open spec fn is_lifecycle(states: Seq<StateModel>) -> bool {
    &&& states.len() == 3
    &&& states[0] == StateModel::Running
    &&& states[2] is Completed
    &&& (states[1] == StateModel::Success || (states[1] == StateModel::ErrDownload && states[2]
        == StateModel::Completed(None)))
}

/// What a job in `phase` has sent so far.
pub open spec fn sent_in(phase: PhaseModel, states: Seq<StateModel>) -> bool {
    match phase {
        PhaseModel::Idle => states == Seq::<StateModel>::empty(),
        PhaseModel::Running => states == seq![StateModel::Running],
        PhaseModel::Settling(path) => {
            ||| states == seq![StateModel::Running, StateModel::Success]
            ||| (path is None && states == seq![StateModel::Running, StateModel::ErrDownload])
        },
        PhaseModel::Completed => is_lifecycle(states),
    }
}

/// The states that one move sends: at most one, and which one.
pub proof fn lemma_states_of_step(phase: PhaseModel, signal: Signal, settle: u64)
    ensures
        states_of(step(phase, signal, settle).1) == (match (phase, signal) {
            (PhaseModel::Idle, Signal::Start) => seq![StateModel::Running],
            (PhaseModel::Running, Signal::Exited { result: ToolResult::Success, path }) => seq![
                StateModel::Success,
            ],
            (PhaseModel::Running, Signal::Exited { result, path }) => seq![
                StateModel::ErrDownload,
            ],
            (PhaseModel::Settling(path), Signal::Settled) => seq![StateModel::Completed(path)],
            _ => Seq::<StateModel>::empty(),
        }),
{
    reveal_with_fuel(states_of, 4);
    let steps = step(phase, signal, settle).1;
    if steps.len() == 3 {
        assert(steps.drop_last().drop_last().drop_last() =~= Seq::<StepModel>::empty());
        assert(steps.drop_last().drop_last() =~= seq![steps[0]]);
        assert(steps.drop_last() =~= seq![steps[0], steps[1]]);
        assert(states_of(seq![steps[0]]) =~= Seq::<StateModel>::empty());
    } else if steps.len() == 2 {
        assert(steps.drop_last().drop_last() =~= Seq::<StepModel>::empty());
        assert(steps.drop_last() =~= seq![steps[0]]);
    } else if steps.len() == 1 {
        assert(steps.drop_last() =~= Seq::<StepModel>::empty());
    }
}

/// Whatever a job is told, and in whatever order: what it has sent fits the
/// phase it is in, and once it is over it has sent running, then success or
/// failure, then completion, with a path only after success.
pub proof fn lemma_job_history(signals: Seq<Signal>, settle: u64)
    ensures
        sent_in(
            run(PhaseModel::Idle, signals, settle).0,
            run(PhaseModel::Idle, signals, settle).1,
        ),
        run(PhaseModel::Idle, signals, settle).0 is Completed ==> is_lifecycle(
            run(PhaseModel::Idle, signals, settle).1,
        ),
    decreases signals.len(),
{
    if signals.len() > 0 {
        lemma_job_history(signals.drop_last(), settle);
        let (before, sent) = run(PhaseModel::Idle, signals.drop_last(), settle);
        lemma_states_of_step(before, signals.last(), settle);
        let (after, states) = run(PhaseModel::Idle, signals, settle);
        assert(states == sent + states_of(step(before, signals.last(), settle).1));
        assert(sent + Seq::<StateModel>::empty() =~= sent);
        match (before, signals.last()) {
            (PhaseModel::Idle, Signal::Start) => {
                assert(states =~= seq![StateModel::Running]);
            },
            (PhaseModel::Running, Signal::Exited { result: ToolResult::Success, path }) => {
                assert(states =~= seq![StateModel::Running, StateModel::Success]);
            },
            (PhaseModel::Running, Signal::Exited { result, path }) => {
                assert(states =~= seq![StateModel::Running, StateModel::ErrDownload]);
            },
            (PhaseModel::Settling(path), Signal::Settled) => {
                assert(states.len() == 3);
            },
            _ => {},
        }
    }
}

/// A job that is driven as its steps ask — begun, told how the tool ended,
/// told that the settle time has passed — always ends completed. After a good
/// end it has sent running, success and completion with the path that was
/// recovered, if one was; after a bad end it has sent running, failure and
/// completion without a path.
pub proof fn lemma_driven_job_completes(result: ToolResult, path: Option<Seq<char>>, settle: u64)
    ensures
        run(
            PhaseModel::Idle,
            seq![Signal::Start, Signal::Exited { result, path }, Signal::Settled],
            settle,
        ) == (
            PhaseModel::Completed,
            if result is Success {
                seq![StateModel::Running, StateModel::Success, StateModel::Completed(path)]
            } else {
                seq![StateModel::Running, StateModel::ErrDownload, StateModel::Completed(None)]
            },
        ),
{
    let all = seq![Signal::Start, Signal::Exited { result, path }, Signal::Settled];
    let two = seq![Signal::Start, Signal::Exited { result, path }];
    let one = seq![Signal::Start];
    assert(all.drop_last() =~= two);
    assert(two.drop_last() =~= one);
    assert(one.drop_last() =~= Seq::<Signal>::empty());
    reveal_with_fuel(run, 4);
    let (p1, s1) = run(PhaseModel::Idle, one, settle);
    lemma_states_of_step(PhaseModel::Idle, Signal::Start, settle);
    assert(p1 == PhaseModel::Running);
    assert(s1 =~= seq![StateModel::Running]);
    let (p2, s2) = run(PhaseModel::Idle, two, settle);
    lemma_states_of_step(p1, Signal::Exited { result, path }, settle);
    assert(s2 == s1 + states_of(step(p1, Signal::Exited { result, path }, settle).1));
    let (p3, s3) = run(PhaseModel::Idle, all, settle);
    lemma_states_of_step(p2, Signal::Settled, settle);
    assert(s3 == s2 + states_of(step(p2, Signal::Settled, settle).1));
    if result is Success {
        assert(s2 =~= seq![StateModel::Running, StateModel::Success]);
        assert(s3 =~= seq![
            StateModel::Running,
            StateModel::Success,
            StateModel::Completed(path),
        ]);
    } else {
        assert(s2 =~= seq![StateModel::Running, StateModel::ErrDownload]);
        assert(s3 =~= seq![
            StateModel::Running,
            StateModel::ErrDownload,
            StateModel::Completed(None),
        ]);
    }
}

/// One argument of the tool's command line: a flag, and its value where it
/// takes one.
#[derive(Debug, Clone, PartialEq, Eq)]
pub struct DownloadArg {
    pub flag: String,
    pub value: Option<String>,
}

impl View for DownloadArg {
    type V = (Seq<char>, Option<Seq<char>>);

    open spec fn view(&self) -> (Seq<char>, Option<Seq<char>>) {
        (self.flag@, text_of(self.value))
    }
}

/// What a command line holds.
pub open spec fn args_model(args: Seq<DownloadArg>) -> Seq<(Seq<char>, Option<Seq<char>>)> {
    args.map_values(|a: DownloadArg| a@)
}

/// The command line of every download: audio only, as mp3, with metadata and
/// thumbnail embedded, artist and title taken from the source's title, all
/// subtitles fetched and converted to lyrics, and a file name of at most 90
/// characters of the title.
pub open spec fn fixed_args() -> Seq<(Seq<char>, Option<Seq<char>>)> {
    seq![
        ("--extract-audio"@, None),
        ("--audio-format"@, Some("mp3"@)),
        ("--add-metadata"@, None),
        ("--embed-thumbnail"@, None),
        ("--metadata-from-title"@, Some("%(artist) - %(title)s"@)),
        ("--write-sub"@, None),
        ("--all-subs"@, None),
        ("--convert-subs"@, Some("lrc"@)),
        ("--output"@, Some("%(title).90s.%(ext)s"@)),
    ]
}

/// A flag without a value.
fn flag(name: &str) -> (arg: DownloadArg)
    ensures
        arg@ == (name@, None::<Seq<char>>),
{
    DownloadArg { flag: name.to_owned(), value: None }
}

/// A flag with its value.
fn flag_with(name: &str, value: &str) -> (arg: DownloadArg)
    ensures
        arg@ == (name@, Some(value@)),
{
    DownloadArg { flag: name.to_owned(), value: Some(value.to_owned()) }
}

/// The command line of every download.
pub fn download_args() -> (args: Vec<DownloadArg>)
    ensures
        args_model(args@) == fixed_args(),
{
    let args = vec![
        flag("--extract-audio"),
        flag_with("--audio-format", "mp3"),
        flag("--add-metadata"),
        flag("--embed-thumbnail"),
        flag_with("--metadata-from-title", "%(artist) - %(title)s"),
        flag("--write-sub"),
        flag("--all-subs"),
        flag_with("--convert-subs", "lrc"),
        flag_with("--output", "%(title).90s.%(ext)s"),
    ];
    assert(args_model(args@) =~= fixed_args());
    args
}

/// The directory to download into, given what is selected in the file tree:
/// the selection itself where it is a directory, else the directory that
/// holds it, and the empty path where there is neither.
pub open spec fn chosen_dir(
    selection: Option<Seq<char>>,
    is_dir: bool,
    parent: Option<Seq<char>>,
) -> Seq<char> {
    match selection {
        Some(path) => if is_dir {
            path
        } else {
            match parent {
                Some(dir) => dir,
                None => Seq::empty(),
            }
        },
        None => Seq::empty(),
    }
}

/// The directory to download into: `selection` is the path selected in the
/// file tree, `is_dir` says whether it is a directory, and `parent` is the
/// directory that holds it.
pub fn choose_dir(selection: Option<&str>, is_dir: bool, parent: Option<String>) -> (dir: String)
    ensures
        dir@ == chosen_dir(text_of_str(selection), is_dir, text_of(parent)),
{
    match selection {
        Some(path) => {
            if is_dir {
                path.to_owned()
            } else {
                match parent {
                    Some(dir) => dir,
                    None => String::new(),
                }
            }
        },
        None => String::new(),
    }
}

/// The directory to download into for what is selected in the file tree: the
/// selection itself where it is a directory, else the directory that the
/// standard library finds to hold it, and the empty path where there is
/// neither.
pub open spec fn target_of(selection: Option<Seq<char>>, is_dir: bool) -> Seq<char> {
    chosen_dir(
        selection,
        is_dir,
        match selection {
            Some(path) => if is_dir {
                None
            } else {
                path_parent(path)
            },
            None => None,
        },
    )
}

/// The directory to download into: `selection` is the path selected in the
/// file tree, and `is_dir` says whether it is a directory.
pub fn target_dir(selection: Option<&str>, is_dir: bool) -> (dir: String)
    ensures
        dir@ == target_of(text_of_str(selection), is_dir),
{
    let parent = match selection {
        Some(path) => if is_dir {
            None
        } else {
            parent_of(path)
        },
        None => None,
    };
    choose_dir(selection, is_dir, parent)
}

/// What a job holds.
pub struct JobModel {
    /// The directory to download into.
    pub dir: Seq<char>,
    /// The address of the entry.
    pub url: Seq<char>,
    /// How far the job has come.
    pub phase: PhaseModel,
    /// The settle time, in seconds.
    pub settle: u64,
}

impl JobModel {
    /// The job once it is told `signal`, and the steps it hands back then.
    pub open spec fn told(self, signal: Signal) -> (JobModel, Seq<StepModel>) {
        let (phase, steps) = step(self.phase, signal, self.settle);
        (JobModel { phase, ..self }, steps)
    }
}

/// One download.
#[derive(Debug)]
pub struct DownloadJob {
    dir: String,
    url: String,
    phase: JobPhase,
    settle: u64,
}

impl View for DownloadJob {
    type V = JobModel;

    closed spec fn view(&self) -> JobModel {
        JobModel { dir: self.dir@, url: self.url@, phase: self.phase@, settle: self.settle }
    }
}

impl DownloadJob {
    /// A job that has not started, with the usual settle time.
    pub fn new(dir: String, url: String) -> (job: Self)
        ensures
            job@ == (JobModel {
                dir: dir@,
                url: url@,
                phase: PhaseModel::Idle,
                settle: SETTLE_SECONDS,
            }),
    {
        DownloadJob { dir, url, phase: JobPhase::Idle, settle: SETTLE_SECONDS }
    }

    /// The same job with a settle time of `seconds`.
    pub fn with_settle(self, seconds: u64) -> (job: Self)
        ensures
            job@ == (JobModel { settle: seconds, ..self@ }),
    {
        DownloadJob { settle: seconds, ..self }
    }

    /// The settle time, in seconds.
    pub fn settle(&self) -> (seconds: u64)
        ensures
            seconds == self@.settle,
    {
        self.settle
    }

    /// The directory to download into.
    pub fn dir(&self) -> (dir: &str)
        ensures
            dir@ == self@.dir,
    {
        self.dir.as_str()
    }

    /// The address of the entry.
    pub fn url(&self) -> (url: &str)
        ensures
            url@ == self@.url,
    {
        self.url.as_str()
    }

    /// How far the job has come.
    pub fn phase(&self) -> (phase: &JobPhase)
        ensures
            phase@ == self@.phase,
    {
        &self.phase
    }

    /// Begins the job: the consumer learns that it runs, and the tool is to
    /// run. A job that has begun before is left alone.
    pub fn start(&mut self) -> (steps: Vec<JobStep>)
        ensures
            (final(self)@, steps_model(steps@)) == old(self)@.told(Signal::Start),
    {
        let steps = if matches!(self.phase, JobPhase::Idle) {
            self.phase = JobPhase::Running;
            vec![JobStep::Emit(TransferState::Running), JobStep::RunTool]
        } else {
            Vec::new()
        };
        assert(steps_model(steps@) =~= old(self)@.told(Signal::Start).1);
        steps
    }

    /// Takes in how the tool ended and, where it ended well, the path that
    /// was recovered from its log. After a good end the file is tagged where
    /// its path is known, and the consumer learns of the success; after a bad
    /// end the consumer learns of the failure. Either way the settle time
    /// follows. A job whose tool is not running is left alone.
    pub fn resolved(&mut self, result: ToolResult, path: Option<String>) -> (steps: Vec<JobStep>)
        ensures
            (final(self)@, steps_model(steps@)) == old(self)@.told(
                Signal::Exited { result, path: text_of(path) },
            ),
    {
        let steps = if matches!(self.phase, JobPhase::Running) {
            match result {
                ToolResult::Success => match path {
                    Some(p) => {
                        self.phase = JobPhase::Settling(Some(p.clone()));
                        vec![
                            JobStep::Tag(p),
                            JobStep::Emit(TransferState::Success),
                            JobStep::Settle(self.settle),
                        ]
                    },
                    None => {
                        self.phase = JobPhase::Settling(None);
                        vec![JobStep::Emit(TransferState::Success), JobStep::Settle(self.settle)]
                    },
                },
                _ => {
                    self.phase = JobPhase::Settling(None);
                    vec![JobStep::Emit(TransferState::ErrDownload), JobStep::Settle(self.settle)]
                },
            }
        } else {
            Vec::new()
        };
        assert(steps_model(steps@) =~= old(self)@.told(
            Signal::Exited { result, path: text_of(path) },
        ).1);
        steps
    }

    /// Takes in how the tool ended and what it logged. Where it ended well
    /// and its log names the audio file, the path of the file is recovered
    /// from the log. A log that names no file gives no path: nothing is
    /// tagged then, and the job will complete without a path. The rest is as
    /// in `resolved`.
    pub fn tool_exited(&mut self, result: ToolResult, output: &str) -> (steps: Vec<JobStep>)
        ensures
            (final(self)@, steps_model(steps@)) == old(self)@.told(
                Signal::Exited {
                    result,
                    path: if result is Success && has_marker(output@) {
                        Some(file_path(old(self)@.dir, output@))
                    } else {
                        None
                    },
                },
            ),
    {
        let path = match result {
            ToolResult::Success => find_filepath(output, self.dir.as_str()),
            _ => None,
        };
        self.resolved(result, path)
    }

    /// Takes in that the settle time has passed: the consumer learns that the
    /// job is over, and where the file is if that is known. A job that is not
    /// settling is left alone.
    pub fn settled(&mut self) -> (steps: Vec<JobStep>)
        ensures
            (final(self)@, steps_model(steps@)) == old(self)@.told(Signal::Settled),
    {
        let mut phase = JobPhase::Completed;
        std::mem::swap(&mut self.phase, &mut phase);
        let steps = match phase {
            JobPhase::Settling(path) => vec![JobStep::Emit(TransferState::Completed(path))],
            other => {
                self.phase = other;
                Vec::new()
            },
        };
        assert(steps_model(steps@) =~= old(self)@.told(Signal::Settled).1);
        steps
    }
}

} // verus!
