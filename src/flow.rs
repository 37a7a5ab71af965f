//! The decisions of one run, as a state machine: the caller performs each
//! command (reading the repository, calling the server, exiting), prints
//! the output, and hands back what came of the command as the next event.
use vstd::prelude::*;
use vstd::string::*;
use crate::error::{CiError, message_spec};
use crate::model::{Job, Pipeline};
use crate::status::{label_spec, lower_of, render, upper_of, Style};
use crate::url::{decimal, decimal_string};

verus! {

/// Where a run stands.
#[derive(Clone, Copy, Debug, PartialEq, Eq, Structural)]
pub enum Phase {
    Start,
    AwaitConfig,
    AwaitBranch,
    AwaitPipelines,
    AwaitJobs,
    Done,
}

/// What came of the last command.
#[derive(Debug)]
pub enum Event {
    /// Whether the working directory holds a repository marker.
    RepoChecked { found: bool },
    /// The settings were read.
    ConfigLoaded,
    /// The current branch was resolved.
    BranchResolved { branch: String },
    /// The server listed the branch's pipelines, newest first.
    PipelinesFetched { pipelines: Vec<Pipeline> },
    /// The server listed the latest pipeline's jobs.
    JobsFetched { jobs: Vec<Job> },
    /// The last command failed.
    Failed { error: CiError },
}

/// What the caller is to do next.
#[derive(Debug)]
pub enum Command {
    ReadConfig,
    ResolveBranch,
    FetchPipelines { branch: String },
    FetchJobs { pipeline_id: u64 },
    Exit { code: i32 },
}

/// A piece of output: its text, its style, whether a line break follows
/// it, and whether it goes to standard error.
#[derive(Debug)]
pub struct Segment {
    pub text: String,
    pub style: Style,
    pub newline: bool,
    pub to_stderr: bool,
}

impl View for Segment {
    type V = (Seq<char>, Style, bool, bool);

    open spec fn view(&self) -> (Seq<char>, Style, bool, bool) {
        (self.text@, self.style, self.newline, self.to_stderr)
    }
}

/// The next phase, what to print, and what to do.
#[derive(Debug)]
pub struct Transition {
    pub phase: Phase,
    pub output: Vec<Segment>,
    pub command: Command,
}

/// The output as plain values.
pub open spec fn out_view(v: Seq<Segment>) -> Seq<(Seq<char>, Style, bool, bool)> {
    v.map_values(|s: Segment| s@)
}

/// The error shown outside a repository.
pub open spec fn not_repo_seg() -> (Seq<char>, Style, bool, bool) {
    ("Error: Not in a git repository"@, Style::Red, true, true)
}

/// The line shown for a failure, on standard error.
pub open spec fn failure_seg(e: CiError) -> (Seq<char>, Style, bool, bool) {
    ("Error: "@ + message_spec(e), Style::Plain, true, true)
}

/// The note shown when a branch has no pipelines.
pub open spec fn no_pipelines_seg() -> (Seq<char>, Style, bool, bool) {
    ("No pipelines found for this branch"@, Style::Yellow, true, false)
}

/// The line that names the current branch.
pub open spec fn branch_segs(branch: Seq<char>) -> Seq<(Seq<char>, Style, bool, bool)> {
    seq![("Branch: "@, Style::Plain, false, false), (branch, Style::Cyan, true, false)]
}

/// The rendered status, ending its line.
pub open spec fn status_seg(status: Seq<char>) -> (Seq<char>, Style, bool, bool) {
    let l = label_spec(lower_of(status), upper_of(status));
    (l.0, l.1, true, false)
}

/// The latest pipeline's id and status.
pub open spec fn pipeline_segs(p: Pipeline) -> Seq<(Seq<char>, Style, bool, bool)> {
    seq![
        ("Pipeline ID: "@ + decimal(p.id as nat), Style::Plain, true, false),
        ("Status: "@, Style::Plain, true, false),
        status_seg(p.status@),
    ]
}

/// One job: its name and stage, then its status on the same line.
pub open spec fn job_segs(j: Job) -> Seq<(Seq<char>, Style, bool, bool)> {
    seq![
        ("  "@ + j.name@ + " ("@ + j.stage@ + ") - "@, Style::Plain, false, false),
        status_seg(j.status@),
    ]
}

/// Each job in turn.
pub open spec fn job_list_segs(js: Seq<Job>) -> Seq<(Seq<char>, Style, bool, bool)>
    decreases js.len(),
{
    if js.len() == 0 {
        Seq::empty()
    } else {
        job_list_segs(js.drop_last()) + job_segs(js.last())
    }
}

/// Nothing for no jobs; else a header and each job, in the order given.
pub open spec fn jobs_output(js: Seq<Job>) -> Seq<(Seq<char>, Style, bool, bool)> {
    if js.len() == 0 {
        Seq::empty()
    } else {
        seq![("\nJobs:"@, Style::Plain, true, false)] + job_list_segs(js)
    }
}

/// A transition that ends the run with `code` after printing `out`.
pub open spec fn ends(r: Transition, code: i32, out: Seq<(Seq<char>, Style, bool, bool)>) -> bool {
    &&& r.phase == Phase::Done
    &&& r.command == Command::Exit { code }
    &&& out_view(r.output@) == out
}

/// What `step` does in `phase` on `event`. A failure, or an event that
/// does not belong to the phase, ends the run with code 1.
pub open spec fn step_spec(phase: Phase, event: Event, r: Transition) -> bool {
    match event {
        Event::Failed { error } => ends(r, 1, seq![failure_seg(error)]),
        Event::RepoChecked { found } => if phase != Phase::Start {
            ends(r, 1, Seq::empty())
        } else if found {
            &&& r.phase == Phase::AwaitConfig
            &&& r.command == Command::ReadConfig
            &&& r.output@.len() == 0
        } else {
            ends(r, 1, seq![not_repo_seg()])
        },
        Event::ConfigLoaded => if phase != Phase::AwaitConfig {
            ends(r, 1, Seq::empty())
        } else {
            &&& r.phase == Phase::AwaitBranch
            &&& r.command == Command::ResolveBranch
            &&& r.output@.len() == 0
        },
        Event::BranchResolved { branch } => if phase != Phase::AwaitBranch {
            ends(r, 1, Seq::empty())
        } else {
            &&& r.phase == Phase::AwaitPipelines
            &&& r.command is FetchPipelines
            &&& r.command->FetchPipelines_branch@ == branch@
            &&& out_view(r.output@) == branch_segs(branch@)
        },
        Event::PipelinesFetched { pipelines } => if phase != Phase::AwaitPipelines {
            ends(r, 1, Seq::empty())
        } else if pipelines@.len() == 0 {
            ends(r, 0, seq![no_pipelines_seg()])
        } else {
            &&& r.phase == Phase::AwaitJobs
            &&& r.command == Command::FetchJobs { pipeline_id: pipelines@[0].id }
            &&& out_view(r.output@) == pipeline_segs(pipelines@[0])
        },
        Event::JobsFetched { jobs } => if phase != Phase::AwaitJobs {
            ends(r, 1, Seq::empty())
        } else {
            ends(r, 0, jobs_output(jobs@))
        },
    }
}

/// A branch without pipelines ends the run successfully with one
/// informational line, and no jobs are fetched.
pub proof fn lemma_no_pipelines_ends_run(pipelines: Vec<Pipeline>, r: Transition)
    requires
        pipelines@.len() == 0,
        step_spec(Phase::AwaitPipelines, (Event::PipelinesFetched { pipelines }), r),
    ensures
        r.phase == Phase::Done,
        r.command == (Command::Exit { code: 0 }),
        !(r.command is FetchJobs),
        out_view(r.output@) == seq![no_pipelines_seg()],
        r.output@.len() == 1 && !r.output@[0].to_stderr,
{
    assert(out_view(r.output@).len() == r.output@.len());
    assert(r.output@[0]@ == out_view(r.output@)[0]);
}

/// A failure while the settings are read, such as a missing key, ends the
/// run with a non-zero code and the error's message on standard error,
/// before any request to the server.
pub proof fn lemma_config_failure_stops(error: CiError, r: Transition)
    requires
        step_spec(Phase::AwaitConfig, (Event::Failed { error }), r),
    ensures
        r.phase == Phase::Done,
        r.command == (Command::Exit { code: 1 }),
        !(r.command is FetchPipelines) && !(r.command is FetchJobs),
        out_view(r.output@) == seq![failure_seg(error)],
        error == CiError::Config(crate::error::ConfigKey::AccessToken) ==> failure_seg(error).0
            == "Error: "@ + "gitlab.access-token"@ + " not found in .git/config"@,
{
}

/// Outside a repository the run ends with code 1 and an error, and the
/// settings are never read.
pub proof fn lemma_outside_repository_stops(r: Transition)
    requires
        step_spec(Phase::Start, (Event::RepoChecked { found: false }), r),
    ensures
        r.phase == Phase::Done,
        r.command == (Command::Exit { code: 1 }),
        !(r.command is ReadConfig),
        out_view(r.output@) == seq![not_repo_seg()],
{
}

fn segment(text: String, style: Style, newline: bool, to_stderr: bool) -> (r: Segment)
    ensures
        r@ == (text@, style, newline, to_stderr),
{
    Segment { text, style, newline, to_stderr }
}

fn status_segment(status: &String) -> (r: Segment)
    ensures
        r@ == status_seg(status@),
{
    let l = render(status.as_str());
    segment(l.text, l.style, true, false)
}

fn end_run(code: i32, output: Vec<Segment>) -> (r: Transition)
    ensures
        ends(r, code, out_view(output@)),
{
    Transition { phase: Phase::Done, output, command: Command::Exit { code } }
}

fn nothing() -> (r: Vec<Segment>)
    ensures
        out_view(r@) == Seq::<(Seq<char>, Style, bool, bool)>::empty(),
{
    let v: Vec<Segment> = Vec::new();
    assert(out_view(v@) =~= Seq::<(Seq<char>, Style, bool, bool)>::empty());
    v
}

fn one(s: Segment) -> (r: Vec<Segment>)
    ensures
        out_view(r@) == seq![s@],
{
    let mut v: Vec<Segment> = Vec::new();
    v.push(s);
    assert(out_view(v@) =~= seq![s@]);
    v
}

/// The output for the jobs of the latest pipeline.
fn jobs_segments(jobs: &Vec<Job>) -> (r: Vec<Segment>)
    ensures
        out_view(r@) == jobs_output(jobs@),
{
    let mut out: Vec<Segment> = Vec::new();
    if jobs.len() == 0 {
        assert(out_view(out@) =~= jobs_output(jobs@));
        return out;
    }
    out.push(segment(String::from_str("\nJobs:"), Style::Plain, true, false));
    let ghost head = seq![("\nJobs:"@, Style::Plain, true, false)];
    assert(out_view(out@) =~= head + job_list_segs(jobs@.subrange(0, 0)));
    let mut i: usize = 0;
    while i < jobs.len()
        invariant
            i <= jobs@.len(),
            out_view(out@) == head + job_list_segs(jobs@.subrange(0, i as int)),
        decreases jobs@.len() - i,
    {
        let j = &jobs[i];
        let line = String::from_str("  ").concat(j.name.as_str()).concat(" (").concat(
            j.stage.as_str(),
        ).concat(") - ");
        let ghost before = out@;
        out.push(segment(line, Style::Plain, false, false));
        out.push(status_segment(&j.status));
        assert(jobs@.subrange(0, i + 1).drop_last() =~= jobs@.subrange(0, i as int));
        assert(out_view(out@) =~= out_view(before) + job_segs(jobs@[i as int]));
        i = i + 1;
    }
    assert(jobs@.subrange(0, jobs@.len() as int) =~= jobs@);
    out
}

/// The next transition of a run in `phase` on `event`.
pub fn step(phase: Phase, event: Event) -> (r: Transition)
    ensures
        step_spec(phase, event, r),
{
    match event {
        Event::Failed { error } => {
            let text = String::from_str("Error: ").concat(error.message().as_str());
            end_run(1, one(segment(text, Style::Plain, true, true)))
        },
        Event::RepoChecked { found } => {
            if phase != Phase::Start {
                end_run(1, nothing())
            } else if found {
                Transition { phase: Phase::AwaitConfig, output: Vec::new(), command: Command::ReadConfig }
            } else {
                let text = String::from_str("Error: Not in a git repository");
                end_run(1, one(segment(text, Style::Red, true, true)))
            }
        },
        Event::ConfigLoaded => {
            if phase != Phase::AwaitConfig {
                end_run(1, nothing())
            } else {
                Transition {
                    phase: Phase::AwaitBranch,
                    output: Vec::new(),
                    command: Command::ResolveBranch,
                }
            }
        },
        Event::BranchResolved { branch } => {
            if phase != Phase::AwaitBranch {
                end_run(1, nothing())
            } else {
                let mut out: Vec<Segment> = Vec::new();
                out.push(segment(String::from_str("Branch: "), Style::Plain, false, false));
                out.push(segment(branch.clone(), Style::Cyan, true, false));
                assert(out_view(out@) =~= branch_segs(branch@));
                Transition {
                    phase: Phase::AwaitPipelines,
                    output: out,
                    command: Command::FetchPipelines { branch },
                }
            }
        },
        Event::PipelinesFetched { pipelines } => {
            if phase != Phase::AwaitPipelines {
                end_run(1, nothing())
            } else if pipelines.len() == 0 {
                let text = String::from_str("No pipelines found for this branch");
                end_run(0, one(segment(text, Style::Yellow, true, false)))
            } else {
                let p = &pipelines[0];
                let mut out: Vec<Segment> = Vec::new();
                let id = String::from_str("Pipeline ID: ").concat(decimal_string(p.id).as_str());
                out.push(segment(id, Style::Plain, true, false));
                out.push(segment(String::from_str("Status: "), Style::Plain, true, false));
                out.push(status_segment(&p.status));
                assert(out_view(out@) =~= pipeline_segs(pipelines@[0]));
                Transition {
                    phase: Phase::AwaitJobs,
                    output: out,
                    command: Command::FetchJobs { pipeline_id: p.id },
                }
            }
        },
        Event::JobsFetched { jobs } => {
            if phase != Phase::AwaitJobs {
                end_run(1, nothing())
            } else {
                end_run(0, jobs_segments(&jobs))
            }
        },
    }
}

} // verus!
