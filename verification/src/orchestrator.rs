//! The order of the build's steps.
//!
//! The build alternates work on the outside (walking a directory, querying the
//! package registry, running the binding generator, writing a file) with
//! decisions. The decisions are made here: [`step`] takes the stage that the
//! build is in and what the outside work reported, and gives the next stage
//! and the next piece of outside work. Any failure ends the build.

use crate::bindings::{request_of, BindgenRequest, BindgenRequestView, BINDINGS_FILE, _main_gen_bindings};
use crate::flags::texts;
use crate::outcome::{Fatal, FatalView};
use crate::probe::{
    metadata_of, probe_and_link, probe_request, probe_result, BuildMeta, Package, ProbeRequest,
    PACKAGE_NAME,
};
use crate::reruns::{rerun_directives, _main_print_reruns, SOURCE_ROOT};
use vstd::prelude::*;

verus! {

/// Where the build stands.
#[derive(Debug, Clone, Copy, PartialEq, Eq, Structural)]
pub enum Stage {
    /// Nothing has been done yet.
    Start,
    /// The source directory is being enumerated.
    Walking,
    /// The package registry is being queried.
    Probing,
    /// The binding generator is running.
    Generating,
    /// The bindings are being written.
    Writing,
    /// The bindings are written.
    Done,
    /// The build has failed.
    Aborted,
}

/// What the outside work reported.
#[derive(Debug, Clone)]
pub enum Event {
    /// The build begins.
    Begin,
    /// The paths found beneath the source directory.
    Walked(Vec<String>),
    /// The source directory could not be enumerated.
    WalkFailed(String),
    /// The package registry's answer.
    Probed(Package),
    /// The package registry's refusal.
    ProbeFailed(String),
    /// The generator produced bindings.
    Generated,
    /// The generator produced none.
    GenerateFailed,
    /// The bindings were written.
    Written,
    /// The bindings could not be written.
    WriteFailed,
}

/// The outside work to do next.
#[derive(Debug, Clone)]
pub enum Action {
    /// Enumerate everything beneath this directory.
    Walk(&'static str),
    /// Print these directives, then make this query.
    Probe(Vec<String>, ProbeRequest),
    /// Run the binding generator.
    Generate(BindgenRequest),
    /// Write the bindings to this file, beneath the build's output directory.
    Write(&'static str),
    /// End the build: it has succeeded.
    Finish,
    /// End the build with this failure.
    Abort(Fatal),
    /// The event does not belong to the stage: there is nothing to do.
    Nothing,
}

/// The mathematical value of an [`Action`].
pub enum ActionView {
    Walk(Seq<char>),
    Probe(Seq<Seq<char>>, Seq<char>, bool),
    Generate(BindgenRequestView),
    Write(Seq<char>),
    Finish,
    Abort(FatalView),
    Nothing,
}

impl View for Action {
    type V = ActionView;

    open spec fn view(&self) -> ActionView {
        match self {
            Action::Walk(root) => ActionView::Walk(root@),
            Action::Probe(lines, request) => ActionView::Probe(
                texts(lines@),
                request.package@,
                request.statik,
            ),
            Action::Generate(request) => ActionView::Generate(request@),
            Action::Write(file) => ActionView::Write(file@),
            Action::Finish => ActionView::Finish,
            Action::Abort(fatal) => ActionView::Abort(fatal@),
            Action::Nothing => ActionView::Nothing,
        }
    }
}

/// The stage that follows `stage` when `event` is reported. An event that
/// does not belong to the stage leaves it as it is; a finished or failed build
/// stays so.
pub open spec fn next_stage(stage: Stage, event: Event) -> Stage {
    match (stage, event) {
        (Stage::Start, Event::Begin) => Stage::Walking,
        (Stage::Walking, Event::Walked(_)) => Stage::Probing,
        (Stage::Walking, Event::WalkFailed(_)) => Stage::Aborted,
        (Stage::Probing, Event::Probed(_)) => Stage::Generating,
        (Stage::Probing, Event::ProbeFailed(_)) => Stage::Aborted,
        (Stage::Generating, Event::Generated) => Stage::Writing,
        (Stage::Generating, Event::GenerateFailed) => Stage::Aborted,
        (Stage::Writing, Event::Written) => Stage::Done,
        (Stage::Writing, Event::WriteFailed) => Stage::Aborted,
        _ => stage,
    }
}

/// The outside work that `event` calls for in `stage`.
pub open spec fn action_of(stage: Stage, event: Event) -> ActionView {
    match (stage, event) {
        (Stage::Start, Event::Begin) => ActionView::Walk(SOURCE_ROOT@),
        (Stage::Walking, Event::Walked(entries)) => ActionView::Probe(
            rerun_directives(texts(entries@)),
            PACKAGE_NAME@,
            true,
        ),
        (Stage::Walking, Event::WalkFailed(message)) => ActionView::Abort(
            FatalView::Walk(message@),
        ),
        (Stage::Probing, Event::Probed(package)) => ActionView::Generate(
            request_of(metadata_of(package@)),
        ),
        (Stage::Probing, Event::ProbeFailed(message)) => ActionView::Abort(
            FatalView::Probe(message@),
        ),
        (Stage::Generating, Event::Generated) => ActionView::Write(BINDINGS_FILE@),
        (Stage::Generating, Event::GenerateFailed) => ActionView::Abort(FatalView::Generation),
        (Stage::Writing, Event::Written) => ActionView::Finish,
        (Stage::Writing, Event::WriteFailed) => ActionView::Abort(FatalView::Write),
        _ => ActionView::Nothing,
    }
}

/// Locates the library: build metadata from a successful query, and a fatal
/// failure with the query's message from a failed one.
pub fn _main_link_library(outcome: Result<Package, String>) -> (result: Result<BuildMeta, Fatal>)
    ensures
        match probe_result(outcome) {
            Ok(meta) => result is Ok && result->Ok_0@ == meta,
            Err(message) => result is Err && result->Err_0@ == FatalView::Probe(message),
        },
{
    match probe_and_link(outcome) {
        Ok(meta) => Ok(meta),
        Err(error) => Err(Fatal::Probe(error)),
    }
}

/// One decision of the build.
pub fn step(stage: Stage, event: Event) -> (next: (Stage, Action))
    ensures
        next.0 == next_stage(stage, event),
        next.1@ == action_of(stage, event),
{
    match stage {
        Stage::Start => match event {
            Event::Begin => (Stage::Walking, Action::Walk(SOURCE_ROOT)),
            _ => (stage, Action::Nothing),
        },
        Stage::Walking => match event {
            Event::Walked(entries) => (
                Stage::Probing,
                Action::Probe(_main_print_reruns(&entries), probe_request()),
            ),
            Event::WalkFailed(message) => (Stage::Aborted, Action::Abort(Fatal::Walk(message))),
            _ => (stage, Action::Nothing),
        },
        Stage::Probing => {
            let outcome = match event {
                Event::Probed(package) => Ok(package),
                Event::ProbeFailed(message) => Err(message),
                _ => {
                    return (stage, Action::Nothing);
                },
            };
            match _main_link_library(outcome) {
                Ok(meta) => (Stage::Generating, Action::Generate(_main_gen_bindings(meta))),
                Err(fatal) => (Stage::Aborted, Action::Abort(fatal)),
            }
        },
        Stage::Generating => match event {
            Event::Generated => (Stage::Writing, Action::Write(BINDINGS_FILE)),
            Event::GenerateFailed => (Stage::Aborted, Action::Abort(Fatal::Generation)),
            _ => (stage, Action::Nothing),
        },
        Stage::Writing => match event {
            Event::Written => (Stage::Done, Action::Finish),
            Event::WriteFailed => (Stage::Aborted, Action::Abort(Fatal::Write)),
            _ => (stage, Action::Nothing),
        },
        Stage::Done => (stage, Action::Nothing),
        Stage::Aborted => (stage, Action::Nothing),
    }
}


/// The stage that a build is in when the event at position `i` of `events`
/// is reported, where the events before it were reported from the start.
pub open spec fn stage_at(events: Seq<Event>, i: nat) -> Stage
    decreases i,
{
    if i == 0 {
        Stage::Start
    } else {
        next_stage(stage_at(events, (i - 1) as nat), events[i - 1])
    }
}

/// The outside work that the event at position `i` of `events` calls for.
pub open spec fn action_at(events: Seq<Event>, i: nat) -> ActionView {
    action_of(stage_at(events, i), events[i as int])
}

/// How far a stage is from the start. A failed build is furthest.
pub open spec fn progress(stage: Stage) -> nat {
    match stage {
        Stage::Start => 0,
        Stage::Walking => 1,
        Stage::Probing => 2,
        Stage::Generating => 3,
        Stage::Writing => 4,
        Stage::Done => 5,
        Stage::Aborted => 6,
    }
}

/// A build never goes back. Whatever is reported, a later stage is at least as
/// far from the start as an earlier one, and a failed build stays failed.
pub proof fn lemma_stages_only_advance(events: Seq<Event>, a: nat, b: nat)
    requires
        a <= b <= events.len(),
    ensures
        progress(stage_at(events, a)) <= progress(stage_at(events, b)),
        stage_at(events, a) == Stage::Aborted ==> stage_at(events, b) == Stage::Aborted,
    decreases b - a,
{
    if a < b {
        lemma_stages_only_advance(events, a, (b - 1) as nat);
    }
}

/// A failed query ends the build before the generator runs. Where the package
/// registry reports a failure to a build that waits for its answer, the build
/// is ended with that failure, the generator is asked for nothing at any
/// point of the build, before or after, and nothing at all is done after.
pub proof fn lemma_failed_probe_never_generates(events: Seq<Event>, i: nat, j: nat)
    requires
        i < events.len(),
        j < events.len(),
        stage_at(events, i) == Stage::Probing,
        events[i as int] is ProbeFailed,
    ensures
        action_at(events, i) == ActionView::Abort(
            FatalView::Probe(events[i as int]->ProbeFailed_0@),
        ),
        !(action_at(events, j) is Generate),
        j > i ==> action_at(events, j) == ActionView::Nothing,
{
    if j < i {
        if action_at(events, j) is Generate {
            assert(stage_at(events, j + 1) == Stage::Generating);
            lemma_stages_only_advance(events, j + 1, i);
        }
    } else if j > i {
        assert(stage_at(events, i + 1) == Stage::Aborted);
        lemma_stages_only_advance(events, i + 1, j);
    }
}

} // verus!
