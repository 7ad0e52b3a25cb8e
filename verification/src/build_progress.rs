//! What the daemon reports of a build, and what each report means for the one who waits for it.

use crate::text;
use vstd::prelude::*;
use vstd::string::StringExecFns;

verus! {

/// The stage of a build: its two ends, or any other by its name.
#[derive(Debug)]
pub enum Stage {
    Complete,
    Failed,
    Other(String),
}

/// One report of a build.
#[derive(Debug)]
pub struct BuildProgress {
    pub stage: Stage,
    pub percent: i32,
    pub message: String,
    pub error: String,
}

/// The call that asks the daemon for a build.
#[derive(Debug)]
pub struct BuildCall {
    pub workspace_path: String,
    pub config_path: String,
    /// Whether a container that is there is removed first.
    pub force_rebuild: bool,
}

/// The model of the call that asks the daemon for a build.
pub struct CallModel {
    pub workspace_path: Seq<char>,
    pub config_path: Seq<char>,
    pub force_rebuild: bool,
}

impl View for BuildCall {
    type V = CallModel;

    open spec fn view(&self) -> CallModel {
        CallModel {
            workspace_path: self.workspace_path@,
            config_path: self.config_path@,
            force_rebuild: self.force_rebuild,
        }
    }
}

/// The model of a call that may be made.
pub open spec fn call_option(call: Option<BuildCall>) -> Option<CallModel> {
    match call {
        Some(call) => Some(call@),
        None => None,
    }
}

/// What comes from the stream of reports: the call was refused, a report, a fault, or the end.
#[derive(Debug)]
pub enum StreamEvent {
    Refused,
    Report(BuildProgress),
    Fault,
    End,
}

/// What a report means: wait for more, the container is ready, or the build failed.
#[derive(Debug)]
pub enum BuildStep {
    Wait,
    Ready(String),
    Fail(String),
}

/// The model of what a report means.
pub enum BuildStepModel {
    Wait,
    Ready(Seq<char>),
    Fail(Seq<char>),
}

impl View for BuildStep {
    type V = BuildStepModel;

    open spec fn view(&self) -> BuildStepModel {
        match *self {
            BuildStep::Wait => BuildStepModel::Wait,
            BuildStep::Ready(id) => BuildStepModel::Ready(id@),
            BuildStep::Fail(error) => BuildStepModel::Fail(error@),
        }
    }
}

/// What the last report of a build puts before the id of the container.
pub const READY_PREFIX: &'static str = "Container ready: ";

/// The container that the last report of a build names.
pub open spec fn ready_id(message: Seq<char>) -> Seq<char> {
    if READY_PREFIX@.is_prefix_of(message) {
        message.skip(READY_PREFIX@.len() as int)
    } else {
        message
    }
}

/// The container that the last report of a build names.
pub fn container_of(message: &str) -> (r: String)
    ensures
        r@ == ready_id(message@),
{
    match text::strip_prefix(message, READY_PREFIX) {
        Some(id) => {
            proof {
                let m = message@;
                let n = READY_PREFIX@.len() as int;
                assert(m.take(n) =~= READY_PREFIX@);
                assert(m.skip(n) =~= id@);
            }
            id
        },
        None => message.to_owned(),
    }
}

/// Why a build failed: what the report says of the error, or else its message.
pub open spec fn failure_text(message: Seq<char>, error: Seq<char>) -> Seq<char> {
    if error.len() == 0 {
        message
    } else {
        error
    }
}

/// What a report means.
pub open spec fn report_step(report: BuildProgress) -> BuildStepModel {
    match report.stage {
        Stage::Complete => BuildStepModel::Ready(ready_id(report.message@)),
        Stage::Failed => BuildStepModel::Fail(failure_text(report.message@, report.error@)),
        Stage::Other(_) => BuildStepModel::Wait,
    }
}

/// What a report means.
pub fn interpret_report(report: &BuildProgress) -> (r: BuildStep)
    ensures
        r@ == report_step(*report),
{
    match &report.stage {
        Stage::Complete => BuildStep::Ready(container_of(report.message.as_str())),
        Stage::Failed => if report.error.as_str().is_empty() {
            BuildStep::Fail(report.message.clone())
        } else {
            BuildStep::Fail(report.error.clone())
        },
        Stage::Other(_) => BuildStep::Wait,
    }
}

/// What an event of the stream means. An error that the build itself reports is told after
/// `prefix`.
pub open spec fn stream_step(event: StreamEvent, prefix: Seq<char>) -> BuildStepModel {
    match event {
        StreamEvent::Refused => BuildStepModel::Fail("BuildContainer RPC failed"@),
        StreamEvent::Report(report) => match report_step(report) {
            BuildStepModel::Fail(error) => BuildStepModel::Fail(prefix + error),
            step => step,
        },
        StreamEvent::Fault => BuildStepModel::Fail("stream error during build"@),
        StreamEvent::End => BuildStepModel::Fail("build stream ended without a container ID"@),
    }
}

/// What an event of the stream means.
pub fn interpret_event(event: &StreamEvent, prefix: &str) -> (r: BuildStep)
    ensures
        r@ == stream_step(*event, prefix@),
{
    match event {
        StreamEvent::Refused => BuildStep::Fail("BuildContainer RPC failed".to_owned()),
        StreamEvent::Report(report) => match interpret_report(report) {
            BuildStep::Fail(error) => BuildStep::Fail(prefix.to_owned().concat(error.as_str())),
            BuildStep::Ready(id) => BuildStep::Ready(id),
            BuildStep::Wait => BuildStep::Wait,
        },
        StreamEvent::Fault => BuildStep::Fail("stream error during build".to_owned()),
        StreamEvent::End => BuildStep::Fail("build stream ended without a container ID".to_owned()),
    }
}

/// How a build stands, from the events of its stream so far: the first that is not to be waited
/// through decides.
pub open spec fn build_outcome(events: Seq<StreamEvent>, prefix: Seq<char>) -> BuildStepModel
    decreases events.len(),
{
    if events.len() == 0 {
        BuildStepModel::Wait
    } else {
        match stream_step(events[0], prefix) {
            BuildStepModel::Wait => build_outcome(events.skip(1), prefix),
            step => step,
        }
    }
}

/// The name of a stage.
pub open spec fn stage_text(stage: Stage) -> Seq<char> {
    match stage {
        Stage::Complete => "Complete"@,
        Stage::Failed => "Failed"@,
        Stage::Other(name) => name@,
    }
}

/// The name of a stage.
pub fn stage_name(stage: &Stage) -> (r: &str)
    ensures
        r@ == stage_text(*stage),
{
    match stage {
        Stage::Complete => "Complete",
        Stage::Failed => "Failed",
        Stage::Other(name) => name.as_str(),
    }
}

/// A report as it is shown: the stage, how far the build is, and the message.
pub open spec fn report_text(report: BuildProgress, dash: Seq<char>) -> Seq<char> {
    "["@ + stage_text(report.stage) + "] "@ + text::signed_text(report.percent as int) + "% "@
        + dash + " "@ + report.message@
}

/// A report as it is shown.
pub fn report_line(report: &BuildProgress, dash: &str) -> (r: String)
    ensures
        r@ == report_text(*report, dash@),
{
    "[".to_owned().concat(stage_name(&report.stage)).concat("] ").concat(
        text::signed_decimal(report.percent).as_str(),
    ).concat("% ").concat(dash).concat(" ").concat(report.message.as_str())
}

/// A report that a build is complete names the container that it was written for.
pub proof fn law_ready_container_is_named(id: Seq<char>)
    ensures
        ready_id(READY_PREFIX@ + id) == id,
{
    let message = READY_PREFIX@ + id;
    assert(message.take(READY_PREFIX@.len() as int) =~= READY_PREFIX@);
    assert(message.skip(READY_PREFIX@.len() as int) =~= id);
}

/// What decides a build decides it for good: nothing that comes later on the stream changes it.
pub proof fn law_build_is_decided_once(
    events: Seq<StreamEvent>,
    later: Seq<StreamEvent>,
    prefix: Seq<char>,
)
    requires
        !(build_outcome(events, prefix) is Wait),
    ensures
        build_outcome(events + later, prefix) == build_outcome(events, prefix),
    decreases events.len(),
{
    let all = events + later;
    assert(all[0] == events[0]);
    if stream_step(events[0], prefix) is Wait {
        law_build_is_decided_once(events.skip(1), later, prefix);
        assert(all.skip(1) =~= events.skip(1) + later);
    }
}

/// A stream that ends has decided the build, and only a report that says so makes it ready.
pub proof fn law_ended_build_is_decided(reports: Seq<StreamEvent>, prefix: Seq<char>)
    ensures
        !(build_outcome(reports.push(StreamEvent::End), prefix) is Wait),
        build_outcome(reports.push(StreamEvent::End), prefix) is Ready ==> build_outcome(
            reports,
            prefix,
        ) is Ready,
    decreases reports.len(),
{
    let all = reports.push(StreamEvent::End);
    if reports.len() > 0 {
        assert(all[0] == reports[0]);
        assert(all.skip(1) =~= reports.skip(1).push(StreamEvent::End));
        law_ended_build_is_decided(reports.skip(1), prefix);
    }
}

/// A report says that the container is ready exactly where the build is complete, and that it failed
/// exactly where it did. The container is what follows `Container ready: `, or the whole message
/// where that is missing; the reason is the error, or the message where there is none.
pub proof fn law_reports_are_understood(report: BuildProgress, id: Seq<char>)
    ensures
        report_step(report) is Ready <==> report.stage is Complete,
        report_step(report) is Fail <==> report.stage is Failed,
        report.stage is Complete && report.message@ == "Container ready: "@ + id ==> report_step(
            report,
        ) == BuildStepModel::Ready(id),
        report.stage is Complete && !"Container ready: "@.is_prefix_of(report.message@)
            ==> report_step(report) == BuildStepModel::Ready(report.message@),
        report.stage is Failed && report.error@.len() > 0 ==> report_step(report)
            == BuildStepModel::Fail(report.error@),
        report.stage is Failed && report.error@.len() == 0 ==> report_step(report)
            == BuildStepModel::Fail(report.message@),
{
    law_ready_container_is_named(id);
}

/// On the stream of reports a report means what it says, with the prefix before its error; a call
/// that is refused, a fault and an end without a container are failures, each under its own reason.
pub proof fn law_stream_is_understood(report: BuildProgress, prefix: Seq<char>)
    ensures
        stream_step(StreamEvent::Report(report), prefix) == match report_step(report) {
            BuildStepModel::Fail(reason) => BuildStepModel::Fail(prefix + reason),
            other => other,
        },
        stream_step(StreamEvent::Refused, prefix) == BuildStepModel::Fail(
            "BuildContainer RPC failed"@,
        ),
        stream_step(StreamEvent::Fault, prefix) == BuildStepModel::Fail(
            "stream error during build"@,
        ),
        stream_step(StreamEvent::End, prefix) == BuildStepModel::Fail(
            "build stream ended without a container ID"@,
        ),
{
}

/// A report is shown with its stage, how far the build is, and its message, which ends the line.
pub proof fn law_report_is_shown(report: BuildProgress, dash: Seq<char>)
    ensures
        ({
            let line = report_text(report, dash);
            let start = "["@ + stage_text(report.stage) + "] "@ + text::signed_text(
                report.percent as int,
            ) + "% "@;
            &&& start.is_prefix_of(line)
            &&& line.skip(start.len() as int) == dash + " "@ + report.message@
        }),
        stage_text(Stage::Complete) == "Complete"@,
        stage_text(Stage::Failed) == "Failed"@,
        report.stage matches Stage::Other(name) ==> stage_text(report.stage) == name@,
{
    let line = report_text(report, dash);
    let start = "["@ + stage_text(report.stage) + "] "@ + text::signed_text(report.percent as int)
        + "% "@;
    assert(line.take(start.len() as int) =~= start);
    assert(line.skip(start.len() as int) =~= dash + " "@ + report.message@);
}

} // verus!
