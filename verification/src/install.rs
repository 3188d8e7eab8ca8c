//! The install workflow, one decision at a time.
//!
//! Installing a package takes three pieces of outside work: asking the
//! metadata service, cloning the build scripts into a workspace, and running
//! the build tool. This module decides what happens between them. The caller
//! performs the action of a step, reports what came of it as an event, and
//! gets the next step in return, until the action is to exit. The workspace
//! belongs to the caller: it is acquired before a clone and released, with
//! all it holds, when the workflow ends.

use vstd::prelude::*;
use vstd::string::StringExecFns;
use crate::diagnostics::{advice, diagnose, diagnosis};
use crate::invocation::{
    build_command, build_invocation, clone_command, clone_invocation, Invocation, InvocationView,
};
use crate::message::{
    join2, join3, message_views, on_stderr, on_stdout, one_message, Message, MessageView,
};
use crate::metadata::{
    query_url, query_url_for, AurResponse, PackageQueryResult, QueryResultView,
};

verus! {

/// How a run of the build tool ended.
#[derive(Clone, Debug, PartialEq, Eq)]
pub enum BuildOutcome {
    /// The tool exited successfully.
    Success,
    /// The tool failed; `captured_stderr` is what it wrote to standard
    /// error.
    Failure { captured_stderr: String },
}

/// The model of a [`BuildOutcome`].
pub ghost enum BuildOutcomeView {
    Success,
    Failure { captured_stderr: Seq<char> },
}

impl View for BuildOutcome {
    type V = BuildOutcomeView;

    open spec fn view(&self) -> BuildOutcomeView {
        match self {
            BuildOutcome::Success => BuildOutcomeView::Success,
            BuildOutcome::Failure { captured_stderr } => BuildOutcomeView::Failure {
                captured_stderr: captured_stderr@,
            },
        }
    }
}

/// Where an install stands.
#[derive(Clone, Debug, PartialEq, Eq)]
pub enum InstallState {
    /// The metadata service has been asked.
    Querying,
    /// The build scripts of the package `name` are being cloned.
    Cloning { name: String },
    /// The build tool is running on the package `name`.
    Building { name: String },
    /// The workflow is over.
    Finished,
}

/// The model of an [`InstallState`].
pub ghost enum InstallStateView {
    Querying,
    Cloning { name: Seq<char> },
    Building { name: Seq<char> },
    Finished,
}

impl View for InstallState {
    type V = InstallStateView;

    open spec fn view(&self) -> InstallStateView {
        match self {
            InstallState::Querying => InstallStateView::Querying,
            InstallState::Cloning { name } => InstallStateView::Cloning { name: name@ },
            InstallState::Building { name } => InstallStateView::Building { name: name@ },
            InstallState::Finished => InstallStateView::Finished,
        }
    }
}

/// What came of the action of the step before.
#[derive(Clone, Debug, PartialEq, Eq)]
pub enum InstallEvent {
    /// The metadata service has answered.
    Metadata(PackageQueryResult),
    /// The clone has ended.
    CloneExited { success: bool },
    /// The build tool has ended.
    BuildExited(BuildOutcome),
}

/// The model of an [`InstallEvent`].
pub ghost enum InstallEventView {
    Metadata(QueryResultView),
    CloneExited { success: bool },
    BuildExited(BuildOutcomeView),
}

impl View for InstallEvent {
    type V = InstallEventView;

    open spec fn view(&self) -> InstallEventView {
        match self {
            InstallEvent::Metadata(r) => InstallEventView::Metadata(r@),
            InstallEvent::CloneExited { success } => InstallEventView::CloneExited {
                success: *success,
            },
            InstallEvent::BuildExited(o) => InstallEventView::BuildExited(o@),
        }
    }
}

/// What the caller is to do next.
#[derive(Clone, Debug, PartialEq, Eq)]
pub enum InstallAction {
    /// Ask the metadata service at `url`.
    Query { url: String },
    /// Acquire a workspace and run `command` with the path of `dir` in the
    /// workspace as one more argument.
    Clone { command: Invocation, dir: String },
    /// Run `command` inside `dir` in the workspace and capture what it
    /// writes to standard error.
    Build { command: Invocation, dir: String },
    /// Release the workspace, if there is one, and leave with `code`.
    Exit { code: i32 },
}

/// The model of an [`InstallAction`].
pub ghost enum InstallActionView {
    Query { url: Seq<char> },
    Clone { command: InvocationView, dir: Seq<char> },
    Build { command: InvocationView, dir: Seq<char> },
    Exit { code: i32 },
}

impl View for InstallAction {
    type V = InstallActionView;

    open spec fn view(&self) -> InstallActionView {
        match self {
            InstallAction::Query { url } => InstallActionView::Query { url: url@ },
            InstallAction::Clone { command, dir } => InstallActionView::Clone {
                command: command@,
                dir: dir@,
            },
            InstallAction::Build { command, dir } => InstallActionView::Build {
                command: command@,
                dir: dir@,
            },
            InstallAction::Exit { code } => InstallActionView::Exit { code: *code },
        }
    }
}

/// One step of the workflow: the state it leads to, the lines to print, and
/// the action to perform, in that order.
#[derive(Clone, Debug, PartialEq, Eq)]
pub struct InstallStep {
    pub state: InstallState,
    pub messages: Vec<Message>,
    pub action: InstallAction,
}

/// The model of an [`InstallStep`].
pub ghost struct InstallStepView {
    pub state: InstallStateView,
    pub messages: Seq<MessageView>,
    pub action: InstallActionView,
}

impl View for InstallStep {
    type V = InstallStepView;

    open spec fn view(&self) -> InstallStepView {
        InstallStepView {
            state: self.state@,
            messages: message_views(self.messages@),
            action: self.action@,
        }
    }
}

/// The exit code of a workflow that ends without a failed build.
pub open spec fn exit_ok() -> i32 {
    0
}

/// The exit code of a workflow that ends on a failed build.
pub open spec fn exit_build_failed() -> i32 {
    1
}

/// The line that opens an install.
pub open spec fn checking_line(pkg: Seq<char>) -> Seq<char> {
    "Checking AUR for `"@ + pkg + "`..."@
}

/// The line that says that the service does not know the package.
pub open spec fn not_found_line(pkg: Seq<char>) -> Seq<char> {
    "Package `"@ + pkg + "` not found in the AUR."@
}

/// The line that presents a package: its name, its version, and its
/// description or, where it has none, the words `No description`.
pub open spec fn found_line(
    name: Seq<char>,
    version: Seq<char>,
    description: Option<Seq<char>>,
) -> Seq<char> {
    "Found `"@ + name + "` (v"@ + version + "): "@ + match description {
        Some(d) => d,
        None => "No description"@,
    }
}

/// The line that says where the build scripts are cloned to.
pub open spec fn cloning_line(path: Seq<char>) -> Seq<char> {
    "Cloning into temp directory: "@ + path
}

/// The line that reports a failed clone.
pub open spec fn clone_failed_line() -> Seq<char> {
    "`git clone` failed"@
}

/// The line that announces the build.
pub open spec fn running_line() -> Seq<char> {
    "Running `makepkg -si`..."@
}

/// The line that reports a finished install.
pub open spec fn done_line(name: Seq<char>) -> Seq<char> {
    "Done installing `"@ + name + "`!"@
}

/// The line that reports a failed build.
pub open spec fn build_failed_line(name: Seq<char>) -> Seq<char> {
    "`makepkg` failed for `"@ + name + "`"@
}

/// The first step of an install of `pkg`: ask the metadata service.
pub open spec fn install_first(pkg: Seq<char>) -> InstallStepView {
    InstallStepView {
        state: InstallStateView::Querying,
        messages: seq![on_stdout(checking_line(pkg))],
        action: InstallActionView::Query { url: query_url(pkg) },
    }
}

/// The step after the answer of the metadata service. A package that is
/// not found ends the workflow with exit code zero; one that is found is
/// presented and cloned under the name that the service gave.
pub open spec fn next_after_metadata(pkg: Seq<char>, result: QueryResultView) -> InstallStepView {
    match result {
        QueryResultView::NotFound => InstallStepView {
            state: InstallStateView::Finished,
            messages: seq![on_stderr(not_found_line(pkg))],
            action: InstallActionView::Exit { code: exit_ok() },
        },
        QueryResultView::Found { name, version, description } => InstallStepView {
            state: InstallStateView::Cloning { name },
            messages: seq![on_stdout(found_line(name, version, description))],
            action: InstallActionView::Clone { command: clone_invocation(name), dir: name },
        },
    }
}

/// The step after the clone. A failed clone ends the workflow with one
/// generic line and exit code zero; the error text of the clone is not
/// looked at. After a successful clone the build tool runs.
pub open spec fn next_after_clone(name: Seq<char>, success: bool, skip_pgp: bool)
    -> InstallStepView {
    if success {
        InstallStepView {
            state: InstallStateView::Building { name },
            messages: seq![on_stdout(running_line())],
            action: InstallActionView::Build { command: build_invocation(skip_pgp), dir: name },
        }
    } else {
        InstallStepView {
            state: InstallStateView::Finished,
            messages: seq![on_stderr(clone_failed_line())],
            action: InstallActionView::Exit { code: exit_ok() },
        }
    }
}

/// The step after the build, always the last. Success is reported with
/// exit code zero. A failure is reported, followed by the advice that its
/// error text gives rise to, with the exit code of a failed build.
pub open spec fn next_after_build(name: Seq<char>, outcome: BuildOutcomeView) -> InstallStepView {
    match outcome {
        BuildOutcomeView::Success => InstallStepView {
            state: InstallStateView::Finished,
            messages: seq![on_stdout(done_line(name))],
            action: InstallActionView::Exit { code: exit_ok() },
        },
        BuildOutcomeView::Failure { captured_stderr } => InstallStepView {
            state: InstallStateView::Finished,
            messages: seq![on_stderr(build_failed_line(name))] + advice(
                diagnosis(captured_stderr),
            ),
            action: InstallActionView::Exit { code: exit_build_failed() },
        },
    }
}

/// The step that `event` leads to from `state`, or none where the state
/// does not wait for that event.
pub open spec fn install_next(
    pkg: Seq<char>,
    skip_pgp: bool,
    state: InstallStateView,
    event: InstallEventView,
) -> Option<InstallStepView> {
    match (state, event) {
        (InstallStateView::Querying, InstallEventView::Metadata(result)) => Some(
            next_after_metadata(pkg, result),
        ),
        (InstallStateView::Cloning { name }, InstallEventView::CloneExited { success }) => Some(
            next_after_clone(name, success, skip_pgp),
        ),
        (InstallStateView::Building { name }, InstallEventView::BuildExited(outcome)) => Some(
            next_after_build(name, outcome),
        ),
        _ => None,
    }
}

/// The actions that a workflow takes, from `state` on, when it is fed
/// `events` one after the other. It stops at the first event that the state
/// does not wait for.
pub open spec fn install_trace(
    pkg: Seq<char>,
    skip_pgp: bool,
    state: InstallStateView,
    events: Seq<InstallEventView>,
) -> Seq<InstallActionView>
    decreases events.len(),
{
    if events.len() == 0 {
        Seq::empty()
    } else {
        match install_next(pkg, skip_pgp, state, events[0]) {
            None => Seq::empty(),
            Some(step) => seq![step.action] + install_trace(
                pkg,
                skip_pgp,
                step.state,
                events.drop_first(),
            ),
        }
    }
}

/// Words the line that tells where the build scripts are cloned to.
pub fn cloning_notice(path: &str) -> (m: Message)
    ensures
        m@ == on_stdout(cloning_line(path@)),
{
    Message::stdout(join2("Cloning into temp directory: ", path))
}

/// Starts an install of `pkg`.
pub fn install_begin(pkg: &str) -> (step: InstallStep)
    ensures
        step@ == install_first(pkg@),
{
    InstallStep {
        state: InstallState::Querying,
        messages: one_message(Message::stdout(join3("Checking AUR for `", pkg, "`..."))),
        action: InstallAction::Query { url: query_url_for(pkg) },
    }
}

/// Decides what follows the answer of the metadata service.
pub fn after_metadata(pkg: &str, result: PackageQueryResult) -> (step: InstallStep)
    ensures
        step@ == next_after_metadata(pkg@, result@),
{
    match result {
        PackageQueryResult::NotFound => InstallStep {
            state: InstallState::Finished,
            messages: one_message(
                Message::stderr(join3("Package `", pkg, "` not found in the AUR.")),
            ),
            action: InstallAction::Exit { code: 0 },
        },
        PackageQueryResult::Found { name, version, description } => {
            let mut line = String::from_str("Found `");
            line.append(name.as_str());
            line.append("` (v");
            line.append(version.as_str());
            line.append("): ");
            match &description {
                Some(d) => line.append(d.as_str()),
                None => line.append("No description"),
            }
            let command = clone_command(name.as_str());
            let dir = name.clone();
            InstallStep {
                state: InstallState::Cloning { name },
                messages: one_message(Message::stdout(line)),
                action: InstallAction::Clone { command, dir },
            }
        },
    }
}

/// Decides what follows the clone of the build scripts of `name`.
pub fn after_clone(name: String, success: bool, skip_pgp: bool) -> (step: InstallStep)
    ensures
        step@ == next_after_clone(name@, success, skip_pgp),
{
    if success {
        let dir = name.clone();
        InstallStep {
            state: InstallState::Building { name },
            messages: one_message(Message::stdout("Running `makepkg -si`...".to_owned())),
            action: InstallAction::Build { command: build_command(skip_pgp), dir },
        }
    } else {
        InstallStep {
            state: InstallState::Finished,
            messages: one_message(Message::stderr("`git clone` failed".to_owned())),
            action: InstallAction::Exit { code: 0 },
        }
    }
}

/// Decides what follows the build of `name`.
pub fn after_build(name: String, outcome: BuildOutcome) -> (step: InstallStep)
    ensures
        step@ == next_after_build(name@, outcome@),
{
    match outcome {
        BuildOutcome::Success => InstallStep {
            state: InstallState::Finished,
            messages: one_message(
                Message::stdout(join3("Done installing `", name.as_str(), "`!")),
            ),
            action: InstallAction::Exit { code: 0 },
        },
        BuildOutcome::Failure { captured_stderr } => {
            let d = diagnose(captured_stderr.as_str());
            let mut messages = d.advice();
            let first = Message::stderr(join3("`makepkg` failed for `", name.as_str(), "`"));
            let ghost head = first@;
            messages.insert(0, first);
            assert(message_views(messages@) =~= seq![head] + advice(d@));
            InstallStep {
                state: InstallState::Finished,
                messages,
                action: InstallAction::Exit { code: 1 },
            }
        },
    }
}

/// Takes one step of an install of `pkg`: from `state`, on `event`, to the
/// next state, the lines to print and the action to perform. `None` means
/// that `state` does not wait for `event`; a finished workflow waits for
/// none.
pub fn install_step(pkg: &str, skip_pgp: bool, state: InstallState, event: InstallEvent) -> (step:
    Option<InstallStep>)
    ensures
        step is Some <==> install_next(pkg@, skip_pgp, state@, event@) is Some,
        step is Some ==> install_next(pkg@, skip_pgp, state@, event@) == Some(step->0@),
{
    match state {
        InstallState::Querying => match event {
            InstallEvent::Metadata(result) => Some(after_metadata(pkg, result)),
            _ => None,
        },
        InstallState::Cloning { name } => match event {
            InstallEvent::CloneExited { success } => Some(after_clone(name, success, skip_pgp)),
            _ => None,
        },
        InstallState::Building { name } => match event {
            InstallEvent::BuildExited(outcome) => Some(after_build(name, outcome)),
            _ => None,
        },
        InstallState::Finished => None,
    }
}

/// A finished install waits for no event, so it takes no further action.
pub proof fn lemma_finished_install_is_over(
    pkg: Seq<char>,
    skip_pgp: bool,
    events: Seq<InstallEventView>,
)
    ensures
        forall|e: InstallEventView|
            install_next(pkg, skip_pgp, InstallStateView::Finished, e) is None,
        install_trace(pkg, skip_pgp, InstallStateView::Finished, events) == Seq::<
            InstallActionView,
        >::empty(),
{
}

/// Where the metadata service counts no record, an install takes one
/// action and no more: to exit, with code zero. Nothing is cloned and
/// nothing is built, whatever is reported to the workflow afterwards.
pub proof fn lemma_unknown_package_ends_install(
    pkg: Seq<char>,
    skip_pgp: bool,
    reply: AurResponse,
    later: Seq<InstallEventView>,
)
    requires
        reply.resultcount == 0,
    ensures
        reply.consistent(),
        reply.outcome() == QueryResultView::NotFound,
        install_trace(
            pkg,
            skip_pgp,
            InstallStateView::Querying,
            seq![InstallEventView::Metadata(reply.outcome())] + later,
        ) == seq![InstallActionView::Exit { code: 0 }],
{
    let events = seq![InstallEventView::Metadata(reply.outcome())] + later;
    assert(events[0] == InstallEventView::Metadata(QueryResultView::NotFound));
    assert(events.drop_first() =~= later);
    lemma_finished_install_is_over(pkg, skip_pgp, later);
    assert(install_trace(pkg, skip_pgp, InstallStateView::Querying, events) =~= seq![
        InstallActionView::Exit { code: 0 },
    ]);
}

/// An install leaves with a code other than zero in one case only: the
/// build tool ran and failed. The code is then that of a failed build.
pub proof fn lemma_install_fails_only_on_failed_build(
    pkg: Seq<char>,
    skip_pgp: bool,
    state: InstallStateView,
    event: InstallEventView,
)
    requires
        install_next(pkg, skip_pgp, state, event) is Some,
    ensures
        ({
            let step = install_next(pkg, skip_pgp, state, event)->0;
            let failed_build = state is Building && event matches InstallEventView::BuildExited(
                BuildOutcomeView::Failure { .. },
            );
            &&& (step.action is Exit) <==> (step.state is Finished)
            &&& failed_build <==> (step.action matches InstallActionView::Exit { code } && code != 0)
            &&& failed_build ==> step.action == InstallActionView::Exit { code: exit_build_failed() }
        }),
{
}

/// The lines that follow a failed build come in two tiers. Without the
/// marker phrase in the error text there is the report of the failure and
/// nothing else. With it, advice follows: with the key that the text
/// yields, or with the placeholder where it yields none.
pub proof fn lemma_advice_tiers(name: Seq<char>, captured_stderr: Seq<char>)
    ensures
        ({
            let step = next_after_build(name, BuildOutcomeView::Failure { captured_stderr });
            let report = on_stderr(build_failed_line(name));
            let notice = on_stderr(crate::diagnostics::signature_notice());
            let key = crate::diagnostics::remediation_hint(captured_stderr);
            let marked = crate::text::contains(
                captured_stderr,
                crate::diagnostics::signature_marker(),
            );
            &&& !marked ==> step.messages == seq![report]
            &&& marked && key is Some ==> step.messages == seq![
                report,
                notice,
                on_stderr(crate::diagnostics::suggestion(key->0)),
            ]
            &&& marked && key is None ==> step.messages == seq![
                report,
                notice,
                on_stderr(
                    crate::diagnostics::suggestion(crate::diagnostics::key_placeholder()),
                ),
            ]
        }),
{
    let step = next_after_build(name, BuildOutcomeView::Failure { captured_stderr });
    let report = on_stderr(build_failed_line(name));
    let tail = advice(diagnosis(captured_stderr));
    assert(step.messages =~= seq![report] + tail);
    if tail.len() == 0 {
        assert(step.messages =~= seq![report]);
    } else {
        assert(step.messages =~= seq![report, tail[0], tail[1]]);
    }
}

} // verus!
