//! The update workflow, one decision at a time.
//!
//! An update asks the package database for the installed version, then the
//! metadata service for the current one, and installs the package again only
//! where the two differ. Versions are compared as texts, character by
//! character: no version is older or newer than another, only equal or not.

use vstd::prelude::*;
use crate::invocation::{probe_command, probe_invocation, Invocation, InvocationView};
use crate::message::{
    join2, join3, message_views, on_stderr, on_stdout, one_message, two_messages, Message,
    MessageView,
};
use crate::metadata::{
    query_url, query_url_for, AurResponse, PackageQueryResult, QueryResultView,
};
use crate::install::exit_ok;
use crate::text::{chars_of, opt_text};

verus! {

/// Where an update stands.
#[derive(Clone, Debug, PartialEq, Eq)]
pub enum UpdateState {
    /// The package database has been asked.
    Probing,
    /// The version `installed` is installed, and the metadata service has
    /// been asked.
    Querying { installed: String },
    /// The workflow is over.
    Finished,
}

/// The model of an [`UpdateState`].
pub ghost enum UpdateStateView {
    Probing,
    Querying { installed: Seq<char> },
    Finished,
}

impl View for UpdateState {
    type V = UpdateStateView;

    open spec fn view(&self) -> UpdateStateView {
        match self {
            UpdateState::Probing => UpdateStateView::Probing,
            UpdateState::Querying { installed } => UpdateStateView::Querying {
                installed: installed@,
            },
            UpdateState::Finished => UpdateStateView::Finished,
        }
    }
}

/// What came of the action of the step before.
#[derive(Clone, Debug, PartialEq, Eq)]
pub enum UpdateEvent {
    /// The package database has answered: the installed version, if any.
    Probed(Option<String>),
    /// The metadata service has answered.
    Metadata(PackageQueryResult),
}

/// The model of an [`UpdateEvent`].
pub ghost enum UpdateEventView {
    Probed(Option<Seq<char>>),
    Metadata(QueryResultView),
}

impl View for UpdateEvent {
    type V = UpdateEventView;

    open spec fn view(&self) -> UpdateEventView {
        match self {
            UpdateEvent::Probed(v) => UpdateEventView::Probed(opt_text(*v)),
            UpdateEvent::Metadata(r) => UpdateEventView::Metadata(r@),
        }
    }
}

/// What the caller is to do next.
#[derive(Clone, Debug, PartialEq, Eq)]
pub enum UpdateAction {
    /// Run `command` and read the installed version from what it prints.
    Probe { command: Invocation },
    /// Ask the metadata service at `url`.
    Query { url: String },
    /// Run the install workflow for the package, from its beginning.
    Install,
    /// Leave with `code`.
    Exit { code: i32 },
}

/// The model of an [`UpdateAction`].
pub ghost enum UpdateActionView {
    Probe { command: InvocationView },
    Query { url: Seq<char> },
    Install,
    Exit { code: i32 },
}

impl View for UpdateAction {
    type V = UpdateActionView;

    open spec fn view(&self) -> UpdateActionView {
        match self {
            UpdateAction::Probe { command } => UpdateActionView::Probe { command: command@ },
            UpdateAction::Query { url } => UpdateActionView::Query { url: url@ },
            UpdateAction::Install => UpdateActionView::Install,
            UpdateAction::Exit { code } => UpdateActionView::Exit { code: *code },
        }
    }
}

/// One step of the workflow: the state it leads to, the lines to print, and
/// the action to perform, in that order.
#[derive(Clone, Debug, PartialEq, Eq)]
pub struct UpdateStep {
    pub state: UpdateState,
    pub messages: Vec<Message>,
    pub action: UpdateAction,
}

/// The model of an [`UpdateStep`].
pub ghost struct UpdateStepView {
    pub state: UpdateStateView,
    pub messages: Seq<MessageView>,
    pub action: UpdateActionView,
}

impl View for UpdateStep {
    type V = UpdateStepView;

    open spec fn view(&self) -> UpdateStepView {
        UpdateStepView {
            state: self.state@,
            messages: message_views(self.messages@),
            action: self.action@,
        }
    }
}

/// The line that opens an update.
pub open spec fn probing_line(pkg: Seq<char>) -> Seq<char> {
    "Checking installed version for `"@ + pkg + "`..."@
}

/// The line that sends the user of a package that is not installed to the
/// install command.
pub open spec fn not_installed_line(pkg: Seq<char>) -> Seq<char> {
    "`"@ + pkg + "` is not installed. Use `raur install "@ + pkg + "` instead"@
}

/// The line that shows the installed version.
pub open spec fn installed_line(version: Seq<char>) -> Seq<char> {
    "Installed version: "@ + version
}

/// The line that says that the service does not know the package.
pub open spec fn unknown_package_line(pkg: Seq<char>) -> Seq<char> {
    "Package `"@ + pkg + "` not found in AUR"@
}

/// The line that shows the version that the service reports.
pub open spec fn remote_line(version: Seq<char>) -> Seq<char> {
    "AUR version: "@ + version
}

/// The line that announces the install of another version.
pub open spec fn update_available_line(pkg: Seq<char>) -> Seq<char> {
    "Update available! Updating `"@ + pkg + "`..."@
}

/// The line that says that there is nothing to do.
pub open spec fn up_to_date_line(pkg: Seq<char>) -> Seq<char> {
    "`"@ + pkg + "` is already up to date!"@
}

/// Whether two versions are the same: the same characters in the same
/// order, with no allowance for case or for space.
pub open spec fn same_version(installed: Seq<char>, remote: Seq<char>) -> bool {
    installed == remote
}

/// The first step of an update of `pkg`: ask the package database.
pub open spec fn update_first(pkg: Seq<char>) -> UpdateStepView {
    UpdateStepView {
        state: UpdateStateView::Probing,
        messages: seq![on_stdout(probing_line(pkg))],
        action: UpdateActionView::Probe { command: probe_invocation(pkg) },
    }
}

/// The step after the answer of the package database. A package that is
/// not installed ends the workflow with a pointer to the install command;
/// the metadata service is asked only about an installed one.
pub open spec fn next_after_probe(pkg: Seq<char>, installed: Option<Seq<char>>) -> UpdateStepView {
    match installed {
        None => UpdateStepView {
            state: UpdateStateView::Finished,
            messages: seq![on_stdout(not_installed_line(pkg))],
            action: UpdateActionView::Exit { code: exit_ok() },
        },
        Some(version) => UpdateStepView {
            state: UpdateStateView::Querying { installed: version },
            messages: seq![on_stdout(installed_line(version))],
            action: UpdateActionView::Query { url: query_url(pkg) },
        },
    }
}

/// The step after the answer of the metadata service, always the last of
/// the update itself: the package is unknown, or up to date, or is to be
/// installed again.
pub open spec fn next_after_remote(pkg: Seq<char>, installed: Seq<char>, remote: QueryResultView)
    -> UpdateStepView {
    match remote {
        QueryResultView::NotFound => UpdateStepView {
            state: UpdateStateView::Finished,
            messages: seq![on_stderr(unknown_package_line(pkg))],
            action: UpdateActionView::Exit { code: exit_ok() },
        },
        QueryResultView::Found { name, version, description } => if same_version(
            installed,
            version,
        ) {
            UpdateStepView {
                state: UpdateStateView::Finished,
                messages: seq![on_stdout(remote_line(version)), on_stdout(up_to_date_line(pkg))],
                action: UpdateActionView::Exit { code: exit_ok() },
            }
        } else {
            UpdateStepView {
                state: UpdateStateView::Finished,
                messages: seq![
                    on_stdout(remote_line(version)),
                    on_stdout(update_available_line(pkg)),
                ],
                action: UpdateActionView::Install,
            }
        },
    }
}

/// The step that `event` leads to from `state`, or none where the state
/// does not wait for that event.
pub open spec fn update_next(pkg: Seq<char>, state: UpdateStateView, event: UpdateEventView)
    -> Option<UpdateStepView> {
    match (state, event) {
        (UpdateStateView::Probing, UpdateEventView::Probed(installed)) => Some(
            next_after_probe(pkg, installed),
        ),
        (UpdateStateView::Querying { installed }, UpdateEventView::Metadata(remote)) => Some(
            next_after_remote(pkg, installed, remote),
        ),
        _ => None,
    }
}

/// The actions that an update takes, from `state` on, when it is fed
/// `events` one after the other. It stops at the first event that the state
/// does not wait for.
pub open spec fn update_trace(pkg: Seq<char>, state: UpdateStateView, events: Seq<UpdateEventView>)
    -> Seq<UpdateActionView>
    decreases events.len(),
{
    if events.len() == 0 {
        Seq::empty()
    } else {
        match update_next(pkg, state, events[0]) {
            None => Seq::empty(),
            Some(step) => seq![step.action] + update_trace(pkg, step.state, events.drop_first()),
        }
    }
}

/// The last step of an update of `pkg` on a machine where the package
/// database reports `installed` and the metadata service would answer
/// `remote`.
pub open spec fn update_outcome(
    pkg: Seq<char>,
    installed: Option<Seq<char>>,
    remote: QueryResultView,
) -> UpdateStepView {
    match installed {
        None => next_after_probe(pkg, installed),
        Some(version) => next_after_remote(pkg, version, remote),
    }
}

/// What the package database reports after an update has taken its last
/// step `last`: the same as before, unless the step asks for an install.
pub open spec fn installed_after(installed: Option<Seq<char>>, last: UpdateStepView) -> Option<
    Option<Seq<char>>,
> {
    if last.action is Install {
        None
    } else {
        Some(installed)
    }
}

/// Tells whether two versions are the same.
pub fn versions_match(installed: &str, remote: &str) -> (same: bool)
    ensures
        same == same_version(installed@, remote@),
{
    let a = chars_of(installed);
    let b = chars_of(remote);
    if a.len() != b.len() {
        return false;
    }
    let mut i: usize = 0;
    while i < a.len()
        invariant
            a@ == installed@,
            b@ == remote@,
            a.len() == b.len(),
            i <= a.len(),
            forall|k: int| 0 <= k < i ==> a@[k] == b@[k],
        decreases a.len() - i,
    {
        if a[i] != b[i] {
            return false;
        }
        i += 1;
    }
    assert(a@ =~= b@);
    true
}

/// Starts an update of `pkg`.
pub fn update_begin(pkg: &str) -> (step: UpdateStep)
    ensures
        step@ == update_first(pkg@),
{
    UpdateStep {
        state: UpdateState::Probing,
        messages: one_message(
            Message::stdout(join3("Checking installed version for `", pkg, "`...")),
        ),
        action: UpdateAction::Probe { command: probe_command(pkg) },
    }
}

/// Decides what follows the answer of the package database.
pub fn after_probe(pkg: &str, installed: Option<String>) -> (step: UpdateStep)
    ensures
        step@ == next_after_probe(pkg@, opt_text(installed)),
{
    match installed {
        None => {
            let mut line = join3("`", pkg, "` is not installed. Use `raur install ");
            line = join3(line.as_str(), pkg, "` instead");
            UpdateStep {
                state: UpdateState::Finished,
                messages: one_message(Message::stdout(line)),
                action: UpdateAction::Exit { code: 0 },
            }
        },
        Some(version) => {
            let line = join2("Installed version: ", version.as_str());
            UpdateStep {
                state: UpdateState::Querying { installed: version },
                messages: one_message(Message::stdout(line)),
                action: UpdateAction::Query { url: query_url_for(pkg) },
            }
        },
    }
}

/// Decides what follows the answer of the metadata service, for a package
/// of which the version `installed` is installed.
pub fn after_remote(pkg: &str, installed: &str, remote: PackageQueryResult) -> (step: UpdateStep)
    ensures
        step@ == next_after_remote(pkg@, installed@, remote@),
{
    match remote {
        PackageQueryResult::NotFound => UpdateStep {
            state: UpdateState::Finished,
            messages: one_message(Message::stderr(join3("Package `", pkg, "` not found in AUR"))),
            action: UpdateAction::Exit { code: 0 },
        },
        PackageQueryResult::Found { name, version, description } => {
            let remote_version = Message::stdout(join2("AUR version: ", version.as_str()));
            if versions_match(installed, version.as_str()) {
                UpdateStep {
                    state: UpdateState::Finished,
                    messages: two_messages(
                        remote_version,
                        Message::stdout(join3("`", pkg, "` is already up to date!")),
                    ),
                    action: UpdateAction::Exit { code: 0 },
                }
            } else {
                UpdateStep {
                    state: UpdateState::Finished,
                    messages: two_messages(
                        remote_version,
                        Message::stdout(join3("Update available! Updating `", pkg, "`...")),
                    ),
                    action: UpdateAction::Install,
                }
            }
        },
    }
}

/// Takes one step of an update of `pkg`: from `state`, on `event`, to the
/// next state, the lines to print and the action to perform. `None` means
/// that `state` does not wait for `event`; a finished workflow waits for
/// none.
pub fn update_step(pkg: &str, state: UpdateState, event: UpdateEvent) -> (step: Option<UpdateStep>)
    ensures
        step is Some <==> update_next(pkg@, state@, event@) is Some,
        step is Some ==> update_next(pkg@, state@, event@) == Some(step->0@),
{
    match state {
        UpdateState::Probing => match event {
            UpdateEvent::Probed(installed) => Some(after_probe(pkg, installed)),
            _ => None,
        },
        UpdateState::Querying { installed } => match event {
            UpdateEvent::Metadata(remote) => Some(after_remote(pkg, installed.as_str(), remote)),
            _ => None,
        },
        UpdateState::Finished => None,
    }
}

/// A finished update waits for no event, so it takes no further action.
pub proof fn lemma_finished_update_is_over(pkg: Seq<char>, events: Seq<UpdateEventView>)
    ensures
        forall|e: UpdateEventView| update_next(pkg, UpdateStateView::Finished, e) is None,
        update_trace(pkg, UpdateStateView::Finished, events) == Seq::<UpdateActionView>::empty(),
{
}

/// An update of a package that is not installed takes one action and no
/// more: to exit, with code zero. The metadata service is never asked.
pub proof fn lemma_not_installed_ends_update(pkg: Seq<char>, later: Seq<UpdateEventView>)
    ensures
        next_after_probe(pkg, None).messages == seq![on_stdout(not_installed_line(pkg))],
        update_trace(
            pkg,
            UpdateStateView::Probing,
            seq![UpdateEventView::Probed(None)] + later,
        ) == seq![UpdateActionView::Exit { code: 0 }],
{
    let events = seq![UpdateEventView::Probed(None)] + later;
    assert(events[0] == UpdateEventView::Probed(None));
    assert(events.drop_first() =~= later);
    lemma_finished_update_is_over(pkg, later);
    assert(update_trace(pkg, UpdateStateView::Probing, events) =~= seq![
        UpdateActionView::Exit { code: 0 },
    ]);
}

/// Where the metadata service counts no record, an update of an installed
/// package asks the service and then exits with code zero. It never asks
/// for an install, whatever is reported to it afterwards.
pub proof fn lemma_unknown_package_ends_update(
    pkg: Seq<char>,
    installed: Seq<char>,
    reply: AurResponse,
    later: Seq<UpdateEventView>,
)
    requires
        reply.resultcount == 0,
    ensures
        update_trace(
            pkg,
            UpdateStateView::Probing,
            seq![
                UpdateEventView::Probed(Some(installed)),
                UpdateEventView::Metadata(reply.outcome()),
            ] + later,
        ) == seq![
            UpdateActionView::Query { url: query_url(pkg) },
            UpdateActionView::Exit { code: 0 },
        ],
{
    let second = UpdateEventView::Metadata(reply.outcome());
    let events = seq![UpdateEventView::Probed(Some(installed)), second] + later;
    let rest = seq![second] + later;
    assert(events[0] == UpdateEventView::Probed(Some(installed)));
    assert(events.drop_first() =~= rest);
    assert(rest[0] == second);
    assert(rest.drop_first() =~= later);
    lemma_finished_update_is_over(pkg, later);
    let querying = UpdateStateView::Querying { installed };
    assert(update_trace(pkg, querying, rest) =~= seq![UpdateActionView::Exit { code: 0 }]);
    assert(update_trace(pkg, UpdateStateView::Probing, events) =~= seq![
        UpdateActionView::Query { url: query_url(pkg) },
        UpdateActionView::Exit { code: 0 },
    ]);
}

/// The update itself never leaves with a code other than zero, and it is
/// over exactly when it exits or hands over to the install.
pub proof fn lemma_update_exits_with_zero(
    pkg: Seq<char>,
    state: UpdateStateView,
    event: UpdateEventView,
)
    requires
        update_next(pkg, state, event) is Some,
    ensures
        ({
            let step = update_next(pkg, state, event)->0;
            &&& step.action matches UpdateActionView::Exit { code } ==> code == 0
            &&& (step.state is Finished) <==> (step.action is Exit || step.action is Install)
        }),
{
}

/// An installed package that the service knows is installed again exactly
/// where the two versions are not the same text; where they are, the update
/// says so and exits.
pub proof fn lemma_install_iff_versions_differ(
    pkg: Seq<char>,
    installed: Seq<char>,
    name: Seq<char>,
    version: Seq<char>,
    description: Option<Seq<char>>,
)
    ensures
        ({
            let step = next_after_remote(
                pkg,
                installed,
                QueryResultView::Found { name, version, description },
            );
            &&& (step.action is Install) <==> installed != version
            &&& installed == version ==> step.action == UpdateActionView::Exit { code: 0 }
                && step.messages.last() == on_stdout(up_to_date_line(pkg))
        }),
{
}

/// A version with one more character at its end, a space for one, is
/// another version.
pub proof fn lemma_one_more_character_differs(version: Seq<char>, c: char)
    ensures
        !same_version(version, version.push(c)),
        !same_version(version.push(c), version),
{
    assert(version.push(c).len() == version.len() + 1);
}

/// The last step of an update is the one that its trace ends with.
pub proof fn lemma_update_outcome_ends_trace(
    pkg: Seq<char>,
    installed: Option<Seq<char>>,
    remote: QueryResultView,
)
    ensures
        update_trace(
            pkg,
            UpdateStateView::Probing,
            seq![UpdateEventView::Probed(installed), UpdateEventView::Metadata(remote)],
        ).last() == update_outcome(pkg, installed, remote).action,
{
    let second = UpdateEventView::Metadata(remote);
    let events = seq![UpdateEventView::Probed(installed), second];
    let rest = seq![second];
    assert(events.drop_first() =~= rest);
    assert(rest.drop_first() =~= Seq::<UpdateEventView>::empty());
    match installed {
        None => {
            lemma_finished_update_is_over(pkg, rest);
            assert(update_trace(pkg, UpdateStateView::Probing, events) =~= seq![
                next_after_probe(pkg, installed).action,
            ]);
        },
        Some(version) => {
            let querying = UpdateStateView::Querying { installed: version };
            let last = next_after_remote(pkg, version, remote);
            lemma_finished_update_is_over(pkg, Seq::<UpdateEventView>::empty());
            assert(update_trace(pkg, last.state, rest.drop_first()) =~= Seq::<
                UpdateActionView,
            >::empty());
            assert(update_trace(pkg, querying, rest) =~= seq![last.action]);
            assert(update_trace(pkg, UpdateStateView::Probing, events) =~= seq![
                UpdateActionView::Query { url: query_url(pkg) },
                last.action,
            ]);
        },
    }
}

/// Updating twice is the same as updating once. Where the installed
/// version is the one that the service reports, an update ends on "already
/// up to date" and asks for no install, so the installed version is the
/// same afterwards; a second update, given the same answer of the service,
/// ends as the first did.
pub proof fn lemma_update_twice(pkg: Seq<char>, installed: Seq<char>, remote: QueryResultView)
    requires
        (remote matches QueryResultView::Found { version, .. } && same_version(installed, version)),
    ensures
        ({
            let first = update_outcome(pkg, Some(installed), remote);
            let then_installed = installed_after(Some(installed), first);
            &&& first.action == UpdateActionView::Exit { code: 0 }
            &&& first.messages.last() == on_stdout(up_to_date_line(pkg))
            &&& then_installed == Some(Some(installed))
            &&& update_outcome(pkg, then_installed->0, remote) == first
        }),
{
}

} // verus!
