use raur::invocation::Invocation;
use raur::message::{Message, Stream};
use raur::metadata::{AurResponse, PackageQueryResult};
use raur::prober::parse_installed_version;
use raur::update::{
    after_probe, after_remote, update_begin, update_step, versions_match, UpdateAction,
    UpdateEvent, UpdateState, UpdateStep,
};

fn out(text: &str) -> Message {
    Message { stream: Stream::Stdout, text: text.to_string() }
}

fn err(text: &str) -> Message {
    Message { stream: Stream::Stderr, text: text.to_string() }
}

fn found(version: &str) -> PackageQueryResult {
    PackageQueryResult::Found {
        name: "foo".to_string(),
        version: version.to_string(),
        description: None,
    }
}

#[test]
fn update_begins_with_a_probe() {
    assert_eq!(
        update_begin("foo"),
        UpdateStep {
            state: UpdateState::Probing,
            messages: vec![out("Checking installed version for `foo`...")],
            action: UpdateAction::Probe {
                command: Invocation {
                    program: "pacman".to_string(),
                    args: vec!["-Q".to_string(), "foo".to_string()],
                },
            },
        }
    );
}

#[test]
fn update_of_missing_package_points_to_install() {
    let first = update_begin("foo-bin");
    let installed = parse_installed_version(false, "");
    let step = update_step("foo-bin", first.state, UpdateEvent::Probed(installed))
        .expect("a probe waits for its answer");
    assert_eq!(
        step,
        UpdateStep {
            state: UpdateState::Finished,
            messages: vec![out("`foo-bin` is not installed. Use `raur install foo-bin` instead")],
            action: UpdateAction::Exit { code: 0 },
        }
    );
    assert_eq!(
        update_step("foo-bin", step.state, UpdateEvent::Metadata(PackageQueryResult::NotFound)),
        None
    );
}

#[test]
fn installed_package_leads_to_a_query() {
    assert_eq!(
        after_probe("foo", Some("1.0-1".to_string())),
        UpdateStep {
            state: UpdateState::Querying { installed: "1.0-1".to_string() },
            messages: vec![out("Installed version: 1.0-1")],
            action: UpdateAction::Query {
                url: "https://aur.archlinux.org/rpc/?v=5&type=info&arg=foo".to_string(),
            },
        }
    );
}

#[test]
fn unknown_package_ends_update_with_zero() {
    let reply = AurResponse { resultcount: 0, results: vec![] };
    assert_eq!(
        after_remote("foo", "1.0-1", reply.classify()),
        UpdateStep {
            state: UpdateState::Finished,
            messages: vec![err("Package `foo` not found in AUR")],
            action: UpdateAction::Exit { code: 0 },
        }
    );
}

#[test]
fn same_version_is_up_to_date() {
    assert_eq!(
        after_remote("foo", "1.0-1", found("1.0-1")),
        UpdateStep {
            state: UpdateState::Finished,
            messages: vec![out("AUR version: 1.0-1"), out("`foo` is already up to date!")],
            action: UpdateAction::Exit { code: 0 },
        }
    );
}

#[test]
fn other_version_asks_for_an_install() {
    assert_eq!(
        after_remote("foo", "1.0-1", found("1.0-2")),
        UpdateStep {
            state: UpdateState::Finished,
            messages: vec![out("AUR version: 1.0-2"), out("Update available! Updating `foo`...")],
            action: UpdateAction::Install,
        }
    );
}

#[test]
fn older_remote_version_is_installed_too() {
    assert_eq!(after_remote("foo", "2.0", found("1.0")).action, UpdateAction::Install);
}

#[test]
fn updating_twice_ends_the_same_way() {
    let run = || {
        let first = update_begin("foo");
        let second =
            update_step("foo", first.state, UpdateEvent::Probed(Some("3.1-4".to_string())))
                .expect("a probe waits for its answer");
        update_step("foo", second.state, UpdateEvent::Metadata(found("3.1-4")))
            .expect("a query waits for metadata")
    };
    let once = run();
    let twice = run();
    assert_eq!(once.action, UpdateAction::Exit { code: 0 });
    assert_eq!(once.messages[1], out("`foo` is already up to date!"));
    assert_eq!(once, twice);
}

#[test]
fn versions_match_only_when_equal() {
    assert!(versions_match("1.0.0", "1.0.0"));
    assert!(versions_match("", ""));
    assert!(!versions_match("1.0.0", "1.0.0 "));
    assert!(!versions_match("1.0.0 ", "1.0.0"));
    assert!(!versions_match(" 1.0.0", "1.0.0"));
    assert!(!versions_match("1.0.0-RC1", "1.0.0-rc1"));
    assert!(!versions_match("1.0.0", "1.0.1"));
    assert!(!versions_match("1.0", "1.0.0"));
    assert!(!versions_match("", "1"));
}

#[test]
fn trailing_space_asks_for_an_install() {
    assert_eq!(after_remote("foo", "1.0.0", found("1.0.0 ")).action, UpdateAction::Install);
}

#[test]
fn update_events_out_of_turn_are_refused() {
    let probed = UpdateEvent::Probed(None);
    let meta = UpdateEvent::Metadata(PackageQueryResult::NotFound);
    let querying = UpdateState::Querying { installed: "1".to_string() };
    assert_eq!(update_step("foo", UpdateState::Probing, meta.clone()), None);
    assert_eq!(update_step("foo", querying, probed.clone()), None);
    assert_eq!(update_step("foo", UpdateState::Finished, probed), None);
    assert_eq!(update_step("foo", UpdateState::Finished, meta), None);
}
