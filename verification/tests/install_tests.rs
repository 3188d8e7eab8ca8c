use raur::install::{
    after_build, after_clone, after_metadata, cloning_notice, install_begin, install_step,
    BuildOutcome, InstallAction, InstallEvent, InstallState, InstallStep,
};
use raur::invocation::{build_command, clone_command, clone_url_for, removal_command, Invocation};
use raur::message::{join2, join3, push_message, Message, Stream};
use raur::metadata::{AurResponse, PackageQueryResult};
use raur::remove::removal_notice;

fn out(text: &str) -> Message {
    Message { stream: Stream::Stdout, text: text.to_string() }
}

fn err(text: &str) -> Message {
    Message { stream: Stream::Stderr, text: text.to_string() }
}

fn found(name: &str, version: &str, description: Option<&str>) -> PackageQueryResult {
    PackageQueryResult::Found {
        name: name.to_string(),
        version: version.to_string(),
        description: description.map(|d| d.to_string()),
    }
}

fn failure(text: &str) -> BuildOutcome {
    BuildOutcome::Failure { captured_stderr: text.to_string() }
}

#[test]
fn install_begins_with_a_query() {
    let step = install_begin("foo-bin");
    assert_eq!(
        step,
        InstallStep {
            state: InstallState::Querying,
            messages: vec![out("Checking AUR for `foo-bin`...")],
            action: InstallAction::Query {
                url: "https://aur.archlinux.org/rpc/?v=5&type=info&arg=foo-bin".to_string(),
            },
        }
    );
}

#[test]
fn unknown_package_ends_install_with_zero() {
    let reply = AurResponse { resultcount: 0, results: vec![] };
    let step = after_metadata("nope", reply.classify());
    assert_eq!(
        step,
        InstallStep {
            state: InstallState::Finished,
            messages: vec![err("Package `nope` not found in the AUR.")],
            action: InstallAction::Exit { code: 0 },
        }
    );
    assert_eq!(
        install_step("nope", false, step.state, InstallEvent::CloneExited { success: true }),
        None
    );
}

#[test]
fn found_package_is_presented_and_cloned() {
    let step = after_metadata("foo", found("foo-bin", "1.0-2", Some("Foo, prebuilt")));
    assert_eq!(
        step,
        InstallStep {
            state: InstallState::Cloning { name: "foo-bin".to_string() },
            messages: vec![out("Found `foo-bin` (v1.0-2): Foo, prebuilt")],
            action: InstallAction::Clone {
                command: Invocation {
                    program: "git".to_string(),
                    args: vec![
                        "clone".to_string(),
                        "https://aur.archlinux.org/foo-bin.git".to_string(),
                    ],
                },
                dir: "foo-bin".to_string(),
            },
        }
    );
}

#[test]
fn package_without_description_says_so() {
    let step = after_metadata("foo", found("foo", "2", None));
    assert_eq!(step.messages, vec![out("Found `foo` (v2): No description")]);
}

#[test]
fn failed_clone_ends_without_diagnosis() {
    let step = after_clone("foo".to_string(), false, false);
    assert_eq!(
        step,
        InstallStep {
            state: InstallState::Finished,
            messages: vec![err("`git clone` failed")],
            action: InstallAction::Exit { code: 0 },
        }
    );
}

#[test]
fn successful_clone_leads_to_the_build() {
    let step = after_clone("foo".to_string(), true, false);
    assert_eq!(
        step,
        InstallStep {
            state: InstallState::Building { name: "foo".to_string() },
            messages: vec![out("Running `makepkg -si`...")],
            action: InstallAction::Build {
                command: Invocation {
                    program: "makepkg".to_string(),
                    args: vec!["-si".to_string(), "--noconfirm".to_string()],
                },
                dir: "foo".to_string(),
            },
        }
    );
}

#[test]
fn signature_check_is_skipped_on_request_only() {
    assert_eq!(build_command(false).args, vec!["-si", "--noconfirm"]);
    assert_eq!(build_command(true).args, vec!["-si", "--noconfirm", "--skippgpcheck"]);
    assert_eq!(build_command(true).program, "makepkg");
    match after_clone("foo".to_string(), true, true).action {
        InstallAction::Build { command, dir } => {
            assert_eq!(command, build_command(true));
            assert_eq!(dir, "foo");
        },
        other => panic!("unexpected action {:?}", other),
    }
}

#[test]
fn successful_build_ends_with_zero() {
    let step = after_build("foo".to_string(), BuildOutcome::Success);
    assert_eq!(
        step,
        InstallStep {
            state: InstallState::Finished,
            messages: vec![out("Done installing `foo`!")],
            action: InstallAction::Exit { code: 0 },
        }
    );
}

#[test]
fn failed_build_without_marker_gives_only_the_report() {
    let step = after_build("foo".to_string(), failure("==> ERROR: A failure occurred in build().\n"));
    assert_eq!(
        step,
        InstallStep {
            state: InstallState::Finished,
            messages: vec![err("`makepkg` failed for `foo`")],
            action: InstallAction::Exit { code: 1 },
        }
    );
}

#[test]
fn failed_build_with_key_names_the_key() {
    let text = "    foo.sig ... FAILED (unknown public key ABCDEF0123456789AB)\n==> ERROR: One or more PGP signatures could not be verified!\n";
    let step = after_build("foo".to_string(), failure(text));
    assert_eq!(step.state, InstallState::Finished);
    assert_eq!(step.action, InstallAction::Exit { code: 1 });
    assert_eq!(
        step.messages,
        vec![
            err("`makepkg` failed for `foo`"),
            err("PGP error! You might need to import the missing GPG key manually or skip PGP check"),
            err("Try running:\n    A. `gpg --recv-keys ABCDEF0123456789AB`\n    B. `raur install --skip-pgp-check`"),
        ]
    );
}

#[test]
fn failed_build_without_key_uses_the_placeholder() {
    let text = "==> ERROR: One or more PGP signatures could not be verified!\n";
    let step = after_build("foo".to_string(), failure(text));
    assert_eq!(step.action, InstallAction::Exit { code: 1 });
    assert_eq!(
        step.messages,
        vec![
            err("`makepkg` failed for `foo`"),
            err("PGP error! You might need to import the missing GPG key manually or skip PGP check"),
            err("Try running:\n    A. `gpg --recv-keys <KEY>`\n    B. `raur install --skip-pgp-check`"),
        ]
    );
}

#[test]
fn install_runs_from_query_to_exit() {
    let first = install_begin("foo");
    let second = install_step("foo", true, first.state, InstallEvent::Metadata(found("foo", "1", None)))
        .expect("a query waits for metadata");
    assert_eq!(second.state, InstallState::Cloning { name: "foo".to_string() });
    let third = install_step("foo", true, second.state, InstallEvent::CloneExited { success: true })
        .expect("a clone waits for its exit");
    assert_eq!(third.state, InstallState::Building { name: "foo".to_string() });
    let last = install_step("foo", true, third.state, InstallEvent::BuildExited(BuildOutcome::Success))
        .expect("a build waits for its exit");
    assert_eq!(last.state, InstallState::Finished);
    assert_eq!(last.action, InstallAction::Exit { code: 0 });
}

#[test]
fn events_out_of_turn_are_refused() {
    let meta = InstallEvent::Metadata(PackageQueryResult::NotFound);
    let cloned = InstallEvent::CloneExited { success: true };
    let built = InstallEvent::BuildExited(BuildOutcome::Success);
    let cloning = InstallState::Cloning { name: "foo".to_string() };
    let building = InstallState::Building { name: "foo".to_string() };
    assert_eq!(install_step("foo", false, InstallState::Querying, cloned.clone()), None);
    assert_eq!(install_step("foo", false, InstallState::Querying, built.clone()), None);
    assert_eq!(install_step("foo", false, cloning.clone(), meta.clone()), None);
    assert_eq!(install_step("foo", false, cloning, built.clone()), None);
    assert_eq!(install_step("foo", false, building.clone(), meta.clone()), None);
    assert_eq!(install_step("foo", false, building, cloned.clone()), None);
    assert_eq!(install_step("foo", false, InstallState::Finished, meta), None);
    assert_eq!(install_step("foo", false, InstallState::Finished, cloned), None);
    assert_eq!(install_step("foo", false, InstallState::Finished, built), None);
}

#[test]
fn clone_command_names_the_repository() {
    assert_eq!(clone_url_for("foo-bin"), "https://aur.archlinux.org/foo-bin.git");
    let c = clone_command("foo-bin");
    assert_eq!(c.program, "git");
    assert_eq!(c.args, vec!["clone", "https://aur.archlinux.org/foo-bin.git"]);
}

#[test]
fn cloning_notice_names_the_path() {
    assert_eq!(cloning_notice("/tmp/x/foo"), out("Cloning into temp directory: /tmp/x/foo"));
}

#[test]
fn removal_is_delegated_and_reported() {
    let c = removal_command("foo");
    assert_eq!(c.program, "sudo");
    assert_eq!(c.args, vec!["pacman", "-Rns", "foo"]);
    assert_eq!(removal_notice("foo", true), out("Package `foo` removed successfully!"));
    assert_eq!(removal_notice("foo", false), err("Failed to remove package `foo`"));
}

#[test]
fn messages_are_joined_and_collected() {
    assert_eq!(join2("ab", "cd"), "abcd");
    assert_eq!(join3("a", "", "b"), "ab");
    assert_eq!(Message::stdout("x".to_string()), out("x"));
    assert_eq!(Message::stderr("x".to_string()), err("x"));
    let mut list = vec![out("one")];
    push_message(&mut list, err("two"));
    assert_eq!(list, vec![out("one"), err("two")]);
}
