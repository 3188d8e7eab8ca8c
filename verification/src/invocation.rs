//! Command lines of the tools that the helper runs.

use vstd::prelude::*;
use crate::text::texts;

verus! {

/// A program and the arguments it is started with.
#[derive(Clone, Debug, PartialEq, Eq)]
pub struct Invocation {
    pub program: String,
    pub args: Vec<String>,
}

/// The model of an [`Invocation`].
pub ghost struct InvocationView {
    pub program: Seq<char>,
    pub args: Seq<Seq<char>>,
}

impl View for Invocation {
    type V = InvocationView;

    open spec fn view(&self) -> InvocationView {
        InvocationView { program: self.program@, args: texts(self.args@) }
    }
}

/// How the package database is asked whether `pkg` is installed.
pub open spec fn probe_invocation(pkg: Seq<char>) -> InvocationView {
    InvocationView { program: "pacman"@, args: seq!["-Q"@, pkg] }
}

/// How the build scripts of the package `name` are cloned. The caller adds
/// the directory to clone into as the last argument.
pub open spec fn clone_invocation(name: Seq<char>) -> InvocationView {
    InvocationView { program: "git"@, args: seq!["clone"@, clone_url(name)] }
}

/// Where the build scripts of the package `name` are kept.
pub open spec fn clone_url(name: Seq<char>) -> Seq<char> {
    "https://aur.archlinux.org/"@ + name + ".git"@
}

/// How the build tool is started in the cloned directory: build and
/// install, ask nothing, and skip the signature check only if `skip_pgp`.
pub open spec fn build_invocation(skip_pgp: bool) -> InvocationView {
    InvocationView {
        program: "makepkg"@,
        args: if skip_pgp {
            seq!["-si"@, "--noconfirm"@, "--skippgpcheck"@]
        } else {
            seq!["-si"@, "--noconfirm"@]
        },
    }
}

/// How `pkg` is removed, together with the dependencies that nothing else
/// needs, with elevated privileges and without questions.
pub open spec fn removal_invocation(pkg: Seq<char>) -> InvocationView {
    InvocationView { program: "sudo"@, args: seq!["pacman"@, "-Rns"@, pkg] }
}

/// Adds a copy of `arg` at the end of `args`.
fn push_arg(args: &mut Vec<String>, arg: &str)
    ensures
        texts(final(args)@) == texts(old(args)@).push(arg@),
{
    args.push(arg.to_owned());
    assert(texts(args@) =~= texts(old(args)@).push(arg@));
}

/// Builds the command line that asks the package database for `pkg`.
pub fn probe_command(pkg: &str) -> (inv: Invocation)
    ensures
        inv@ == probe_invocation(pkg@),
{
    let mut args: Vec<String> = Vec::new();
    assert(texts(args@) =~= Seq::empty());
    push_arg(&mut args, "-Q");
    push_arg(&mut args, pkg);
    assert(texts(args@) =~= seq!["-Q"@, pkg@]);
    Invocation { program: "pacman".to_owned(), args }
}

/// Builds the address of the build scripts of the package `name`.
pub fn clone_url_for(name: &str) -> (url: String)
    ensures
        url@ == clone_url(name@),
{
    crate::message::join3("https://aur.archlinux.org/", name, ".git")
}

/// Builds the command line that clones the build scripts of `name`, up to
/// the directory to clone into.
pub fn clone_command(name: &str) -> (inv: Invocation)
    ensures
        inv@ == clone_invocation(name@),
{
    let url = clone_url_for(name);
    let mut args: Vec<String> = Vec::new();
    assert(texts(args@) =~= Seq::empty());
    push_arg(&mut args, "clone");
    push_arg(&mut args, url.as_str());
    assert(texts(args@) =~= seq!["clone"@, clone_url(name@)]);
    Invocation { program: "git".to_owned(), args }
}

/// Builds the command line of the build tool.
pub fn build_command(skip_pgp: bool) -> (inv: Invocation)
    ensures
        inv@ == build_invocation(skip_pgp),
{
    let mut args: Vec<String> = Vec::new();
    assert(texts(args@) =~= Seq::empty());
    push_arg(&mut args, "-si");
    push_arg(&mut args, "--noconfirm");
    if skip_pgp {
        push_arg(&mut args, "--skippgpcheck");
        assert(texts(args@) =~= seq!["-si"@, "--noconfirm"@, "--skippgpcheck"@]);
    } else {
        assert(texts(args@) =~= seq!["-si"@, "--noconfirm"@]);
    }
    Invocation { program: "makepkg".to_owned(), args }
}

/// Builds the command line that removes `pkg`.
pub fn removal_command(pkg: &str) -> (inv: Invocation)
    ensures
        inv@ == removal_invocation(pkg@),
{
    let mut args: Vec<String> = Vec::new();
    assert(texts(args@) =~= Seq::empty());
    push_arg(&mut args, "pacman");
    push_arg(&mut args, "-Rns");
    push_arg(&mut args, pkg);
    assert(texts(args@) =~= seq!["pacman"@, "-Rns"@, pkg@]);
    Invocation { program: "sudo".to_owned(), args }
}

} // verus!
