//! The reply of the metadata service and what it means for one package.

use vstd::prelude::*;
use crate::message::join2;
use crate::text::opt_text;

verus! {

/// One package record of the metadata service.
#[derive(Clone, Debug, PartialEq, Eq)]
pub struct PackageInfo {
    pub name: String,
    pub version: String,
    pub description: Option<String>,
}

/// The model of a [`PackageInfo`].
pub ghost struct PackageInfoView {
    pub name: Seq<char>,
    pub version: Seq<char>,
    pub description: Option<Seq<char>>,
}

impl View for PackageInfo {
    type V = PackageInfoView;

    open spec fn view(&self) -> PackageInfoView {
        PackageInfoView {
            name: self.name@,
            version: self.version@,
            description: opt_text(self.description),
        }
    }
}

/// The envelope in which the metadata service answers: how many records it
/// found, and the records.
#[derive(Clone, Debug, PartialEq, Eq)]
pub struct AurResponse {
    pub resultcount: u32,
    pub results: Vec<PackageInfo>,
}

/// The outcome of looking one package up.
#[derive(Clone, Debug, PartialEq, Eq)]
pub enum PackageQueryResult {
    /// The service knows the package.
    Found { name: String, version: String, description: Option<String> },
    /// The service has no package of that name.
    NotFound,
}

/// The model of a [`PackageQueryResult`].
pub ghost enum QueryResultView {
    Found { name: Seq<char>, version: Seq<char>, description: Option<Seq<char>> },
    NotFound,
}

impl View for PackageQueryResult {
    type V = QueryResultView;

    open spec fn view(&self) -> QueryResultView {
        match self {
            PackageQueryResult::Found { name, version, description } => QueryResultView::Found {
                name: name@,
                version: version@,
                description: opt_text(*description),
            },
            PackageQueryResult::NotFound => QueryResultView::NotFound,
        }
    }
}

/// What stands before the package name in the address of a lookup.
pub open spec fn query_url_prefix() -> Seq<char> {
    "https://aur.archlinux.org/rpc/?v=5&type=info&arg="@
}

/// The address at which the metadata service is asked for `pkg`.
pub open spec fn query_url(pkg: Seq<char>) -> Seq<char> {
    query_url_prefix() + pkg
}

/// A copy of an optional string.
pub fn copy_opt(o: &Option<String>) -> (c: Option<String>)
    ensures
        opt_text(c) == opt_text(*o),
{
    match o {
        Some(s) => Some(s.clone()),
        None => None,
    }
}

/// Builds the address at which the metadata service is asked for `pkg`.
pub fn query_url_for(pkg: &str) -> (url: String)
    ensures
        url@ == query_url(pkg@),
{
    join2("https://aur.archlinux.org/rpc/?v=5&type=info&arg=", pkg)
}

impl AurResponse {
    /// Whether the records are there that the count announces: an envelope
    /// that counts at least one record holds at least one.
    pub open spec fn consistent(&self) -> bool {
        self.resultcount != 0 ==> self.results@.len() > 0
    }

    /// What the envelope means for the package that was asked for.
    pub open spec fn outcome(&self) -> QueryResultView {
        if self.resultcount == 0 {
            QueryResultView::NotFound
        } else {
            let first = self.results@[0]@;
            QueryResultView::Found {
                name: first.name,
                version: first.version,
                description: first.description,
            }
        }
    }

    /// Tells whether the records are there that the count announces.
    pub fn is_consistent(&self) -> (b: bool)
        ensures
            b == self.consistent(),
    {
        self.resultcount == 0 || self.results.len() > 0
    }

    /// Reads the envelope: a count of zero means that the package was not
    /// found, whatever the list holds; otherwise the first record is the
    /// package, and the records after it are ignored.
    pub fn classify(&self) -> (r: PackageQueryResult)
        requires
            self.consistent(),
        ensures
            r@ == self.outcome(),
            self.resultcount == 0 <==> r is NotFound,
    {
        if self.resultcount == 0 {
            PackageQueryResult::NotFound
        } else {
            let info = &self.results[0];
            PackageQueryResult::Found {
                name: info.name.clone(),
                version: info.version.clone(),
                description: copy_opt(&info.description),
            }
        }
    }

    /// Reads the envelope if it is consistent; `None` if it is not.
    pub fn try_classify(&self) -> (r: Option<PackageQueryResult>)
        ensures
            r is Some <==> self.consistent(),
            r is Some ==> r->0@ == self.outcome(),
    {
        if self.is_consistent() {
            Some(self.classify())
        } else {
            None
        }
    }
}

} // verus!
