//! From the answer of a package query to the metadata that the binding
//! generator needs.

use crate::flags::{CcFlag, CcFlags, FlagView};
use vstd::prelude::*;
use vstd::std_specs::convert::FromSpecImpl;

verus! {

/// The name under which the package registry knows the library.
pub const PACKAGE_NAME: &'static str = "libdftb+";

/// The header of the library's public API, as it stands in an inclusion
/// directive.
pub const HEADER: &'static str = "dftbplus.h";

/// What is asked of the package registry.
#[derive(Debug, Clone)]
pub struct ProbeRequest {
    /// The package to look for.
    pub package: &'static str,
    /// Whether the library is to be linked statically.
    pub statik: bool,
}

/// The query that the build makes: the DFTB+ package, linked statically.
pub fn probe_request() -> (request: ProbeRequest)
    ensures
        request.package@ == PACKAGE_NAME@,
        request.statik,
{
    ProbeRequest { package: PACKAGE_NAME, statik: true }
}

/// A preprocessor definition as the registry reports it: a name, and a value
/// where one is given.
pub open spec fn define_view(define: (String, Option<String>)) -> (Seq<char>, Option<Seq<char>>) {
    (
        define.0@,
        match define.1 {
            Some(value) => Some(value@),
            None => None,
        },
    )
}

/// The part of a package query's answer that the build reads.
#[derive(Debug, Clone)]
pub struct Package {
    /// Header search paths, in the order of the answer.
    pub include_paths: Vec<String>,
    /// Preprocessor definitions, in the order of the answer.
    pub defines: Vec<(String, Option<String>)>,
}

/// The mathematical value of a [`Package`].
pub struct PackageView {
    pub include_paths: Seq<Seq<char>>,
    pub defines: Seq<(Seq<char>, Option<Seq<char>>)>,
}

impl View for Package {
    type V = PackageView;

    open spec fn view(&self) -> PackageView {
        PackageView {
            include_paths: Seq::new(self.include_paths@.len(), |i: int| self.include_paths@[i]@),
            defines: Seq::new(self.defines@.len(), |i: int| define_view(self.defines@[i])),
        }
    }
}

/// Why the package could not be used. It carries the message of the tool that
/// made the query and nothing else.
#[derive(Debug, Clone)]
pub enum ProbeError {
    PkgConfig(String),
}

impl View for ProbeError {
    type V = Seq<char>;

    open spec fn view(&self) -> Seq<char> {
        match self {
            ProbeError::PkgConfig(message) => message@,
        }
    }
}

impl From<String> for ProbeError {
    fn from(message: String) -> (error: ProbeError) {
        ProbeError::PkgConfig(message)
    }
}

impl FromSpecImpl<String> for ProbeError {
    open spec fn obeys_from_spec() -> bool {
        true
    }

    open spec fn from_spec(message: String) -> ProbeError {
        ProbeError::PkgConfig(message)
    }
}

impl ProbeError {
    /// The message of the failed query.
    pub fn to_string(&self) -> (out: String)
        ensures
            out@ == self@,
    {
        match self {
            ProbeError::PkgConfig(message) => message.clone(),
        }
    }
}

/// Information discovered during the build that the binding generator needs.
#[derive(Debug, Clone)]
pub struct BuildMeta {
    /// Path for an inclusion directive.
    pub header: &'static str,
    /// A bunch of `-I` arguments.
    pub include_dirs: CcFlags,
    /// A bunch of `-D` arguments.
    pub defines: CcFlags,
}

/// The mathematical value of a [`BuildMeta`].
pub struct BuildMetaView {
    pub header: Seq<char>,
    pub include_dirs: Seq<FlagView>,
    pub defines: Seq<FlagView>,
}

impl View for BuildMeta {
    type V = BuildMetaView;

    open spec fn view(&self) -> BuildMetaView {
        BuildMetaView {
            header: self.header@,
            include_dirs: self.include_dirs@,
            defines: self.defines@,
        }
    }
}

/// One header search flag per path, in the paths' order.
pub open spec fn include_flags(paths: Seq<Seq<char>>) -> Seq<FlagView> {
    Seq::new(paths.len(), |i: int| FlagView::IncludeDir(paths[i]))
}

/// One definition flag per definition, in the definitions' order.
pub open spec fn define_flags(defines: Seq<(Seq<char>, Option<Seq<char>>)>) -> Seq<FlagView> {
    Seq::new(defines.len(), |i: int| FlagView::Define(defines[i].0, defines[i].1))
}

/// The metadata that a package gives rise to.
pub open spec fn metadata_of(package: PackageView) -> BuildMetaView {
    BuildMetaView {
        header: HEADER@,
        include_dirs: include_flags(package.include_paths),
        defines: define_flags(package.defines),
    }
}

/// What the build makes of a query's outcome: the metadata of the package that
/// was found, or the query's own message as an error.
pub open spec fn probe_result(outcome: Result<Package, String>) -> Result<
    BuildMetaView,
    Seq<char>,
> {
    match outcome {
        Ok(package) => Ok(metadata_of(package@)),
        Err(message) => Err(message@),
    }
}

fn include_flags_of(paths: &Vec<String>) -> (flags: CcFlags)
    ensures
        flags@ == include_flags(Seq::new(paths@.len(), |i: int| paths@[i]@)),
{
    let mut flags: Vec<CcFlag> = Vec::new();
    let mut i: usize = 0;
    while i < paths.len()
        invariant
            i <= paths@.len(),
            flags@.len() == i,
            forall|k: int| 0 <= k < i ==> (#[trigger] flags@[k])@ == FlagView::IncludeDir(paths@[k]@),
        decreases paths@.len() - i,
    {
        flags.push(CcFlag::IncludeDir(paths[i].clone()));
        i += 1;
    }
    let flags = CcFlags(flags);
    proof {
        assert(flags@ =~= include_flags(Seq::new(paths@.len(), |i: int| paths@[i]@)));
    }
    flags
}

fn define_flags_of(defines: &Vec<(String, Option<String>)>) -> (flags: CcFlags)
    ensures
        flags@ == define_flags(Seq::new(defines@.len(), |i: int| define_view(defines@[i]))),
{
    let mut flags: Vec<CcFlag> = Vec::new();
    let mut i: usize = 0;
    while i < defines.len()
        invariant
            i <= defines@.len(),
            flags@.len() == i,
            forall|k: int|
                0 <= k < i ==> (#[trigger] flags@[k])@ == FlagView::Define(
                    define_view(defines@[k]).0,
                    define_view(defines@[k]).1,
                ),
        decreases defines@.len() - i,
    {
        let define = &defines[i];
        let flag = match &define.1 {
            Some(value) => CcFlag::Define(define.0.clone(), Some(value.clone())),
            None => CcFlag::Define(define.0.clone(), None),
        };
        flags.push(flag);
        i += 1;
    }
    let flags = CcFlags(flags);
    proof {
        assert(flags@ =~= define_flags(
            Seq::new(defines@.len(), |i: int| define_view(defines@[i])),
        ));
    }
    flags
}

/// Turns the outcome of a query made through pkg-config into build metadata.
///
/// Every header search path of the answer becomes an `-I` flag and every
/// definition a `-D` flag, each list in the answer's order. A failed query is
/// handed on as a [`ProbeError`] with the query's message: nothing is retried
/// or recovered.
pub fn probe_and_link_via_pkgconfig(outcome: Result<Package, String>) -> (result: Result<
    BuildMeta,
    ProbeError,
>)
    ensures
        match probe_result(outcome) {
            Ok(meta) => result is Ok && result->Ok_0@ == meta,
            Err(message) => result is Err && result->Err_0@ == message,
        },
{
    match outcome {
        Ok(package) => {
            let include_dirs = include_flags_of(&package.include_paths);
            let defines = define_flags_of(&package.defines);
            Ok(BuildMeta { header: HEADER, include_dirs, defines })
        },
        Err(message) => Err(ProbeError::from(message)),
    }
}

/// Turns the outcome of the package query into build metadata, by the one
/// registry that is supported.
pub fn probe_and_link(outcome: Result<Package, String>) -> (result: Result<BuildMeta, ProbeError>)
    ensures
        match probe_result(outcome) {
            Ok(meta) => result is Ok && result->Ok_0@ == meta,
            Err(message) => result is Err && result->Err_0@ == message,
        },
{
    probe_and_link_via_pkgconfig(outcome)
}

} // verus!
