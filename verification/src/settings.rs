//! Host-supplied, fully resolved configuration values, and the immutable
//! process identity context that planning and execution read.

use vstd::prelude::*;

verus! {

/// Process-wide identity facts, resolved once at process start and passed
/// to planning and execute functions as immutable context.
#[derive(Debug)]
pub struct HostContext {
    pub uid: u32,
    pub username: String,
    pub home: String,
}

/// A URL, reduced to what the engine reads of it: its scheme and the rest
/// of its text.
#[derive(Debug)]
pub struct Url {
    pub scheme: String,
    pub rest: String,
}

/// A URL at the specification level.
#[verifier::ext_equal]
pub struct UrlV {
    pub scheme: Seq<char>,
    pub rest: Seq<char>,
}

impl View for Url {
    type V = UrlV;

    open spec fn view(&self) -> UrlV {
        UrlV { scheme: self.scheme@, rest: self.rest@ }
    }
}

/// Where the package archive comes from.
#[derive(Debug)]
pub enum UrlOrPath {
    Url(Url),
    Path(String),
}

/// An archive source at the specification level.
#[verifier::ext_equal]
pub enum UrlOrPathV {
    Url(UrlV),
    Path(Seq<char>),
}

impl View for UrlOrPath {
    type V = UrlOrPathV;

    open spec fn view(&self) -> UrlOrPathV {
        match self {
            UrlOrPath::Url(u) => UrlOrPathV::Url(u@),
            UrlOrPath::Path(p) => UrlOrPathV::Path(p@),
        }
    }
}

/// The resolved settings a host hands to the top-level planning functions.
///
/// Extra configuration stanzas arrive already fetched: resolving a URL or
/// a file into text is the host's concern.
pub struct CommonSettings {
    pub nix_package_url: UrlOrPath,
    pub proxy: Option<Url>,
    pub ssl_cert_file: Option<String>,
    pub nix_build_group_name: String,
    pub extra_conf: Vec<String>,
    pub force: bool,
}

/// Which init system the host runs.
#[derive(Clone, Copy, Debug, PartialEq, Eq, Structural)]
pub enum InitSystem {
    /// macOS launchd.
    Launchd,
    /// systemd.
    Systemd,
    /// No init system is managed.
    NoInit,
}

/// Where the archive is unpacked before its store is moved into place.
pub open spec fn spec_scratch_dir() -> Seq<char> {
    "/nix/temp-install"@
}

/// Where the archive is unpacked before its store is moved into place.
pub fn scratch_dir() -> (r: &'static str)
    ensures
        r@ == spec_scratch_dir(),
{
    "/nix/temp-install"
}

/// Where the store tree finally lives.
pub open spec fn spec_nix_dest() -> Seq<char> {
    "/nix"@
}

/// Where the store tree finally lives.
pub fn nix_dest() -> (r: &'static str)
    ensures
        r@ == spec_nix_dest(),
{
    "/nix"
}

} // verus!
