//! Fetch the package archive and unpack it into the scratch directory.
//! The fetch itself is network and archive I/O the host performs; the
//! engine's part is validating the inputs at plan time.

use vstd::prelude::*;
use crate::action::{ActionState, StatefulAction};
use crate::errors::{ActionError, ActionErrorKind, ActionTag};
use crate::settings::{CommonSettings, Url, UrlOrPath};
use crate::strutil::copy_string;

verus! {

/// A scheme the fetcher can download from.
pub open spec fn valid_url_scheme(s: Seq<char>) -> bool {
    s == "https"@ || s == "http"@ || s == "file"@
}

/// A scheme the fetcher can proxy through.
pub open spec fn valid_proxy_scheme(s: Seq<char>) -> bool {
    s == "https"@ || s == "http"@ || s == "socks5"@
}

/// The archive URL's scheme is acceptable (a plain path always is).
pub open spec fn url_or_path_ok(u: UrlOrPath) -> bool {
    match u {
        UrlOrPath::Url(url) => valid_url_scheme(url.scheme@),
        UrlOrPath::Path(_) => true,
    }
}

/// The proxy's scheme is acceptable (no proxy always is).
pub open spec fn proxy_ok(p: Option<Url>) -> bool {
    match p {
        Some(url) => valid_proxy_scheme(url.scheme@),
        None => true,
    }
}

/// The proxy setting at the specification level.
pub open spec fn proxy_view(p: Option<Url>) -> Option<crate::settings::UrlV> {
    match p {
        Some(u) => Some(u@),
        None => None,
    }
}

/// Failures specific to fetching and unpacking the archive.
#[derive(Debug)]
pub enum FetchUrlError {
    /// Unarchiving failed; the message is kept for diagnosis.
    Unarchive(String),
    /// Only `https://`, `socks5://` and `http://` proxies are supported.
    UnknownProxyScheme,
}

impl FetchUrlError {
    /// Carry this failure through the engine's taxonomy.
    pub fn into_kind(self) -> (r: ActionErrorKind)
        ensures
            r is Custom,
    {
        match self {
            FetchUrlError::Unarchive(msg) => ActionErrorKind::Custom(msg),
            FetchUrlError::UnknownProxyScheme => ActionErrorKind::Custom(
                String::from_str(
                    "Unknown proxy scheme, `https://`, `socks5://`, and `http://` supported",
                ),
            ),
        }
    }
}

/// Fetch a URL and unpack it into the scratch directory.
#[derive(Debug)]
pub struct FetchAndUnpackNix {
    pub url_or_path: UrlOrPath,
    pub dest: String,
    pub proxy: Option<Url>,
    pub ssl_cert_file: Option<String>,
    pub nix_build_group_name: String,
}

impl FetchAndUnpackNix {
    /// Validate the archive URL and proxy schemes; the fetch itself is
    /// the execute phase's work.
    pub fn plan(settings: &CommonSettings) -> (r: Result<
        StatefulAction<FetchAndUnpackNix>,
        ActionError,
    >)
        ensures
            match r {
                Ok(w) => {
                    &&& url_or_path_ok(settings.nix_package_url)
                    &&& proxy_ok(settings.proxy)
                    &&& w.state == ActionState::Uncompleted
                    &&& w.action.url_or_path@ == settings.nix_package_url@
                    &&& w.action.dest@ == crate::settings::spec_scratch_dir()
                    &&& proxy_view(w.action.proxy) == proxy_view(settings.proxy)
                    &&& crate::nix_configuration::ssl_view(w.action.ssl_cert_file)
                        == crate::nix_configuration::ssl_view(settings.ssl_cert_file)
                    &&& w.action.nix_build_group_name@ == settings.nix_build_group_name@
                },
                Err(e) => {
                    &&& !(url_or_path_ok(settings.nix_package_url) && proxy_ok(settings.proxy))
                    &&& e.action_tag@ == "fetch_and_unpack_nix"@
                    &&& (!url_or_path_ok(settings.nix_package_url) ==> e.kind
                        is UnknownUrlScheme)
                    &&& (url_or_path_ok(settings.nix_package_url) ==> e.kind is Custom)
                },
            },
    {
        match &settings.nix_package_url {
            UrlOrPath::Url(url) => {
                let https = String::from_str("https");
                let http = String::from_str("http");
                let file = String::from_str("file");
                if !(url.scheme == https || url.scheme == http || url.scheme == file) {
                    return Err(ActionError::new(
                        ActionTag("fetch_and_unpack_nix"),
                        ActionErrorKind::UnknownUrlScheme,
                    ));
                }
            },
            UrlOrPath::Path(_) => {},
        }
        match &settings.proxy {
            Some(proxy) => {
                let https = String::from_str("https");
                let http = String::from_str("http");
                let socks5 = String::from_str("socks5");
                if !(proxy.scheme == https || proxy.scheme == http || proxy.scheme == socks5) {
                    return Err(ActionError::new(
                        ActionTag("fetch_and_unpack_nix"),
                        FetchUrlError::UnknownProxyScheme.into_kind(),
                    ));
                }
            },
            None => {},
        }
        let url_or_path = copy_url_or_path(&settings.nix_package_url);
        let proxy = match &settings.proxy {
            Some(u) => Some(copy_url(u)),
            None => None,
        };
        let ssl_cert_file = match &settings.ssl_cert_file {
            Some(p) => Some(copy_string(p)),
            None => None,
        };
        Ok(StatefulAction::uncompleted(FetchAndUnpackNix {
            url_or_path,
            dest: crate::settings::scratch_dir().to_owned(),
            proxy,
            ssl_cert_file,
            nix_build_group_name: copy_string(&settings.nix_build_group_name),
        }))
    }
}

/// An owned copy of a URL.
pub fn copy_url(u: &Url) -> (r: Url)
    ensures
        r@ == u@,
{
    Url { scheme: copy_string(&u.scheme), rest: copy_string(&u.rest) }
}

/// An owned copy of an archive source.
pub fn copy_url_or_path(u: &UrlOrPath) -> (r: UrlOrPath)
    ensures
        r@ == u@,
{
    match u {
        UrlOrPath::Url(url) => UrlOrPath::Url(copy_url(url)),
        UrlOrPath::Path(p) => UrlOrPath::Path(copy_string(p)),
    }
}

} // verus!
