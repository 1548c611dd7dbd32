//! The application model builder: turns a container summary into an
//! application descriptor and a per-container descriptor, applying the
//! label-parsing and default rules.
//!
//! A summary without the application-name label yields no descriptor of
//! either kind; with the label, the port label is mandatory and must be a
//! decimal number in 1..=65535, the visibility label defaults to local, and
//! the auth label defaults to none.

use crate::config::Config;
use crate::labels::spec_get;
use crate::strutil::{dec_val, is_valid_port, parse_bool, parse_port, str_eq};
use crate::summary::ContainerSummary;
use vstd::prelude::*;

verus! {

/// Which access-control behavior a proxy route should apply.
#[derive(Debug)]
pub enum CaddyAuthType {
    Oidc,
    TrustedHeaders,
    Unknown(String),
    NoAuth,
}

/// Mandatory application metadata was missing or unparseable; fatal.
#[derive(PartialEq, Eq, Structural, Clone, Copy, Debug)]
pub enum BuildError {
    MissingPort,
    InvalidPort,
    InvalidExternal,
}

/// One backing container of an application: id, display name, and the
/// network hostname the proxy targets (the display name).
#[derive(Debug)]
pub struct AppContainerData {
    pub container_id: String,
    pub container_name: String,
    pub hostname: String,
}

/// An application: name, backing containers in insertion order, backend
/// port, visibility and auth mode.
#[derive(Debug)]
pub struct AppData {
    pub app_name: String,
    pub containers: Vec<AppContainerData>,
    pub port: u16,
    pub external: bool,
    pub auth_type: CaddyAuthType,
}

/// The application name a summary's labels declare, if any.
pub open spec fn spec_app_name(s: ContainerSummary, cfg: Config) -> Option<Seq<char>> {
    match s.labels {
        Some(m) => spec_get(m.entries@, cfg.app_name_label@),
        None => None,
    }
}

pub open spec fn spec_port_label(s: ContainerSummary, cfg: Config) -> Option<Seq<char>> {
    match s.labels {
        Some(m) => spec_get(m.entries@, cfg.port_label@),
        None => None,
    }
}

pub open spec fn spec_external_label(s: ContainerSummary, cfg: Config) -> Option<Seq<char>> {
    match s.labels {
        Some(m) => spec_get(m.entries@, cfg.external_label@),
        None => None,
    }
}

pub open spec fn spec_auth_label(s: ContainerSummary, cfg: Config) -> Option<Seq<char>> {
    match s.labels {
        Some(m) => spec_get(m.entries@, cfg.auth_label@),
        None => None,
    }
}

/// Whether a summary that names an application also carries valid mandatory
/// and optional labels, so that building a descriptor succeeds.
pub open spec fn spec_builds_ok(s: ContainerSummary, cfg: Config) -> bool {
    &&& spec_port_label(s, cfg) matches Some(p) && is_valid_port(p)
    &&& (spec_external_label(s, cfg) matches Some(e) ==> (e == "true"@ || e == "false"@))
}

/// Which error building reports when `spec_builds_ok` fails; the port is
/// checked before the visibility flag.
pub open spec fn spec_build_error(s: ContainerSummary, cfg: Config) -> BuildError {
    if spec_port_label(s, cfg) is None {
        BuildError::MissingPort
    } else if !is_valid_port(spec_port_label(s, cfg)->0) {
        BuildError::InvalidPort
    } else {
        BuildError::InvalidExternal
    }
}

/// The visibility a summary's labels declare; absent means local.
pub open spec fn spec_external(s: ContainerSummary, cfg: Config) -> bool {
    spec_external_label(s, cfg) == Some("true"@)
}

/// Whether `a` is the auth mode the auth label declares; absent and "none"
/// both mean no auth, an unrecognized value is carried through as a tag.
pub open spec fn spec_auth_matches(s: ContainerSummary, cfg: Config, a: CaddyAuthType) -> bool {
    match spec_auth_label(s, cfg) {
        None => a is NoAuth,
        Some(v) => {
            if v == "oidc"@ {
                a is Oidc
            } else if v == "headers"@ {
                a is TrustedHeaders
            } else if v == "none"@ {
                a is NoAuth
            } else {
                a matches CaddyAuthType::Unknown(tag) && tag@ == v
            }
        },
    }
}

/// Whether an application descriptor is exactly what the summary's labels
/// describe.
pub open spec fn matches_app_of(s: ContainerSummary, cfg: Config, ad: AppData) -> bool {
    &&& Some(ad.app_name@) == spec_app_name(s, cfg)
    &&& spec_port_label(s, cfg) matches Some(p) && ad.port as nat == dec_val(p)
    &&& ad.external == spec_external(s, cfg)
    &&& spec_auth_matches(s, cfg, ad.auth_type)
}

/// Whether a container descriptor is exactly what the summary describes.
pub open spec fn matches_container_of(s: ContainerSummary, c: AppContainerData) -> bool {
    &&& c.container_id == s.id
    &&& c.container_name == s.container_name
    &&& c.hostname == s.container_name
}

impl AppContainerData {
    /// A field-for-field copy.
    pub fn duplicate(&self) -> (r: AppContainerData)
        ensures
            r == *self,
    {
        AppContainerData {
            container_id: self.container_id.clone(),
            container_name: self.container_name.clone(),
            hostname: self.hostname.clone(),
        }
    }

    /// Builds the per-container descriptor, or nothing when the summary
    /// carries no application-name label.
    pub fn new_from_summary(summary: &ContainerSummary, cfg: &Config) -> (r: Option<
        AppContainerData,
    >)
        ensures
            r is Some <==> spec_app_name(*summary, *cfg) is Some,
            r matches Some(c) ==> matches_container_of(*summary, c),
    {
        match &summary.labels {
            Some(labels) => {
                if labels.contains(cfg.app_name_label.as_str()) {
                    Some(AppContainerData {
                        container_id: summary.id.clone(),
                        container_name: summary.container_name.clone(),
                        hostname: summary.container_name.clone(),
                    })
                } else {
                    None
                }
            },
            None => None,
        }
    }
}

impl AppData {
    /// The application name of a summary, or nothing when it has none.
    pub fn name_from_summary(summary: &ContainerSummary, cfg: &Config) -> (r: Option<String>)
        ensures
            r is Some <==> spec_app_name(*summary, *cfg) is Some,
            r matches Some(n) ==> Some(n@) == spec_app_name(*summary, *cfg),
    {
        match &summary.labels {
            Some(labels) => {
                match labels.get(cfg.app_name_label.as_str()) {
                    Some(v) => Some(v.clone()),
                    None => None,
                }
            },
            None => None,
        }
    }

    /// Builds the application descriptor a summary's labels describe:
    /// nothing without the application-name label, an error when the
    /// mandatory port (or a present visibility flag) is unusable, and
    /// otherwise a descriptor with no containers attached yet.
    pub fn new_from_container(container: &ContainerSummary, cfg: &Config) -> (r: Result<
        Option<AppData>,
        BuildError,
    >)
        ensures
            spec_app_name(*container, *cfg) is None ==> (r matches Ok(o) && o is None),
            spec_app_name(*container, *cfg) is Some ==> {
                &&& !spec_builds_ok(*container, *cfg) ==> r == Err::<Option<AppData>, BuildError>(
                    spec_build_error(*container, *cfg),
                )
                &&& spec_builds_ok(*container, *cfg) ==> (r matches Ok(o) && o matches Some(ad)
                    && matches_app_of(*container, *cfg, ad) && ad.containers@.len() == 0)
            },
    {
        let labels = match &container.labels {
            Some(l) => l,
            None => {
                return Ok(None);
            },
        };
        let app_name = match labels.get(cfg.app_name_label.as_str()) {
            Some(v) => v.clone(),
            None => {
                return Ok(None);
            },
        };
        let port: u16 = match labels.get(cfg.port_label.as_str()) {
            Some(p) => match parse_port(p.as_str()) {
                Some(v) => v,
                None => {
                    return Err(BuildError::InvalidPort);
                },
            },
            None => {
                return Err(BuildError::MissingPort);
            },
        };
        let external: bool = match labels.get(cfg.external_label.as_str()) {
            Some(v) => match parse_bool(v.as_str()) {
                Some(b) => b,
                None => {
                    return Err(BuildError::InvalidExternal);
                },
            },
            None => false,
        };
        let auth_type = match labels.get(cfg.auth_label.as_str()) {
            Some(v) => {
                if str_eq(v.as_str(), "oidc") {
                    CaddyAuthType::Oidc
                } else if str_eq(v.as_str(), "headers") {
                    CaddyAuthType::TrustedHeaders
                } else if str_eq(v.as_str(), "none") {
                    CaddyAuthType::NoAuth
                } else {
                    CaddyAuthType::Unknown(v.clone())
                }
            },
            None => CaddyAuthType::NoAuth,
        };
        Ok(Some(AppData { app_name, containers: Vec::new(), port, external, auth_type }))
    }

    /// The domain this application is served under, picked by visibility.
    pub fn domain<'a>(&self, cfg: &'a Config) -> (r: &'a String)
        ensures
            r@ == spec_domain(*self, *cfg),
    {
        if self.external {
            &cfg.external_domain
        } else {
            &cfg.local_domain
        }
    }

    /// The auth-snippet-import line of this application's routing block,
    /// present exactly for the trusted-headers mode.
    pub fn auth(&self) -> (r: &'static str)
        ensures
            r@ == spec_auth_snippet(self.auth_type),
    {
        proof {
            reveal_strlit("import auth-headers");
            reveal_strlit("");
        }
        match self.auth_type {
            CaddyAuthType::TrustedHeaders => "import auth-headers",
            _ => "",
        }
    }
}

/// The domain an application resolves to: the public one when external, the
/// prefixed local one otherwise.
pub open spec fn spec_domain(ad: AppData, cfg: Config) -> Seq<char> {
    if ad.external {
        cfg.external_domain@
    } else {
        cfg.local_domain@
    }
}

/// The auth-import line: only trusted-headers mode asks the proxy to import
/// the auth snippet.
pub open spec fn spec_auth_snippet(a: CaddyAuthType) -> Seq<char> {
    if a is TrustedHeaders {
        "import auth-headers"@
    } else {
        ""@
    }
}

} // verus!
