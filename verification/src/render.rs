//! The configuration renderer: turns the registry's contents into the two
//! snippet texts, one per Caddy instance, each holding an "external" and an
//! "internal" group. Applications are partitioned by visibility; one whose
//! container collection is empty is skipped. The local instance's blocks
//! always forward to the fixed local endpoint; the second instance's blocks
//! enumerate the real per-container upstream targets.

use crate::app_data::{spec_auth_snippet, spec_domain, AppContainerData, AppData};
use crate::config::Config;
use crate::listener::Listener;
use crate::strutil::{dec_str, u16_to_string};
use vstd::prelude::*;

verus! {

/// `parts` glued together with `sep` between neighbours.
pub open spec fn spec_join(parts: Seq<Seq<char>>, sep: Seq<char>) -> Seq<char>
    decreases parts.len(),
{
    if parts.len() == 0 {
        Seq::empty()
    } else if parts.len() == 1 {
        parts[0]
    } else {
        spec_join(parts.drop_last(), sep) + sep + parts.last()
    }
}

/// One upstream target: the container's hostname and the application's port.
pub open spec fn spec_target(c: AppContainerData, port: u16) -> Seq<char> {
    "http://"@ + c.hostname@ + ":"@ + dec_str(port as nat)
}

/// The upstream targets of an application's containers, in order.
pub open spec fn spec_target_list(cs: Seq<AppContainerData>, port: u16) -> Seq<Seq<char>>
    decreases cs.len(),
{
    if cs.len() == 0 {
        Seq::empty()
    } else {
        spec_target_list(cs.drop_last(), port).push(spec_target(cs.last(), port))
    }
}

/// The routing block the local Caddy instance gets for one application: deny
/// the two metrics paths, then forward everything to the fixed local
/// endpoint (the second instance).
pub open spec fn spec_local_block(ad: AppData, cfg: Config) -> Seq<char> {
    "@"@ + ad.app_name@ + " host "@ + ad.app_name@ + "."@ + spec_domain(ad, cfg)
        + "\n  handle @"@ + ad.app_name@
        + " {\n    handle /metrics {\n      abort\n    }\n    handle /metrics/* {\n      abort\n    }\n    reverse_proxy http://localhost:880\n  }\n"@
}

/// The routing block the Docker Caddy instance gets for one application:
/// deny the metrics paths, import the auth snippet when trusted-headers
/// auth is on, and proxy to every container's upstream target.
pub open spec fn spec_docker_block(ad: AppData, cfg: Config) -> Seq<char> {
    "@"@ + ad.app_name@ + " host "@ + ad.app_name@ + "."@ + spec_domain(ad, cfg)
        + "\n  handle @"@ + ad.app_name@
        + " {\n    handle /metrics {\n      abort\n    }\n    handle /metrics/* {\n      abort\n    }\n    "@
        + spec_auth_snippet(ad.auth_type) + "\n    reverse_proxy "@ + spec_join(
        spec_target_list(ad.containers@, ad.port),
        " "@,
    ) + "\n  }\n"@
}

/// The blocks of the applications with this visibility that have at least
/// one container, in registry order; `local_style` picks which instance's
/// block shape is rendered.
pub open spec fn spec_blocks(
    apps: Seq<AppData>,
    cfg: Config,
    external: bool,
    local_style: bool,
) -> Seq<Seq<char>>
    decreases apps.len(),
{
    if apps.len() == 0 {
        Seq::empty()
    } else {
        let pre = spec_blocks(apps.drop_last(), cfg, external, local_style);
        let ad = apps.last();
        if ad.containers@.len() > 0 && ad.external == external {
            pre.push(
                if local_style {
                    spec_local_block(ad, cfg)
                } else {
                    spec_docker_block(ad, cfg)
                },
            )
        } else {
            pre
        }
    }
}

/// One whole snippet file: the external group, then the internal group.
pub open spec fn spec_snippet_file(apps: Seq<AppData>, cfg: Config, local_style: bool) -> Seq<
    char,
> {
    "(external_docker_hosts) {\n  "@ + spec_join(
        spec_blocks(apps, cfg, true, local_style),
        "\n  "@,
    ) + "\n}\n\n(internal_docker_hosts) {\n  "@ + spec_join(
        spec_blocks(apps, cfg, false, local_style),
        "\n  "@,
    ) + "\n}\n"@
}

/// An application with no containers leaves the rendered blocks untouched:
/// dropping it from the registry renders the very same text.
pub proof fn lemma_render_skips_empty_app(
    apps: Seq<AppData>,
    cfg: Config,
    k: int,
    external: bool,
    local_style: bool,
)
    requires
        0 <= k < apps.len(),
        apps[k].containers@.len() == 0,
    ensures
        spec_blocks(apps.remove(k), cfg, external, local_style) == spec_blocks(
            apps,
            cfg,
            external,
            local_style,
        ),
    decreases apps.len(),
{
    if k == apps.len() - 1 {
        assert(apps.remove(k) =~= apps.drop_last());
    } else {
        lemma_render_skips_empty_app(apps.drop_last(), cfg, k, external, local_style);
        assert(apps.remove(k).drop_last() =~= apps.drop_last().remove(k));
        assert(apps.remove(k).last() == apps.last());
    }
}

/// The file-level consequence: an application whose container collection is
/// empty never shows in either rendered file.
pub proof fn lemma_empty_app_not_rendered(apps: Seq<AppData>, cfg: Config, k: int, local_style: bool)
    requires
        0 <= k < apps.len(),
        apps[k].containers@.len() == 0,
    ensures
        spec_snippet_file(apps.remove(k), cfg, local_style) == spec_snippet_file(
            apps,
            cfg,
            local_style,
        ),
{
    lemma_render_skips_empty_app(apps, cfg, k, true, local_style);
    lemma_render_skips_empty_app(apps, cfg, k, false, local_style);
}

/// Rendering is a pure function of the registry contents: any two renders
/// of the same registry state — as `render_caddy_snippets` promises of its
/// results — are byte-identical, so re-rendering without a mutation in
/// between changes nothing.
pub proof fn lemma_render_deterministic(
    apps: Seq<AppData>,
    cfg: Config,
    a: Seq<char>,
    b: Seq<char>,
    local_style: bool,
)
    requires
        a == spec_snippet_file(apps, cfg, local_style),
        b == spec_snippet_file(apps, cfg, local_style),
    ensures
        a == b,
{
}

/// Joins rendered parts with a separator.
fn join_strings(parts: &Vec<String>, sep: &str) -> (r: String)
    ensures
        r@ == spec_join(parts@.map_values(|x: String| x@), sep@),
{
    let n = parts.len();
    let mut r = String::new();
    let mut k: usize = 0;
    proof {
        assert(parts@.take(0).map_values(|x: String| x@) =~= Seq::<Seq<char>>::empty());
    }
    while k < n
        invariant
            0 <= k <= n,
            n == parts@.len(),
            r@ == spec_join(parts@.take(k as int).map_values(|x: String| x@), sep@),
        decreases n - k,
    {
        proof {
            let mp = parts@.take(k as int).map_values(|x: String| x@);
            let q = parts@[k as int]@;
            assert(parts@.take(k + 1).map_values(|x: String| x@) =~= mp.push(q));
            assert(mp.push(q).drop_last() =~= mp);
            assert(mp.push(q).last() == q);
        }
        if k == 0 {
            r.append(parts[0].as_str());
            proof {
                assert(r@ =~= parts@[0]@);
            }
        } else {
            r.append(sep);
            r.append(parts[k].as_str());
        }
        k = k + 1;
    }
    proof {
        assert(parts@.take(n as int) =~= parts@);
    }
    r
}

impl AppData {
    /// The local instance's routing block for this application.
    pub fn format_local_caddy(&self, cfg: &Config) -> (r: String)
        ensures
            r@ == spec_local_block(*self, *cfg),
    {
        let mut s = String::new();
        s.append("@");
        s.append(self.app_name.as_str());
        s.append(" host ");
        s.append(self.app_name.as_str());
        s.append(".");
        s.append(self.domain(cfg).as_str());
        s.append("\n  handle @");
        s.append(self.app_name.as_str());
        s.append(
            " {\n    handle /metrics {\n      abort\n    }\n    handle /metrics/* {\n      abort\n    }\n    reverse_proxy http://localhost:880\n  }\n",
        );
        proof {
            assert(s@ =~= spec_local_block(*self, *cfg));
        }
        s
    }

    /// The Docker instance's routing block for this application.
    pub fn format_docker_caddy(&self, cfg: &Config) -> (r: String)
        ensures
            r@ == spec_docker_block(*self, *cfg),
    {
        let m = self.containers.len();
        let mut targets: Vec<String> = Vec::new();
        let mut k: usize = 0;
        proof {
            assert(targets@.map_values(|x: String| x@) =~= spec_target_list(
                self.containers@.take(0),
                self.port,
            ));
        }
        while k < m
            invariant
                0 <= k <= m,
                m == self.containers@.len(),
                targets@.map_values(|x: String| x@) =~= spec_target_list(
                    self.containers@.take(k as int),
                    self.port,
                ),
            decreases m - k,
        {
            let mut t = String::new();
            t.append("http://");
            t.append(self.containers[k].hostname.as_str());
            t.append(":");
            let p = u16_to_string(self.port);
            t.append(p.as_str());
            proof {
                assert(t@ =~= spec_target(self.containers@[k as int], self.port));
                assert(self.containers@.take(k + 1).drop_last() =~= self.containers@.take(
                    k as int,
                ));
                assert(self.containers@.take(k + 1).last() == self.containers@[k as int]);
            }
            let ghost pre = targets@.map_values(|x: String| x@);
            targets.push(t);
            proof {
                assert(targets@.map_values(|x: String| x@) =~= pre.push(
                    spec_target(self.containers@[k as int], self.port),
                ));
            }
            k = k + 1;
        }
        proof {
            assert(self.containers@.take(m as int) =~= self.containers@);
        }
        let joined = join_strings(&targets, " ");
        let mut s = String::new();
        s.append("@");
        s.append(self.app_name.as_str());
        s.append(" host ");
        s.append(self.app_name.as_str());
        s.append(".");
        s.append(self.domain(cfg).as_str());
        s.append("\n  handle @");
        s.append(self.app_name.as_str());
        s.append(
            " {\n    handle /metrics {\n      abort\n    }\n    handle /metrics/* {\n      abort\n    }\n    ",
        );
        s.append(self.auth());
        s.append("\n    reverse_proxy ");
        s.append(joined.as_str());
        s.append("\n  }\n");
        proof {
            assert(s@ =~= spec_docker_block(*self, *cfg));
        }
        s
    }
}

impl Listener {
    /// Renders the two snippet files from the registry: the Docker
    /// instance's text first, the local instance's second. A pure function
    /// of the registry contents — rendering twice yields identical text.
    pub fn render_caddy_snippets(&self, cfg: &Config) -> (r: (String, String))
        ensures
            r.0@ == spec_snippet_file(self.registry.apps@, *cfg, false),
            r.1@ == spec_snippet_file(self.registry.apps@, *cfg, true),
    {
        let apps: &Vec<AppData> = &self.registry.apps;
        let n = apps.len();
        let mut external_hosts: Vec<String> = Vec::new();
        let mut local_external_hosts: Vec<String> = Vec::new();
        let mut internal_hosts: Vec<String> = Vec::new();
        let mut local_internal_hosts: Vec<String> = Vec::new();
        let mut i: usize = 0;
        proof {
            assert(apps@.take(0) =~= Seq::<AppData>::empty());
            assert(external_hosts@.map_values(|x: String| x@) =~= spec_blocks(
                apps@.take(0),
                *cfg,
                true,
                false,
            ));
            assert(local_external_hosts@.map_values(|x: String| x@) =~= spec_blocks(
                apps@.take(0),
                *cfg,
                true,
                true,
            ));
            assert(internal_hosts@.map_values(|x: String| x@) =~= spec_blocks(
                apps@.take(0),
                *cfg,
                false,
                false,
            ));
            assert(local_internal_hosts@.map_values(|x: String| x@) =~= spec_blocks(
                apps@.take(0),
                *cfg,
                false,
                true,
            ));
        }
        while i < n
            invariant
                0 <= i <= n,
                n == apps@.len(),
                apps == &self.registry.apps,
                external_hosts@.map_values(|x: String| x@) == spec_blocks(
                    apps@.take(i as int),
                    *cfg,
                    true,
                    false,
                ),
                local_external_hosts@.map_values(|x: String| x@) == spec_blocks(
                    apps@.take(i as int),
                    *cfg,
                    true,
                    true,
                ),
                internal_hosts@.map_values(|x: String| x@) == spec_blocks(
                    apps@.take(i as int),
                    *cfg,
                    false,
                    false,
                ),
                local_internal_hosts@.map_values(|x: String| x@) == spec_blocks(
                    apps@.take(i as int),
                    *cfg,
                    false,
                    true,
                ),
            decreases n - i,
        {
            proof {
                assert(apps@.take(i + 1).drop_last() =~= apps@.take(i as int));
                assert(apps@.take(i + 1).last() == apps@[i as int]);
            }
            let ad = &apps[i];
            if ad.containers.len() > 0 {
                if ad.external {
                    let ghost pre = external_hosts@.map_values(|x: String| x@);
                    let ghost lpre = local_external_hosts@.map_values(|x: String| x@);
                    external_hosts.push(ad.format_docker_caddy(cfg));
                    local_external_hosts.push(ad.format_local_caddy(cfg));
                    proof {
                        assert(external_hosts@.map_values(|x: String| x@) =~= pre.push(
                            spec_docker_block(apps@[i as int], *cfg),
                        ));
                        assert(local_external_hosts@.map_values(|x: String| x@) =~= lpre.push(
                            spec_local_block(apps@[i as int], *cfg),
                        ));
                    }
                } else {
                    let ghost pre = internal_hosts@.map_values(|x: String| x@);
                    let ghost lpre = local_internal_hosts@.map_values(|x: String| x@);
                    internal_hosts.push(ad.format_docker_caddy(cfg));
                    local_internal_hosts.push(ad.format_local_caddy(cfg));
                    proof {
                        assert(internal_hosts@.map_values(|x: String| x@) =~= pre.push(
                            spec_docker_block(apps@[i as int], *cfg),
                        ));
                        assert(local_internal_hosts@.map_values(|x: String| x@) =~= lpre.push(
                            spec_local_block(apps@[i as int], *cfg),
                        ));
                    }
                }
            }
            i = i + 1;
        }
        proof {
            assert(apps@.take(n as int) =~= apps@);
        }
        let mut docker_text = String::new();
        docker_text.append("(external_docker_hosts) {\n  ");
        let je = join_strings(&external_hosts, "\n  ");
        docker_text.append(je.as_str());
        docker_text.append("\n}\n\n(internal_docker_hosts) {\n  ");
        let ji = join_strings(&internal_hosts, "\n  ");
        docker_text.append(ji.as_str());
        docker_text.append("\n}\n");
        let mut local_text = String::new();
        local_text.append("(external_docker_hosts) {\n  ");
        let lje = join_strings(&local_external_hosts, "\n  ");
        local_text.append(lje.as_str());
        local_text.append("\n}\n\n(internal_docker_hosts) {\n  ");
        let lji = join_strings(&local_internal_hosts, "\n  ");
        local_text.append(lji.as_str());
        local_text.append("\n}\n");
        proof {
            assert(docker_text@ =~= spec_snippet_file(self.registry.apps@, *cfg, false));
            assert(local_text@ =~= spec_snippet_file(self.registry.apps@, *cfg, true));
        }
        (docker_text, local_text)
    }
}

} // verus!
