//! The immutable process configuration: label names derived from the
//! operator's prefix, the two domains, and the two Caddy instances.

use vstd::prelude::*;

verus! {

/// The command-line and environment settings, as plain values.
#[derive(Debug)]
pub struct Cli {
    pub local_caddy_bin_path: String,
    pub local_caddy_config_dir: String,
    pub local_caddy_snippets_dir: String,
    pub local_caddy_on_docker: bool,
    pub docker_caddy_bin_path: String,
    pub docker_caddy_config_dir: String,
    pub docker_caddy_snippets_dir: String,
    pub label_prefix: String,
    pub local_domain_prefix: String,
    pub domain_name: String,
    pub docker_socket_path: String,
}

/// Where a Caddy instance runs, which decides how it is reloaded.
#[derive(Debug)]
pub enum CaddyLocation {
    Local,
    Docker(String),
}

/// One Caddy instance: its binary, working directory and snippets directory.
#[derive(Debug)]
pub struct CaddyConfig {
    pub bin_path: String,
    pub config_dir: String,
    pub snippets_dir: String,
    pub location: CaddyLocation,
}

#[derive(Debug)]
pub struct DockerConfig {
    pub docker_socket_path: String,
}

#[derive(Debug)]
pub struct Config {
    pub app_name_label: String,
    pub port_label: String,
    pub external_label: String,
    pub auth_label: String,
    pub external_domain: String,
    pub local_domain: String,
    pub local_caddy: CaddyConfig,
    pub docker_caddy: CaddyConfig,
    pub docker_config: DockerConfig,
}

impl Config {
    /// Derives the label names and domains from the settings. The local
    /// instance is reloaded as a subprocess, the second one inside the
    /// container named "caddy".
    pub fn new(args: Cli) -> (c: Config)
        ensures
            c.app_name_label@ == args.label_prefix@ + ".app"@,
            c.port_label@ == args.label_prefix@ + ".port"@,
            c.external_label@ == args.label_prefix@ + ".external"@,
            c.auth_label@ == args.label_prefix@ + ".auth"@,
            c.local_domain@ == args.local_domain_prefix@ + "."@ + args.domain_name@,
            c.external_domain == args.domain_name,
            c.local_caddy.bin_path == args.local_caddy_bin_path,
            c.local_caddy.config_dir == args.local_caddy_config_dir,
            c.local_caddy.snippets_dir == args.local_caddy_snippets_dir,
            c.local_caddy.location is Local,
            c.docker_caddy.bin_path == args.docker_caddy_bin_path,
            c.docker_caddy.config_dir == args.docker_caddy_config_dir,
            c.docker_caddy.snippets_dir == args.docker_caddy_snippets_dir,
            c.docker_caddy.location matches CaddyLocation::Docker(n) && n@ == "caddy"@,
            c.docker_config.docker_socket_path == args.docker_socket_path,
    {
        let mut app_name_label = args.label_prefix.clone();
        app_name_label.append(".app");
        let mut port_label = args.label_prefix.clone();
        port_label.append(".port");
        let mut external_label = args.label_prefix.clone();
        external_label.append(".external");
        let mut auth_label = args.label_prefix.clone();
        auth_label.append(".auth");
        let mut local_domain = args.local_domain_prefix.clone();
        local_domain.append(".");
        local_domain.append(args.domain_name.as_str());
        Config {
            app_name_label,
            port_label,
            external_label,
            auth_label,
            local_domain,
            external_domain: args.domain_name,
            local_caddy: CaddyConfig {
                bin_path: args.local_caddy_bin_path,
                config_dir: args.local_caddy_config_dir,
                snippets_dir: args.local_caddy_snippets_dir,
                location: CaddyLocation::Local,
            },
            docker_caddy: CaddyConfig {
                bin_path: args.docker_caddy_bin_path,
                config_dir: args.docker_caddy_config_dir,
                snippets_dir: args.docker_caddy_snippets_dir,
                location: CaddyLocation::Docker("caddy".to_owned()),
            },
            docker_config: DockerConfig { docker_socket_path: args.docker_socket_path },
        }
    }
}

} // verus!
