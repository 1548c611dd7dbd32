use docker_caddyfile_updater::app_data::{AppContainerData, AppData, BuildError, CaddyAuthType};
use docker_caddyfile_updater::config::{CaddyLocation, Cli, Config};
use docker_caddyfile_updater::labels::LabelMap;
use docker_caddyfile_updater::strutil::{parse_bool, parse_port, str_eq, strip_slash_prefix, u16_to_string};
use docker_caddyfile_updater::summary::{
    ContainerSummary, ExtractError, RawActor, RawContainerConfig, RawContainerRecord,
    RawEventRecord,
};
use docker_caddyfile_updater::summary::EventSummary;

fn cli() -> Cli {
    Cli {
        local_caddy_bin_path: "/usr/local/bin/caddy".to_string(),
        local_caddy_config_dir: "/usr/local/etc".to_string(),
        local_caddy_snippets_dir: "/tmp/local-snippets".to_string(),
        local_caddy_on_docker: false,
        docker_caddy_bin_path: "caddy".to_string(),
        docker_caddy_config_dir: "/etc/caddy".to_string(),
        docker_caddy_snippets_dir: "/tmp/docker-snippets".to_string(),
        label_prefix: "my.name".to_string(),
        local_domain_prefix: "local".to_string(),
        domain_name: "example.com".to_string(),
        docker_socket_path: "/var/run/docker.sock".to_string(),
    }
}

fn cfg() -> Config {
    Config::new(cli())
}

fn labels_of(pairs: &[(&str, &str)]) -> LabelMap {
    let mut m = LabelMap::new();
    for (k, v) in pairs {
        m.push(k.to_string(), v.to_string());
    }
    m
}

fn summary_with(pairs: &[(&str, &str)]) -> ContainerSummary {
    ContainerSummary {
        id: "cid-1".to_string(),
        container_name: "web-1".to_string(),
        labels: Some(labels_of(pairs)),
    }
}

#[test]
fn config_derives_label_names_and_domains() {
    let c = cfg();
    assert_eq!(c.app_name_label, "my.name.app");
    assert_eq!(c.port_label, "my.name.port");
    assert_eq!(c.external_label, "my.name.external");
    assert_eq!(c.auth_label, "my.name.auth");
    assert_eq!(c.external_domain, "example.com");
    assert_eq!(c.local_domain, "local.example.com");
    assert!(matches!(c.local_caddy.location, CaddyLocation::Local));
    assert!(matches!(&c.docker_caddy.location, CaddyLocation::Docker(n) if n == "caddy"));
}

#[test]
fn parse_port_accepts_valid_ports() {
    assert_eq!(parse_port("8080"), Some(8080));
    assert_eq!(parse_port("1"), Some(1));
    assert_eq!(parse_port("65535"), Some(65535));
}

#[test]
fn parse_port_rejects_invalid_ports() {
    assert_eq!(parse_port(""), None);
    assert_eq!(parse_port("0"), None);
    assert_eq!(parse_port("65536"), None);
    assert_eq!(parse_port("80a"), None);
    assert_eq!(parse_port("-1"), None);
    assert_eq!(parse_port("999999999999999999"), None);
}

#[test]
fn parse_bool_is_exact() {
    assert_eq!(parse_bool("true"), Some(true));
    assert_eq!(parse_bool("false"), Some(false));
    assert_eq!(parse_bool("yes"), None);
    assert_eq!(parse_bool("TRUE"), None);
    assert_eq!(parse_bool(""), None);
}

#[test]
fn u16_to_string_renders_decimal() {
    assert_eq!(u16_to_string(0), "0");
    assert_eq!(u16_to_string(7), "7");
    assert_eq!(u16_to_string(880), "880");
    assert_eq!(u16_to_string(8080), "8080");
    assert_eq!(u16_to_string(65535), "65535");
}

#[test]
fn strip_slash_prefix_strips_one_slash() {
    assert_eq!(strip_slash_prefix("/web-1"), "web-1");
    assert_eq!(strip_slash_prefix("web-1"), "web-1");
    assert_eq!(strip_slash_prefix("//web"), "/web");
    assert_eq!(strip_slash_prefix(""), "");
}

#[test]
fn str_eq_compares_contents() {
    assert!(str_eq("abc", "abc"));
    assert!(!str_eq("abc", "abd"));
    assert!(!str_eq("abc", "abcd"));
}

#[test]
fn builder_skips_summary_without_app_label() {
    let c = cfg();
    let s = summary_with(&[("my.name.port", "8080")]);
    let built = AppData::new_from_container(&s, &c).unwrap();
    assert!(built.is_none());
    assert!(AppContainerData::new_from_summary(&s, &c).is_none());
    assert!(AppData::name_from_summary(&s, &c).is_none());
}

#[test]
fn builder_skips_summary_without_labels() {
    let c = cfg();
    let s = ContainerSummary {
        id: "cid-1".to_string(),
        container_name: "web-1".to_string(),
        labels: None,
    };
    assert!(AppData::new_from_container(&s, &c).unwrap().is_none());
    assert!(AppContainerData::new_from_summary(&s, &c).is_none());
    assert!(AppData::name_from_summary(&s, &c).is_none());
}

#[test]
fn builder_reads_all_labels_exactly() {
    let c = cfg();
    let s = summary_with(&[
        ("my.name.app", "web"),
        ("my.name.port", "9090"),
        ("my.name.external", "true"),
        ("my.name.auth", "headers"),
    ]);
    let ad = AppData::new_from_container(&s, &c).unwrap().unwrap();
    assert_eq!(ad.app_name, "web");
    assert_eq!(ad.port, 9090);
    assert!(ad.external);
    assert!(matches!(ad.auth_type, CaddyAuthType::TrustedHeaders));
    assert!(ad.containers.is_empty());
    let adc = AppContainerData::new_from_summary(&s, &c).unwrap();
    assert_eq!(adc.container_id, "cid-1");
    assert_eq!(adc.container_name, "web-1");
    assert_eq!(adc.hostname, "web-1");
}

#[test]
fn builder_defaults_visibility_and_auth() {
    let c = cfg();
    let s = summary_with(&[("my.name.app", "web"), ("my.name.port", "8080")]);
    let ad = AppData::new_from_container(&s, &c).unwrap().unwrap();
    assert_eq!(ad.port, 8080);
    assert!(!ad.external);
    assert!(matches!(ad.auth_type, CaddyAuthType::NoAuth));
}

#[test]
fn builder_maps_auth_values() {
    let c = cfg();
    let oidc = summary_with(&[("my.name.app", "web"), ("my.name.port", "80"), ("my.name.auth", "oidc")]);
    let none = summary_with(&[("my.name.app", "web"), ("my.name.port", "80"), ("my.name.auth", "none")]);
    let odd = summary_with(&[("my.name.app", "web"), ("my.name.port", "80"), ("my.name.auth", "basic")]);
    assert!(matches!(
        AppData::new_from_container(&oidc, &c).unwrap().unwrap().auth_type,
        CaddyAuthType::Oidc
    ));
    assert!(matches!(
        AppData::new_from_container(&none, &c).unwrap().unwrap().auth_type,
        CaddyAuthType::NoAuth
    ));
    assert!(matches!(
        AppData::new_from_container(&odd, &c).unwrap().unwrap().auth_type,
        CaddyAuthType::Unknown(v) if v == "basic"
    ));
}

#[test]
fn builder_fails_on_missing_port() {
    let c = cfg();
    let s = summary_with(&[("my.name.app", "web")]);
    assert_eq!(AppData::new_from_container(&s, &c).unwrap_err(), BuildError::MissingPort);
}

#[test]
fn builder_fails_on_invalid_port() {
    let c = cfg();
    let s = summary_with(&[("my.name.app", "web"), ("my.name.port", "eighty")]);
    assert_eq!(AppData::new_from_container(&s, &c).unwrap_err(), BuildError::InvalidPort);
    let z = summary_with(&[("my.name.app", "web"), ("my.name.port", "0")]);
    assert_eq!(AppData::new_from_container(&z, &c).unwrap_err(), BuildError::InvalidPort);
}

#[test]
fn builder_fails_on_invalid_external_flag() {
    let c = cfg();
    let s = summary_with(&[
        ("my.name.app", "web"),
        ("my.name.port", "80"),
        ("my.name.external", "maybe"),
    ]);
    assert_eq!(AppData::new_from_container(&s, &c).unwrap_err(), BuildError::InvalidExternal);
}

#[test]
fn extractor_builds_container_summary() {
    let rec = RawContainerRecord {
        id: Some("cid-9".to_string()),
        name: Some("/web-9".to_string()),
        config: Some(RawContainerConfig { labels: Some(labels_of(&[("my.name.app", "web")])) }),
    };
    let s = ContainerSummary::new_from_inspect(&rec).unwrap();
    assert_eq!(s.id, "cid-9");
    assert_eq!(s.container_name, "web-9");
    assert!(s.labels.is_some());
}

#[test]
fn extractor_reports_missing_container_fields() {
    let no_name = RawContainerRecord { id: Some("x".to_string()), name: None, config: None };
    assert_eq!(ContainerSummary::new_from_inspect(&no_name).unwrap_err(), ExtractError::MissingName);
    let no_id = RawContainerRecord { id: None, name: Some("n".to_string()), config: None };
    assert_eq!(ContainerSummary::new_from_inspect(&no_id).unwrap_err(), ExtractError::MissingId);
    let no_config = RawContainerRecord {
        id: Some("x".to_string()),
        name: Some("n".to_string()),
        config: None,
    };
    assert_eq!(
        ContainerSummary::new_from_inspect(&no_config).unwrap_err(),
        ExtractError::MissingConfig
    );
}

#[test]
fn extractor_builds_event_summary() {
    let c = cfg();
    let mut attrs = LabelMap::new();
    attrs.push("name".to_string(), "/web-1b".to_string());
    attrs.push("oldName".to_string(), "/web-1".to_string());
    attrs.push("my.name.app".to_string(), "web".to_string());
    let rec = RawEventRecord {
        event_type: Some("container".to_string()),
        action: Some("rename".to_string()),
        actor: Some(RawActor { id: Some("cid-1".to_string()), attributes: Some(attrs) }),
    };
    let ev = EventSummary::new_from_event(&rec, &c).unwrap();
    assert_eq!(ev.id, "cid-1");
    assert_eq!(ev.container_name, "web-1b");
    assert_eq!(ev.old_name.as_deref(), Some("web-1"));
    assert_eq!(ev.app_name.as_deref(), Some("web"));
}

#[test]
fn extractor_reports_missing_event_fields() {
    let c = cfg();
    let no_actor = RawEventRecord {
        event_type: Some("container".to_string()),
        action: Some("create".to_string()),
        actor: None,
    };
    assert_eq!(EventSummary::new_from_event(&no_actor, &c).unwrap_err(), ExtractError::MissingActor);
    let no_id = RawEventRecord {
        event_type: Some("container".to_string()),
        action: Some("create".to_string()),
        actor: Some(RawActor { id: None, attributes: Some(LabelMap::new()) }),
    };
    assert_eq!(EventSummary::new_from_event(&no_id, &c).unwrap_err(), ExtractError::MissingActorId);
    let no_attrs = RawEventRecord {
        event_type: Some("container".to_string()),
        action: Some("create".to_string()),
        actor: Some(RawActor { id: Some("cid".to_string()), attributes: None }),
    };
    assert_eq!(
        EventSummary::new_from_event(&no_attrs, &c).unwrap_err(),
        ExtractError::MissingAttributes
    );
    let no_name = RawEventRecord {
        event_type: Some("container".to_string()),
        action: Some("create".to_string()),
        actor: Some(RawActor { id: Some("cid".to_string()), attributes: Some(LabelMap::new()) }),
    };
    assert_eq!(
        EventSummary::new_from_event(&no_name, &c).unwrap_err(),
        ExtractError::MissingEventName
    );
}

#[test]
fn event_summary_optional_fields_default_to_none() {
    let c = cfg();
    let mut attrs = LabelMap::new();
    attrs.push("name".to_string(), "other-1".to_string());
    let rec = RawEventRecord {
        event_type: Some("container".to_string()),
        action: Some("destroy".to_string()),
        actor: Some(RawActor { id: Some("cid".to_string()), attributes: Some(attrs) }),
    };
    let ev = EventSummary::new_from_event(&rec, &c).unwrap();
    assert!(ev.app_name.is_none());
    assert!(ev.old_name.is_none());
}
