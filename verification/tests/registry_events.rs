use docker_caddyfile_updater::app_data::{AppContainerData, AppData, CaddyAuthType};
use docker_caddyfile_updater::config::{Cli, Config};
use docker_caddyfile_updater::labels::LabelMap;
use docker_caddyfile_updater::listener::{classify_event, EventKind, Listener};
use docker_caddyfile_updater::registry::Registry;
use docker_caddyfile_updater::summary::{ContainerSummary, EventSummary, RawEventRecord};

fn cfg() -> Config {
    Config::new(Cli {
        local_caddy_bin_path: "/usr/local/bin/caddy".to_string(),
        local_caddy_config_dir: "/usr/local/etc".to_string(),
        local_caddy_snippets_dir: "/tmp/local-snippets".to_string(),
        local_caddy_on_docker: false,
        docker_caddy_bin_path: "caddy".to_string(),
        docker_caddy_config_dir: "/etc/caddy".to_string(),
        docker_caddy_snippets_dir: "/tmp/docker-snippets".to_string(),
        label_prefix: "my.name".to_string(),
        local_domain_prefix: "local".to_string(),
        domain_name: "example.com".to_string(),
        docker_socket_path: "/var/run/docker.sock".to_string(),
    })
}

fn summary(id: &str, name: &str, pairs: &[(&str, &str)]) -> ContainerSummary {
    let mut m = LabelMap::new();
    for (k, v) in pairs {
        m.push(k.to_string(), v.to_string());
    }
    ContainerSummary {
        id: id.to_string(),
        container_name: name.to_string(),
        labels: Some(m),
    }
}

fn web_summary(id: &str, name: &str, port: &str) -> ContainerSummary {
    summary(id, name, &[("my.name.app", "web"), ("my.name.port", port)])
}

fn app_of<'a>(l: &'a Listener, name: &str) -> &'a AppData {
    l.registry.apps.iter().find(|a| a.app_name == name).unwrap()
}

#[test]
fn snapshot_seeds_registry() {
    let c = cfg();
    let mut l = Listener::new();
    let changed = l.apply_snapshot(&web_summary("cid-1", "web-1", "8080"), &c).unwrap();
    assert!(changed);
    assert_eq!(l.registry.apps.len(), 1);
    let ad = app_of(&l, "web");
    assert_eq!(ad.port, 8080);
    assert!(!ad.external);
    assert!(matches!(ad.auth_type, CaddyAuthType::NoAuth));
    assert_eq!(ad.containers.len(), 1);
    assert_eq!(ad.containers[0].container_id, "cid-1");
    assert_eq!(ad.containers[0].hostname, "web-1");
}

#[test]
fn snapshot_without_app_label_changes_nothing() {
    let c = cfg();
    let mut l = Listener::new();
    let changed = l.apply_snapshot(&summary("cid-1", "db-1", &[("other", "x")]), &c).unwrap();
    assert!(!changed);
    assert!(l.registry.apps.is_empty());
}

#[test]
fn snapshot_attaches_second_container_to_same_app() {
    let c = cfg();
    let mut l = Listener::new();
    l.apply_snapshot(&web_summary("cid-1", "web-1", "8080"), &c).unwrap();
    l.apply_snapshot(&web_summary("cid-2", "web-2", "8080"), &c).unwrap();
    assert_eq!(l.registry.apps.len(), 1);
    let ad = app_of(&l, "web");
    assert_eq!(ad.containers.len(), 2);
    assert_eq!(ad.containers[0].container_id, "cid-1");
    assert_eq!(ad.containers[1].container_id, "cid-2");
}

#[test]
fn create_attaches_to_existing_app_without_overwriting_port() {
    let c = cfg();
    let mut l = Listener::new();
    l.apply_snapshot(&web_summary("cid-1", "web-1", "8080"), &c).unwrap();
    // The new container declares a different port, visibility and auth; the
    // existing entry keeps its own.
    let s = summary(
        "cid-2",
        "web-2",
        &[
            ("my.name.app", "web"),
            ("my.name.port", "9090"),
            ("my.name.external", "true"),
            ("my.name.auth", "headers"),
        ],
    );
    let changed = l.on_create(&s, &c).unwrap();
    assert!(changed);
    assert_eq!(l.registry.apps.len(), 1);
    let ad = app_of(&l, "web");
    assert_eq!(ad.port, 8080);
    assert!(!ad.external);
    assert!(matches!(ad.auth_type, CaddyAuthType::NoAuth));
    assert_eq!(ad.containers.len(), 2);
    assert_eq!(ad.containers[1].container_id, "cid-2");
}

#[test]
fn create_seeds_new_app() {
    let c = cfg();
    let mut l = Listener::new();
    l.apply_snapshot(&web_summary("cid-1", "web-1", "8080"), &c).unwrap();
    let s = summary("cid-2", "api-1", &[("my.name.app", "api"), ("my.name.port", "3000")]);
    let changed = l.on_create(&s, &c).unwrap();
    assert!(changed);
    assert_eq!(l.registry.apps.len(), 2);
    let api = app_of(&l, "api");
    assert_eq!(api.port, 3000);
    assert_eq!(api.containers.len(), 1);
    assert_eq!(api.containers[0].container_id, "cid-2");
}

#[test]
fn create_without_app_label_changes_nothing() {
    let c = cfg();
    let mut l = Listener::new();
    let changed = l.on_create(&summary("cid-1", "db-1", &[("x", "y")]), &c).unwrap();
    assert!(!changed);
    assert!(l.registry.apps.is_empty());
}

#[test]
fn destroy_removes_only_matching_container() {
    let c = cfg();
    let mut l = Listener::new();
    l.apply_snapshot(&web_summary("cid-1", "web-1", "8080"), &c).unwrap();
    l.apply_snapshot(&web_summary("cid-2", "web-2", "8080"), &c).unwrap();
    let ev = EventSummary {
        id: "cid-1".to_string(),
        app_name: Some("web".to_string()),
        container_name: "web-1".to_string(),
        old_name: None,
    };
    assert!(l.on_destroy(&ev));
    let ad = app_of(&l, "web");
    assert_eq!(ad.containers.len(), 1);
    assert_eq!(ad.containers[0].container_id, "cid-2");
    assert_eq!(ad.containers[0].hostname, "web-2");
}

#[test]
fn destroy_of_last_container_retains_entry() {
    let c = cfg();
    let mut l = Listener::new();
    l.apply_snapshot(&web_summary("cid-1", "web-1", "8080"), &c).unwrap();
    let ev = EventSummary {
        id: "cid-1".to_string(),
        app_name: Some("web".to_string()),
        container_name: "web-1".to_string(),
        old_name: None,
    };
    assert!(l.on_destroy(&ev));
    assert_eq!(l.registry.apps.len(), 1);
    assert!(app_of(&l, "web").containers.is_empty());
}

#[test]
fn destroy_for_unknown_app_is_skipped() {
    let c = cfg();
    let mut l = Listener::new();
    l.apply_snapshot(&web_summary("cid-1", "web-1", "8080"), &c).unwrap();
    let ev = EventSummary {
        id: "cid-1".to_string(),
        app_name: Some("ghost".to_string()),
        container_name: "web-1".to_string(),
        old_name: None,
    };
    assert!(!l.on_destroy(&ev));
    assert_eq!(app_of(&l, "web").containers.len(), 1);
}

#[test]
fn destroy_without_app_name_is_skipped() {
    let c = cfg();
    let mut l = Listener::new();
    l.apply_snapshot(&web_summary("cid-1", "web-1", "8080"), &c).unwrap();
    let ev = EventSummary {
        id: "cid-1".to_string(),
        app_name: None,
        container_name: "web-1".to_string(),
        old_name: None,
    };
    assert!(!l.on_destroy(&ev));
    assert_eq!(app_of(&l, "web").containers.len(), 1);
}

#[test]
fn rename_updates_only_matching_display_names() {
    let c = cfg();
    let mut l = Listener::new();
    l.apply_snapshot(&web_summary("cid-1", "web-1", "8080"), &c).unwrap();
    l.apply_snapshot(&web_summary("cid-2", "web-2", "8080"), &c).unwrap();
    let ev = EventSummary {
        id: "cid-1".to_string(),
        app_name: Some("web".to_string()),
        container_name: "web-1b".to_string(),
        old_name: Some("web-1".to_string()),
    };
    assert!(l.on_rename(&ev));
    let ad = app_of(&l, "web");
    assert_eq!(ad.containers[0].container_id, "cid-1");
    assert_eq!(ad.containers[0].container_name, "web-1b");
    assert_eq!(ad.containers[0].hostname, "web-1b");
    assert_eq!(ad.containers[1].container_name, "web-2");
    assert_eq!(ad.containers[1].hostname, "web-2");
}

#[test]
fn registry_invariant_holds_after_event_sequence() {
    let c = cfg();
    let mut l = Listener::new();
    l.apply_snapshot(&web_summary("cid-1", "web-1", "8080"), &c).unwrap();
    l.on_create(&summary("cid-2", "api-1", &[("my.name.app", "api"), ("my.name.port", "3000")]), &c)
        .unwrap();
    l.on_create(&web_summary("cid-3", "web-3", "8080"), &c).unwrap();
    let destroy = EventSummary {
        id: "cid-1".to_string(),
        app_name: Some("web".to_string()),
        container_name: "web-1".to_string(),
        old_name: None,
    };
    l.on_destroy(&destroy);
    let rename = EventSummary {
        id: "cid-3".to_string(),
        app_name: Some("web".to_string()),
        container_name: "web-3b".to_string(),
        old_name: Some("web-3".to_string()),
    };
    l.on_rename(&rename);
    // Application names are unique, and every container id appears exactly
    // once across all collections.
    let mut names: Vec<&str> = l.registry.apps.iter().map(|a| a.app_name.as_str()).collect();
    names.sort();
    let mut dedup_names = names.clone();
    dedup_names.dedup();
    assert_eq!(names, dedup_names);
    let mut ids: Vec<&str> = l
        .registry
        .apps
        .iter()
        .flat_map(|a| a.containers.iter().map(|x: &AppContainerData| x.container_id.as_str()))
        .collect();
    ids.sort();
    let mut dedup_ids = ids.clone();
    dedup_ids.dedup();
    assert_eq!(ids, dedup_ids);
    assert_eq!(ids.len(), 2);
}

#[test]
fn classify_event_decodes_container_actions() {
    let rec = |ty: Option<&str>, action: Option<&str>| RawEventRecord {
        event_type: ty.map(|s| s.to_string()),
        action: action.map(|s| s.to_string()),
        actor: None,
    };
    assert_eq!(classify_event(&rec(Some("container"), Some("create"))), Some(EventKind::Create));
    assert_eq!(classify_event(&rec(Some("container"), Some("destroy"))), Some(EventKind::Destroy));
    assert_eq!(classify_event(&rec(Some("container"), Some("rename"))), Some(EventKind::Rename));
    assert_eq!(classify_event(&rec(Some("container"), Some("update"))), Some(EventKind::Update));
    assert_eq!(classify_event(&rec(Some("container"), Some("start"))), Some(EventKind::Other));
    assert_eq!(classify_event(&rec(Some("network"), Some("create"))), None);
    assert_eq!(classify_event(&rec(None, Some("create"))), None);
    assert_eq!(classify_event(&rec(Some("container"), None)), None);
}

#[test]
fn registry_direct_operations() {
    let mut r = Registry::new();
    assert!(!r.contains_app("web"));
    let c1 = AppContainerData {
        container_id: "cid-1".to_string(),
        container_name: "web-1".to_string(),
        hostname: "web-1".to_string(),
    };
    // Attaching to a missing entry is refused and changes nothing.
    assert!(!r.attach("web", c1));
    assert!(r.apps.is_empty());
    let app = AppData {
        app_name: "web".to_string(),
        containers: Vec::new(),
        port: 8080,
        external: false,
        auth_type: CaddyAuthType::NoAuth,
    };
    let c1 = AppContainerData {
        container_id: "cid-1".to_string(),
        container_name: "web-1".to_string(),
        hostname: "web-1".to_string(),
    };
    r.upsert_from_snapshot(app, c1);
    assert!(r.contains_app("web"));
    assert!(r.contains_container_id("cid-1"));
    assert!(!r.contains_container_id("cid-2"));
    let c2 = AppContainerData {
        container_id: "cid-2".to_string(),
        container_name: "web-2".to_string(),
        hostname: "web-2".to_string(),
    };
    assert!(r.attach("web", c2));
    assert_eq!(r.apps[0].containers.len(), 2);
    // Detaching from a missing entry reports a miss; the registry is intact.
    assert!(!r.detach_by_container_id("ghost", "cid-1"));
    assert_eq!(r.apps[0].containers.len(), 2);
    // Detaching an id that is not attached is a no-op for the collection.
    assert!(r.detach_by_container_id("web", "cid-9"));
    assert_eq!(r.apps[0].containers.len(), 2);
    assert!(r.detach_by_container_id("web", "cid-1"));
    assert_eq!(r.apps[0].containers.len(), 1);
    assert_eq!(r.apps[0].containers[0].container_id, "cid-2");
    // Renaming a name nothing carries changes nothing.
    assert!(r.rename("web", "nope", "web-9"));
    assert_eq!(r.apps[0].containers[0].container_name, "web-2");
    assert!(r.rename("web", "web-2", "web-2b"));
    assert_eq!(r.apps[0].containers[0].container_name, "web-2b");
    assert_eq!(r.apps[0].containers[0].hostname, "web-2b");
}
