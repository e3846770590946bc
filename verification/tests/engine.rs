use rtbox::config::RtBoxConfig;
use rtbox::engine::{
    build_entrypoint, ContainerSummary, Handle, LabelEntry, RmOutcome, RtBoxEngine,
};
use rtbox::host::{EnvEntry, HostState};
use rtbox::init::RtBoxInitState;

fn host(paths: &[&str], env: &[(&str, &str)]) -> HostState {
    HostState {
        existing_paths: paths.iter().map(|p| p.to_string()).collect(),
        env: env
            .iter()
            .map(|(k, v)| EnvEntry { key: k.to_string(), value: v.to_string() })
            .collect(),
    }
}

fn identity<'a>() -> RtBoxInitState<'a> {
    RtBoxInitState {
        uid: 1000,
        gid: 1000,
        username: "akdev",
        home: "/home/akdev",
        shell: "/bin/bash",
    }
}

fn summary(
    id: Option<&str>,
    names: &[&str],
    image: Option<&str>,
    exited: Option<bool>,
    labeled: bool,
) -> ContainerSummary {
    ContainerSummary {
        id: id.map(|s| s.to_string()),
        names: names.iter().map(|s| s.to_string()).collect(),
        image: image.map(|s| s.to_string()),
        exited,
        labels: if labeled {
            vec![LabelEntry {
                key: "com.github.containers.toolbox".to_string(),
                value: "true".to_string(),
            }]
        } else {
            vec![LabelEntry { key: "io.something.else".to_string(), value: "1".to_string() }]
        },
    }
}

#[test]
fn entrypoint_reinvokes_the_tool_in_init_mode() {
    let ep = build_entrypoint("/usr/bin/rtbox", &identity());
    let expected: Vec<String> = [
        "/run/host/usr/bin/rtbox",
        "init",
        "--uid",
        "1000",
        "--gid",
        "1000",
        "--home",
        "/home/akdev",
        "--username",
        "akdev",
        "--shell",
        "/bin/bash",
    ]
    .iter()
    .map(|s| s.to_string())
    .collect();
    assert_eq!(ep, expected);
}

#[test]
fn create_spec_composes_the_negotiated_pieces() {
    let config = RtBoxConfig::default();
    let engine = RtBoxEngine::new(&config);
    let h = host(&["/", "/tmp", "/home/akdev"], &[("TERM", "xterm"), ("HOME", "/home/akdev")]);
    let spec = engine.create_spec("dev", "fedora-toolbox:38", &h, &identity(), "/usr/bin/rtbox");
    assert_eq!(spec.name, "dev");
    assert_eq!(spec.image, "fedora-toolbox:38");
    assert_eq!(spec.hostname, "dev.host");
    assert_eq!(spec.workdir, "/var/home/akdev");
    assert_eq!(spec.userns_mode, "keep-id");
    assert_eq!(spec.labels.len(), 1);
    assert_eq!(spec.labels[0].key, "com.github.containers.toolbox");
    assert_eq!(spec.labels[0].value, "true");
    let mount_sources: Vec<&str> = spec.mounts.iter().map(|m| m.source.as_str()).collect();
    assert_eq!(mount_sources, vec!["/", "/tmp", "/home/akdev"]);
    let env_keys: Vec<&str> = spec.env.iter().map(|e| e.key.as_str()).collect();
    assert_eq!(env_keys, vec!["HOME", "TERM"]);
    assert_eq!(spec.entrypoint[0], "/run/host/usr/bin/rtbox");
    assert_eq!(spec.entrypoint.len(), 12);
}

#[test]
fn create_spec_is_deterministic_for_identical_host_state() {
    let config = RtBoxConfig::default();
    let engine = RtBoxEngine::new(&config);
    let h1 = host(&["/", "/tmp"], &[("TERM", "xterm")]);
    let h2 = host(&["/", "/tmp"], &[("TERM", "xterm")]);
    let a = engine.create_spec("dev", "img", &h1, &identity(), "/usr/bin/rtbox");
    let b = engine.create_spec("dev", "img", &h2, &identity(), "/usr/bin/rtbox");
    assert_eq!(a.name, b.name);
    assert_eq!(a.image, b.image);
    assert_eq!(a.entrypoint, b.entrypoint);
    assert_eq!(a.hostname, b.hostname);
    assert_eq!(a.workdir, b.workdir);
    assert_eq!(a.userns_mode, b.userns_mode);
    assert_eq!(a.mounts.len(), b.mounts.len());
    for (x, y) in a.mounts.iter().zip(b.mounts.iter()) {
        assert_eq!(x.source, y.source);
        assert_eq!(x.destination, y.destination);
        assert_eq!(x.options, y.options);
    }
    assert_eq!(a.env.len(), b.env.len());
    for (x, y) in a.env.iter().zip(b.env.iter()) {
        assert_eq!(x.key, y.key);
        assert_eq!(x.value, y.value);
    }
}

#[test]
fn create_record_wraps_a_transient_runtime_failure() {
    let config = RtBoxConfig::default();
    let engine = RtBoxEngine::new(&config);
    let r = engine.create_record(
        "dev",
        "fedora-toolbox:38",
        Err("transient network error".to_string()),
    );
    let e = r.err().expect("no record may come from a failed create");
    assert_eq!(e.command, Some("create".to_string()));
    assert_eq!(e.root_cause, Some("transient network error".to_string()));
    assert!(e.message.is_some());
}

#[test]
fn create_record_maps_the_handle() {
    let config = RtBoxConfig::default();
    let engine = RtBoxEngine::new(&config);
    let r = engine.create_record(
        "dev",
        "fedora-toolbox:38",
        Ok(Handle { id: "abc123".to_string(), status: "created".to_string() }),
    );
    let b = r.ok().expect("a successful create yields a record");
    assert_eq!(b.id, "abc123");
    assert_eq!(b.name, "dev");
    assert_eq!(b.image, "fedora-toolbox:38");
    assert_eq!(b.status, "created");
}

#[test]
fn list_not_all_reports_only_running_labeled_containers() {
    let config = RtBoxConfig::default();
    let engine = RtBoxEngine::new(&config);
    let summaries = vec![
        summary(Some("aaa"), &["one"], Some("img1"), Some(false), true),
        summary(Some("bbb"), &["two"], Some("img2"), Some(true), true),
        summary(Some("ccc"), &["noise"], Some("img3"), Some(false), false),
    ];
    let records = engine.list(false, &summaries).expect("listing succeeds");
    assert_eq!(records.len(), 1);
    assert_eq!(records[0].id, "aaa");
    assert_eq!(records[0].name, "one");
    assert_eq!(records[0].image, "img1");
    assert_eq!(records[0].status, "running");
}

#[test]
fn list_all_reports_every_labeled_container() {
    let config = RtBoxConfig::default();
    let engine = RtBoxEngine::new(&config);
    let summaries = vec![
        summary(Some("aaa"), &["one"], Some("img1"), Some(false), true),
        summary(Some("bbb"), &["two"], Some("img2"), Some(true), true),
        summary(Some("ccc"), &["noise"], Some("img3"), Some(false), false),
    ];
    let records = engine.list(true, &summaries).expect("listing succeeds");
    assert_eq!(records.len(), 2);
    assert_eq!(records[0].status, "running");
    assert_eq!(records[1].status, "exited");
    assert_eq!(records[1].name, "two");
}

#[test]
fn list_fails_on_a_labeled_summary_missing_a_field() {
    let config = RtBoxConfig::default();
    let engine = RtBoxEngine::new(&config);
    let summaries = vec![
        summary(Some("aaa"), &["one"], Some("img1"), Some(false), true),
        summary(Some("bbb"), &["two"], None, Some(true), true),
    ];
    let e = engine.list(true, &summaries).err().expect("incomplete summary is an error");
    assert_eq!(e.command, Some("list".to_string()));
    assert_eq!(e.message, Some("container summary missing a required field".to_string()));
}

#[test]
fn list_ignores_incomplete_unlabeled_summaries() {
    let config = RtBoxConfig::default();
    let engine = RtBoxEngine::new(&config);
    let summaries = vec![summary(None, &[], None, None, false)];
    let records = engine.list(true, &summaries).expect("unlabeled noise is not ours");
    assert_eq!(records.len(), 0);
}

#[test]
fn rm_aggregates_partial_failures_instead_of_aborting() {
    let config = RtBoxConfig::default();
    let engine = RtBoxEngine::new(&config);
    let outcomes = vec![
        RmOutcome { name: "a".to_string(), error: Some("container is running".to_string()) },
        RmOutcome { name: "b".to_string(), error: None },
        RmOutcome { name: "c".to_string(), error: Some("no such container".to_string()) },
    ];
    let e = engine.rm(&outcomes).err().expect("partial failure is reported");
    assert_eq!(e.command, Some("rm".to_string()));
    assert_eq!(e.message, Some("failed to remove: a, c".to_string()));
    assert_eq!(
        e.root_cause,
        Some("container is running; no such container".to_string())
    );
}

#[test]
fn rm_succeeds_when_every_target_was_removed() {
    let config = RtBoxConfig::default();
    let engine = RtBoxEngine::new(&config);
    let outcomes = vec![
        RmOutcome { name: "a".to_string(), error: None },
        RmOutcome { name: "b".to_string(), error: None },
    ];
    assert!(engine.rm(&outcomes).is_ok());
}

#[test]
fn rm_targets_all_takes_every_labeled_container() {
    let config = RtBoxConfig::default();
    let engine = RtBoxEngine::new(&config);
    let summaries = vec![
        summary(Some("aaa"), &["one"], Some("img1"), Some(false), true),
        summary(Some("bbb"), &["two"], Some("img2"), Some(true), true),
    ];
    let records = engine.list(true, &summaries).expect("listing succeeds");
    let targets = engine.rm_targets(&records, &vec!["ignored".to_string()], true);
    assert_eq!(targets, vec!["one".to_string(), "two".to_string()]);
    let named = engine.rm_targets(&records, &vec!["one".to_string()], false);
    assert_eq!(named, vec!["one".to_string()]);
}

#[test]
fn effective_image_falls_back_to_the_configured_default() {
    let config = RtBoxConfig::default();
    let engine = RtBoxEngine::new(&config);
    assert_eq!(engine.effective_image(Some("img:1".to_string())), "img:1");
    assert_eq!(engine.effective_image(None), "fedora:latest");
}

#[test]
fn rtbox_create_with_image() {
    // A create request for "alex" from "test-image:latest", driven to a
    // record through a successful runtime outcome.
    let config = RtBoxConfig::default();
    let engine = RtBoxEngine::new(&config);
    let h = host(&["/"], &[]);
    let spec = engine.create_spec("alex", "test-image:latest", &h, &identity(), "/usr/bin/rtbox");
    assert_eq!(spec.name, "alex");
    assert_eq!(spec.image, "test-image:latest");
    let created = engine.create_record(
        "alex",
        "test-image:latest",
        Ok(Handle { id: "xyz".to_string(), status: "created".to_string() }),
    );
    let record = created.ok().expect("create yields a record");
    assert_eq!(record.name, "alex");
    assert_eq!(record.image, "test-image:latest");
}

#[test]
fn rtbox_list_not_all() {
    let config = RtBoxConfig::default();
    let engine = RtBoxEngine::new(&config);
    let records = engine.list(false, &vec![]).expect("empty listing succeeds");
    assert_eq!(records.len(), 0);
}

#[test]
fn rtbox_list_all() {
    let config = RtBoxConfig::default();
    let engine = RtBoxEngine::new(&config);
    let records = engine.list(true, &vec![]).expect("empty listing succeeds");
    assert_eq!(records.len(), 0);
}
