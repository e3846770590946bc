use rtbox::host::{
    availability_report, env_candidates, mount_candidates, resolve_env, resolve_mounts, EnvEntry,
    HostState, MountSpec,
};

fn host(paths: &[&str], env: &[(&str, &str)]) -> HostState {
    HostState {
        existing_paths: paths.iter().map(|p| p.to_string()).collect(),
        env: env
            .iter()
            .map(|(k, v)| EnvEntry { key: k.to_string(), value: v.to_string() })
            .collect(),
    }
}

#[test]
fn mount_table_is_fixed_and_ordered() {
    let table = mount_candidates("/home/alex");
    assert_eq!(table.len(), 17);
    assert_eq!(table[0].source, "/");
    assert_eq!(table[0].destination, "/run/host");
    assert_eq!(table[0].options, "rbind");
    assert_eq!(table[1].source, "/etc/machine-id");
    assert_eq!(table[1].options, "rbind:ro");
    assert_eq!(table[10].source, "/tmp");
    assert_eq!(table[16].source, "/home/alex");
    assert_eq!(table[16].destination, "/home/alex");
    assert_eq!(table[16].options, "rbind");
}

#[test]
fn resolve_mounts_keeps_only_existing_sources_in_order() {
    // The host offers /tmp and the caller's home, but not
    // /var/lib/libvirt (nor anything else in the table).
    let table = mount_candidates("/home/alex");
    let h = host(&["/tmp", "/home/alex"], &[]);
    let resolved = resolve_mounts(&table, &h);
    assert_eq!(resolved.len(), 2);
    assert_eq!(resolved[0].source, "/tmp");
    assert_eq!(resolved[1].source, "/home/alex");
    let report = availability_report(resolved.len(), table.len());
    assert_eq!(report, "2 of 17 active");
}

#[test]
fn resolve_mounts_empty_host_yields_nothing() {
    let table = mount_candidates("/root");
    let h = host(&[], &[]);
    let resolved = resolve_mounts(&table, &h);
    assert_eq!(resolved.len(), 0);
}

#[test]
fn resolve_mounts_preserves_table_order() {
    let table = mount_candidates("/home/alex");
    let h = host(&["/home/alex", "/tmp", "/", "/run/udev/data"], &[]);
    let resolved = resolve_mounts(&table, &h);
    let sources: Vec<&str> = resolved.iter().map(|m| m.source.as_str()).collect();
    assert_eq!(sources, vec!["/", "/run/udev/data", "/tmp", "/home/alex"]);
}

#[test]
fn resolve_env_is_candidates_intersected_with_host() {
    let names = env_candidates();
    assert_eq!(names.len(), 27);
    let h = host(
        &[],
        &[
            ("HOME", "/home/alex"),
            ("NOT_A_CANDIDATE", "x"),
            ("DISPLAY", ":0"),
        ],
    );
    let entries = resolve_env(&names, &h);
    // Candidate order, not host order: DISPLAY comes before HOME.
    assert_eq!(entries.len(), 2);
    assert_eq!(entries[0].key, "DISPLAY");
    assert_eq!(entries[0].value, ":0");
    assert_eq!(entries[1].key, "HOME");
    assert_eq!(entries[1].value, "/home/alex");
}

#[test]
fn resolve_env_first_host_entry_wins() {
    let names = env_candidates();
    let h = host(&[], &[("TERM", "xterm"), ("TERM", "dumb")]);
    let entries = resolve_env(&names, &h);
    assert_eq!(entries.len(), 1);
    assert_eq!(entries[0].value, "xterm");
}

#[test]
fn options_split_on_colons() {
    let m = MountSpec {
        source: "/etc/machine-id".to_string(),
        destination: "/etc/machine-id".to_string(),
        options: "rbind:ro".to_string(),
    };
    assert_eq!(m.options_list(), vec!["rbind".to_string(), "ro".to_string()]);
    let single = MountSpec {
        source: "/tmp".to_string(),
        destination: "/tmp".to_string(),
        options: "rbind".to_string(),
    };
    assert_eq!(single.options_list(), vec!["rbind".to_string()]);
}

#[test]
fn availability_report_renders_counts() {
    assert_eq!(availability_report(0, 5), "0 of 5 active");
    assert_eq!(availability_report(17, 17), "17 of 17 active");
}
