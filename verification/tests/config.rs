use rtbox::config::RtBoxConfig;

#[test]
fn builtin_defaults() {
    let c = RtBoxConfig::default();
    assert_eq!(c.default_image, "fedora:latest");
    assert_eq!(c.socket_path, "unix:///var/run/docker.sock");
}

#[test]
fn environment_overrides_the_socket() {
    let c = RtBoxConfig::fallback(Some("unix:///run/user/1000/podman/podman.sock".to_string()));
    assert_eq!(c.default_image, "fedora:latest");
    assert_eq!(c.socket_path, "unix:///run/user/1000/podman/podman.sock");
}

#[test]
fn a_parsed_config_file_wins() {
    let file = RtBoxConfig {
        default_image: "fedora-toolbox:38".to_string(),
        socket_path: "unix:///tmp/test.sock".to_string(),
    };
    let c = RtBoxConfig::new(Some(file), Some("unix:///ignored".to_string()));
    assert_eq!(c.default_image, "fedora-toolbox:38");
    assert_eq!(c.socket_path, "unix:///tmp/test.sock");
}

#[test]
fn no_file_falls_back_to_environment_then_builtin() {
    let c = RtBoxConfig::new(None, None);
    assert_eq!(c.socket_path, "unix:///var/run/docker.sock");
    let with_env = RtBoxConfig::new(None, Some("unix:///x.sock".to_string()));
    assert_eq!(with_env.socket_path, "unix:///x.sock");
}
