//! Tool configuration: the default container image and the runtime
//! socket path.
//!
//! Loading the optional JSON config file and reading the environment are
//! the caller's (unverified) edge; the fallback decisions are made here.

use vstd::prelude::*;

verus! {

/// Mathematical image of an [`RtBoxConfig`].
pub ghost struct RtBoxConfigV {
    pub default_image: Seq<char>,
    pub socket_path: Seq<char>,
}

/// The tool's configuration: which image `create` uses when none is
/// requested, and where the container runtime listens.
#[derive(Debug)]
pub struct RtBoxConfig {
    pub default_image: String,
    pub socket_path: String,
}

impl View for RtBoxConfig {
    type V = RtBoxConfigV;

    open spec fn view(&self) -> RtBoxConfigV {
        RtBoxConfigV { default_image: self.default_image@, socket_path: self.socket_path@ }
    }
}

impl Default for RtBoxConfig {
    /// The built-in defaults, used when neither a config file nor a
    /// socket override is present.
    fn default() -> (r: Self)
        ensures
            r@.default_image == "fedora:latest"@,
            r@.socket_path == "unix:///var/run/docker.sock"@,
    {
        RtBoxConfig {
            default_image: "fedora:latest".to_owned(),
            socket_path: "unix:///var/run/docker.sock".to_owned(),
        }
    }
}

impl RtBoxConfig {
    /// The configuration in force when no config file was found: the
    /// built-in defaults, with the socket path overridden by the
    /// caller's environment when set.
    pub fn fallback(env_socket: Option<String>) -> (r: Self)
        ensures
            r@.default_image == "fedora:latest"@,
            r@.socket_path == match env_socket {
                Some(s) => s@,
                None => "unix:///var/run/docker.sock"@,
            },
    {
        match env_socket {
            Some(s) => RtBoxConfig { default_image: "fedora:latest".to_owned(), socket_path: s },
            None => RtBoxConfig::default(),
        }
    }

    /// The configuration in force: what the config file supplied when it
    /// parsed, the fallback otherwise.
    pub fn new(file_config: Option<RtBoxConfig>, env_socket: Option<String>) -> (r: Self)
        ensures
            match file_config {
                Some(c) => r@ == c@,
                None => r@.default_image == "fedora:latest"@ && r@.socket_path == match env_socket {
                    Some(s) => s@,
                    None => "unix:///var/run/docker.sock"@,
                },
            },
    {
        match file_config {
            Some(c) => c,
            None => RtBoxConfig::fallback(env_socket),
        }
    }
}

} // verus!
