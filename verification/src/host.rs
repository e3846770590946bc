//! Host-resource resolution: the fixed candidate tables of host bind
//! mounts and session environment variables, filtered down to what the
//! host actually offers at invocation time.
//!
//! Resolution is pure: the host's relevant state — which candidate paths
//! exist, which environment variables are set — is captured in a
//! [`HostState`] value by the caller, and the functions here decide, in
//! candidate order, what goes into the container specification.

use vstd::prelude::*;
use crate::text::{dec_of, push_dec, push_str_chars, chars_string, str_views};

verus! {

/// Mathematical image of a [`MountSpec`].
#[verifier::ext_equal]
pub ghost struct MountSpecV {
    pub source: Seq<char>,
    pub destination: Seq<char>,
    pub options: Seq<char>,
}

/// One host path offered to the container: where it comes from on the
/// host, where it appears inside, and the bind options (colon-separated
/// flags such as read-only or slave propagation).
pub struct MountSpec {
    pub source: String,
    pub destination: String,
    pub options: String,
}

impl View for MountSpec {
    type V = MountSpecV;

    open spec fn view(&self) -> MountSpecV {
        MountSpecV { source: self.source@, destination: self.destination@, options: self.options@ }
    }
}

impl MountSpec {
    /// A field-for-field copy.
    pub fn duplicate(&self) -> (r: MountSpec)
        ensures
            r@ == self@,
    {
        MountSpec {
            source: self.source.clone(),
            destination: self.destination.clone(),
            options: self.options.clone(),
        }
    }

    /// The individual bind flags, split out of the colon-separated
    /// options field.
    pub fn options_list(&self) -> (r: Vec<String>)
        ensures
            str_views(r@) == crate::text::split_of(self@.options, ':'),
    {
        crate::text::split_chars(self.options.as_str(), ':')
    }
}

/// Mathematical image of an [`EnvEntry`].
#[verifier::ext_equal]
pub ghost struct EnvEntryV {
    pub key: Seq<char>,
    pub value: Seq<char>,
}

/// One environment variable carried from the host session into the
/// container.
pub struct EnvEntry {
    pub key: String,
    pub value: String,
}

impl View for EnvEntry {
    type V = EnvEntryV;

    open spec fn view(&self) -> EnvEntryV {
        EnvEntryV { key: self.key@, value: self.value@ }
    }
}

/// Mathematical image of a [`HostState`].
pub ghost struct HostStateV {
    pub existing: Seq<Seq<char>>,
    pub env: Seq<EnvEntryV>,
}

/// What resolution reads of the host, captured as plain values: the
/// candidate paths that exist on the host filesystem, and the variables
/// set in the host process environment.  Building it is the caller's
/// (unverified) reading step; everything decided from it is verified.
pub struct HostState {
    pub existing_paths: Vec<String>,
    pub env: Vec<EnvEntry>,
}

/// The views of a sequence of mount specifications.
pub open spec fn mount_views(s: Seq<MountSpec>) -> Seq<MountSpecV> {
    Seq::new(s.len(), |i: int| s[i]@)
}

/// The views of a sequence of environment entries.
pub open spec fn env_views(s: Seq<EnvEntry>) -> Seq<EnvEntryV> {
    Seq::new(s.len(), |i: int| s[i]@)
}

impl View for HostState {
    type V = HostStateV;

    open spec fn view(&self) -> HostStateV {
        HostStateV { existing: str_views(self.existing_paths@), env: env_views(self.env@) }
    }
}

/// Whether path `p` exists on the host described by `h`.
pub open spec fn path_exists(h: HostStateV, p: Seq<char>) -> bool {
    exists|i: int| 0 <= i < h.existing.len() && h.existing[i] == p
}

/// The value of environment variable `k` on the host, reading the entry
/// list front to back: the first entry with key `k` wins.
pub open spec fn env_lookup(env: Seq<EnvEntryV>, k: Seq<char>) -> Option<Seq<char>>
    decreases env.len(),
{
    if env.len() == 0 {
        None
    } else if env[0].key == k {
        Some(env[0].value)
    } else {
        env_lookup(env.drop_first(), k)
    }
}

/// The mount candidates that survive resolution against host `h`: those
/// whose source exists, in candidate order.
pub open spec fn resolved_mounts_of(cands: Seq<MountSpecV>, h: HostStateV) -> Seq<MountSpecV> {
    cands.filter(|m: MountSpecV| path_exists(h, m.source))
}

/// The environment entries that survive resolution: for each candidate
/// name in order, the host's value when the variable is set.
pub open spec fn resolved_env_of(cands: Seq<Seq<char>>, env: Seq<EnvEntryV>) -> Seq<EnvEntryV>
    decreases cands.len(),
{
    if cands.len() == 0 {
        Seq::empty()
    } else {
        let rest = resolved_env_of(cands.drop_last(), env);
        match env_lookup(env, cands.last()) {
            Some(v) => rest + seq![EnvEntryV { key: cands.last(), value: v }],
            None => rest,
        }
    }
}

/// Whether `p` exists on the host, by scanning the captured path list.
pub fn host_has_path(host: &HostState, p: &String) -> (b: bool)
    ensures
        b == path_exists(host@, p@),
{
    let n = host.existing_paths.len();
    for i in 0..n
        invariant
            n == host.existing_paths@.len(),
            forall|j: int| 0 <= j < i ==> host@.existing[j] != p@,
    {
        if host.existing_paths[i].eq(p) {
            proof {
                assert(host@.existing[i as int] == p@);
            }
            return true;
        }
    }
    false
}

/// The host's value for environment variable `key`, when set.
pub fn host_env_value(host: &HostState, key: &String) -> (r: Option<String>)
    ensures
        match r {
            Some(v) => env_lookup(host@.env, key@) == Some(v@),
            None => env_lookup(host@.env, key@) is None,
        },
{
    let n = host.env.len();
    proof {
        assert(host@.env.skip(0) =~= host@.env);
    }
    for i in 0..n
        invariant
            n == host.env@.len(),
            env_lookup(host@.env, key@) == env_lookup(host@.env.skip(i as int), key@),
    {
        proof {
            assert(host@.env.skip(i as int)[0] == host@.env[i as int]);
        }
        if host.env[i].key.eq(key) {
            return Some(host.env[i].value.clone());
        }
        proof {
            assert(host@.env.skip(i as int).drop_first() =~= host@.env.skip(i + 1));
        }
    }
    proof {
        assert(host@.env.skip(n as int).len() == 0);
    }
    None
}

/// Filters the mount candidates down to those whose source path exists on
/// the host, preserving candidate order.
pub fn resolve_mounts(candidates: &Vec<MountSpec>, host: &HostState) -> (r: Vec<MountSpec>)
    ensures
        mount_views(r@) == resolved_mounts_of(mount_views(candidates@), host@),
{
    let ghost pred = |m: MountSpecV| path_exists(host@, m.source);
    let n = candidates.len();
    let mut out: Vec<MountSpec> = Vec::new();
    for i in 0..n
        invariant
            n == candidates@.len(),
            mount_views(out@) =~= mount_views(candidates@.subrange(0, i as int)).filter(pred),
            pred == (|m: MountSpecV| path_exists(host@, m.source)),
    {
        let keep = host_has_path(host, &candidates[i].source);
        if keep {
            out.push(candidates[i].duplicate());
        }
        proof {
            let prev = mount_views(candidates@.subrange(0, i as int));
            let cur = mount_views(candidates@.subrange(0, i + 1));
            assert(cur.drop_last() =~= prev);
            assert(cur.last() == candidates@[i as int]@);
            reveal(Seq::filter);
            assert(mount_views(out@) =~= cur.filter(pred));
        }
    }
    proof {
        assert(candidates@.subrange(0, n as int) =~= candidates@);
    }
    out
}

/// Filters the environment candidates down to those set on the host,
/// preserving candidate order and taking the host's values.
pub fn resolve_env(candidates: &Vec<String>, host: &HostState) -> (r: Vec<EnvEntry>)
    ensures
        env_views(r@) == resolved_env_of(str_views(candidates@), host@.env),
{
    let n = candidates.len();
    let mut out: Vec<EnvEntry> = Vec::new();
    for i in 0..n
        invariant
            n == candidates@.len(),
            env_views(out@) =~= resolved_env_of(str_views(candidates@.subrange(0, i as int)), host@.env),
    {
        let looked = host_env_value(host, &candidates[i]);
        match looked {
            Some(v) => {
                out.push(EnvEntry { key: candidates[i].clone(), value: v });
            },
            None => {},
        }
        proof {
            let prev = str_views(candidates@.subrange(0, i as int));
            let cur = str_views(candidates@.subrange(0, i + 1));
            assert(cur.drop_last() =~= prev);
            assert(cur.last() == candidates@[i as int]@);
            assert(env_views(out@) =~= resolved_env_of(cur, host@.env));
        }
    }
    proof {
        assert(candidates@.subrange(0, n as int) =~= candidates@);
    }
    out
}

/// The fixed, ordered table of host integration points offered to every
/// container: the root bind, machine id, virtualization/systemd/udev
/// runtime directories, tmp, the flatpak store, the coredump store, the
/// journal, the host mount namespace, and the caller's home directory.
pub open spec fn mount_candidates_of(home: Seq<char>) -> Seq<MountSpecV> {
    seq![
        (MountSpecV { source: "/"@, destination: "/run/host"@, options: "rbind"@ }),
        (MountSpecV { source: "/etc/machine-id"@, destination: "/etc/machine-id"@, options: "rbind:ro"@ }),
        (MountSpecV { source: "/run/libvirt"@, destination: "/run/libvirt"@, options: "rbind"@ }),
        (MountSpecV { source: "/run/systemd/journal"@, destination: "/run/systemd/journal"@, options: "rbind"@ }),
        (MountSpecV { source: "/run/systemd/resolve"@, destination: "/run/systemd/resolve"@, options: "rbind"@ }),
        (MountSpecV { source: "/run/systemd/sessions"@, destination: "/run/systemd/sessions"@, options: "rbind"@ }),
        (MountSpecV { source: "/run/systemd/system"@, destination: "/run/systemd/system"@, options: "rbind"@ }),
        (MountSpecV { source: "/run/systemd/users"@, destination: "/run/systemd/users"@, options: "rbind"@ }),
        (MountSpecV { source: "/run/udev/data"@, destination: "/run/udev/data"@, options: "rbind"@ }),
        (MountSpecV { source: "/run/udev/tags"@, destination: "/run/udev/tags"@, options: "rbind"@ }),
        (MountSpecV { source: "/tmp"@, destination: "/tmp"@, options: "rbind"@ }),
        (MountSpecV { source: "/var/lib/flatpak"@, destination: "/var/lib/flatpak"@, options: "rbind:ro"@ }),
        (MountSpecV { source: "/var/lib/libvirt"@, destination: "/var/lib/libvirt"@, options: "rbind"@ }),
        (MountSpecV { source: "/var/lib/systemd/coredump"@, destination: "/var/lib/systemd/coredump"@, options: "rbind:ro"@ }),
        (MountSpecV { source: "/var/log/journal"@, destination: "/var/log/journal"@, options: "rbind:ro"@ }),
        (MountSpecV { source: "/var/mnt"@, destination: "/var/mnt"@, options: "rbind:rslave"@ }),
        (MountSpecV { source: home, destination: home, options: "rbind"@ }),
    ]
}

/// The fixed, ordered list of session environment variables worth
/// carrying into an interactive container: display server, locale,
/// desktop session, terminal and XDG session variables.
pub open spec fn env_candidates_of() -> Seq<Seq<char>> {
    seq![
        "DBUS_SESSION_BUS_ADDRESS"@,
        "DESKTOP_SESSION"@,
        "DISPLAY"@,
        "GDMSESSION"@,
        "GDM_LANG"@,
        "HOME"@,
        "HOSTNAME"@,
        "LANG"@,
        "LOGNAME"@,
        "LSCOLORS"@,
        "LS_COLORS"@,
        "QT_IM_MODULE"@,
        "QT_WAYLAND_DECORATION"@,
        "SESSION_MANAGER"@,
        "TERM"@,
        "USER"@,
        "USERNAME"@,
        "WAYLAND_DISPLAY"@,
        "XCURSOR_SIZE"@,
        "XCURSOR_THEME"@,
        "XDG_CURRENT_DESKTOP"@,
        "XDG_DATA_DIRS"@,
        "XDG_MENU_PREFIX"@,
        "XDG_RUNTIME_DIR"@,
        "XDG_SESSION_CLASS"@,
        "XDG_SESSION_DESKTOP"@,
        "XDG_SESSION_TYPE"@,
    ]
}

/// One mount candidate from its three parts.
fn mount_entry(source: &str, destination: &str, options: &str) -> (m: MountSpec)
    ensures
        m@ == (MountSpecV { source: source@, destination: destination@, options: options@ }),
{
    MountSpec {
        source: source.to_owned(),
        destination: destination.to_owned(),
        options: options.to_owned(),
    }
}

/// The mount candidate table for a caller whose home directory is `home`.
pub fn mount_candidates(home: &str) -> (r: Vec<MountSpec>)
    ensures
        mount_views(r@) == mount_candidates_of(home@),
{
    let mut v: Vec<MountSpec> = Vec::new();
    v.push(mount_entry("/", "/run/host", "rbind"));
    v.push(mount_entry("/etc/machine-id", "/etc/machine-id", "rbind:ro"));
    v.push(mount_entry("/run/libvirt", "/run/libvirt", "rbind"));
    v.push(mount_entry("/run/systemd/journal", "/run/systemd/journal", "rbind"));
    v.push(mount_entry("/run/systemd/resolve", "/run/systemd/resolve", "rbind"));
    v.push(mount_entry("/run/systemd/sessions", "/run/systemd/sessions", "rbind"));
    v.push(mount_entry("/run/systemd/system", "/run/systemd/system", "rbind"));
    v.push(mount_entry("/run/systemd/users", "/run/systemd/users", "rbind"));
    v.push(mount_entry("/run/udev/data", "/run/udev/data", "rbind"));
    v.push(mount_entry("/run/udev/tags", "/run/udev/tags", "rbind"));
    v.push(mount_entry("/tmp", "/tmp", "rbind"));
    v.push(mount_entry("/var/lib/flatpak", "/var/lib/flatpak", "rbind:ro"));
    v.push(mount_entry("/var/lib/libvirt", "/var/lib/libvirt", "rbind"));
    v.push(mount_entry("/var/lib/systemd/coredump", "/var/lib/systemd/coredump", "rbind:ro"));
    v.push(mount_entry("/var/log/journal", "/var/log/journal", "rbind:ro"));
    v.push(mount_entry("/var/mnt", "/var/mnt", "rbind:rslave"));
    v.push(mount_entry(home, home, "rbind"));
    proof {
        assert(mount_views(v@) =~~= mount_candidates_of(home@));
    }
    v
}

/// The environment candidate list.
pub fn env_candidates() -> (r: Vec<String>)
    ensures
        str_views(r@) == env_candidates_of(),
{
    let mut v: Vec<String> = Vec::new();
    v.push("DBUS_SESSION_BUS_ADDRESS".to_owned());
    v.push("DESKTOP_SESSION".to_owned());
    v.push("DISPLAY".to_owned());
    v.push("GDMSESSION".to_owned());
    v.push("GDM_LANG".to_owned());
    v.push("HOME".to_owned());
    v.push("HOSTNAME".to_owned());
    v.push("LANG".to_owned());
    v.push("LOGNAME".to_owned());
    v.push("LSCOLORS".to_owned());
    v.push("LS_COLORS".to_owned());
    v.push("QT_IM_MODULE".to_owned());
    v.push("QT_WAYLAND_DECORATION".to_owned());
    v.push("SESSION_MANAGER".to_owned());
    v.push("TERM".to_owned());
    v.push("USER".to_owned());
    v.push("USERNAME".to_owned());
    v.push("WAYLAND_DISPLAY".to_owned());
    v.push("XCURSOR_SIZE".to_owned());
    v.push("XCURSOR_THEME".to_owned());
    v.push("XDG_CURRENT_DESKTOP".to_owned());
    v.push("XDG_DATA_DIRS".to_owned());
    v.push("XDG_MENU_PREFIX".to_owned());
    v.push("XDG_RUNTIME_DIR".to_owned());
    v.push("XDG_SESSION_CLASS".to_owned());
    v.push("XDG_SESSION_DESKTOP".to_owned());
    v.push("XDG_SESSION_TYPE".to_owned());
    proof {
        assert(str_views(v@) =~~= env_candidates_of());
    }
    v
}

/// Whether `sub` can be read off `sup` left to right without reordering:
/// the order-preserving subsequence relation.
pub open spec fn is_subsequence_of<A>(sub: Seq<A>, sup: Seq<A>) -> bool
    decreases sub.len() + sup.len(),
{
    if sub.len() == 0 {
        true
    } else if sup.len() == 0 {
        false
    } else {
        (sub.last() == sup.last() && is_subsequence_of(sub.drop_last(), sup.drop_last()))
            || is_subsequence_of(sub, sup.drop_last())
    }
}

/// Filtering a sequence yields an order-preserving subsequence of it.
pub proof fn lemma_filter_is_subsequence<A>(s: Seq<A>, pred: spec_fn(A) -> bool)
    ensures
        is_subsequence_of(s.filter(pred), s),
    decreases s.len(),
{
    reveal(Seq::filter);
    if s.len() > 0 {
        lemma_filter_is_subsequence(s.drop_last(), pred);
        let fd = s.drop_last().filter(pred);
        if pred(s.last()) {
            assert(s.filter(pred) == fd.push(s.last()));
            assert(fd.push(s.last()).drop_last() =~= fd);
            assert(fd.push(s.last()).last() == s.last());
            assert(is_subsequence_of(s.filter(pred), s));
        } else {
            assert(s.filter(pred) == fd);
            assert(is_subsequence_of(s.filter(pred), s));
        }
    }
}

/// Every element of a filtered sequence occurs in the unfiltered one.
pub proof fn lemma_filter_elems<A>(s: Seq<A>, pred: spec_fn(A) -> bool)
    ensures
        forall|j: int|
            0 <= j < s.filter(pred).len() ==> s.contains(#[trigger] s.filter(pred)[j]),
    decreases s.len(),
{
    reveal(Seq::filter);
    if s.len() > 0 {
        lemma_filter_elems(s.drop_last(), pred);
        let f = s.filter(pred);
        let fd = s.drop_last().filter(pred);
        assert forall|j: int| 0 <= j < f.len() implies s.contains(#[trigger] f[j]) by {
            if j < fd.len() {
                assert(s.drop_last().contains(fd[j]));
                let i = choose|i: int|
                    0 <= i < s.drop_last().len() && s.drop_last()[i] == fd[j];
                assert(s[i] == f[j]);
            } else {
                assert(s[s.len() - 1] == f[j]);
            }
        }
    }
}

/// Mount resolution is sound and order-preserving: every resolved mount
/// is one of the candidates, its source exists on the host, and the
/// resolved list reads off the candidate table in order.
pub proof fn lemma_resolve_mounts_sound(cands: Seq<MountSpecV>, h: HostStateV)
    ensures
        is_subsequence_of(resolved_mounts_of(cands, h), cands),
        forall|j: int|
            0 <= j < resolved_mounts_of(cands, h).len() ==> path_exists(
                h,
                #[trigger] resolved_mounts_of(cands, h)[j].source,
            ),
        forall|j: int|
            0 <= j < resolved_mounts_of(cands, h).len() ==> cands.contains(
                #[trigger] resolved_mounts_of(cands, h)[j],
            ),
{
    let pred = |m: MountSpecV| path_exists(h, m.source);
    lemma_filter_is_subsequence(cands, pred);
    lemma_filter_elems(cands, pred);
    assert forall|j: int| 0 <= j < resolved_mounts_of(cands, h).len() implies path_exists(
        h,
        #[trigger] resolved_mounts_of(cands, h)[j].source,
    ) by {
        cands.lemma_filter_pred(pred, j);
    }
}

/// The keys of a resolved environment, in order.
pub open spec fn env_keys(entries: Seq<EnvEntryV>) -> Seq<Seq<char>> {
    Seq::new(entries.len(), |i: int| entries[i].key)
}

/// Environment resolution computes the candidate list intersected with
/// the set variables, in candidate order, each key paired with the
/// host's value.
pub proof fn lemma_resolve_env_intersection(cands: Seq<Seq<char>>, env: Seq<EnvEntryV>)
    ensures
        env_keys(resolved_env_of(cands, env)) == cands.filter(
            |k: Seq<char>| env_lookup(env, k) is Some,
        ),
        forall|j: int|
            0 <= j < resolved_env_of(cands, env).len() ==> env_lookup(
                env,
                #[trigger] resolved_env_of(cands, env)[j].key,
            ) == Some(resolved_env_of(cands, env)[j].value),
    decreases cands.len(),
{
    reveal(Seq::filter);
    let setp = |k: Seq<char>| env_lookup(env, k) is Some;
    if cands.len() == 0 {
        assert(env_keys(resolved_env_of(cands, env)) =~= cands.filter(setp));
    } else {
        lemma_resolve_env_intersection(cands.drop_last(), env);
        assert(env_keys(resolved_env_of(cands, env)) =~= cands.filter(setp));
    }
}

/// The observability line for a resolution pass: how many of the
/// candidates are active on this host.
pub fn availability_report(active: usize, total: usize) -> (r: String)
    ensures
        r@ == dec_of(active as nat) + " of "@ + dec_of(total as nat) + " active"@,
{
    let mut buf: Vec<char> = Vec::new();
    push_dec(&mut buf, active as u64);
    push_str_chars(&mut buf, " of ");
    push_dec(&mut buf, total as u64);
    push_str_chars(&mut buf, " active");
    chars_string(&buf)
}

} // verus!
