//! The container lifecycle engine: composing a runtime-agnostic
//! container specification from the host negotiation, and mapping the
//! runtime's answers into tool-level records and structured errors.
//!
//! The engine is pure: the surrounding binary reads the host, submits
//! the composed [`ContainerSpec`] to the container runtime, and hands
//! the outcome back as plain values.

use vstd::prelude::*;
use crate::config::RtBoxConfig;
use crate::error::RtBoxError;
use crate::host::{
    EnvEntry, EnvEntryV, HostState, HostStateV, MountSpec, MountSpecV, env_candidates,
    env_candidates_of, env_views, mount_candidates, mount_candidates_of, mount_views,
    resolve_env, resolve_mounts, resolved_env_of, resolved_mounts_of,
};
use crate::init::{InitPhase, RtBoxInit, RtBoxInitState};
use crate::text::{chars_string, int_dec_of, push_int, push_str_chars, str_views};

verus! {

/// Mathematical image of an [`RtBox`] record.
#[verifier::ext_equal]
pub ghost struct RtBoxV {
    pub id: Seq<char>,
    pub name: Seq<char>,
    pub image: Seq<char>,
    pub status: Seq<char>,
}

/// A toolbox container as reported to the user: a read-only projection
/// of runtime state, produced only from a successful runtime response.
#[derive(Debug)]
pub struct RtBox {
    pub id: String,
    pub name: String,
    pub image: String,
    pub status: String,
}

impl View for RtBox {
    type V = RtBoxV;

    open spec fn view(&self) -> RtBoxV {
        RtBoxV { id: self.id@, name: self.name@, image: self.image@, status: self.status@ }
    }
}

/// The views of a sequence of records.
pub open spec fn rtbox_views(s: Seq<RtBox>) -> Seq<RtBoxV> {
    Seq::new(s.len(), |i: int| s[i]@)
}

/// Mathematical image of an [`RtBoxExecOutput`].
#[verifier::ext_equal]
pub ghost struct ExecOutputV {
    pub stdout: Seq<char>,
    pub stderr: Seq<char>,
    pub return_code: u64,
}

/// Output of a command executed inside a container.
#[derive(Debug)]
pub struct RtBoxExecOutput {
    pub stdout: Vec<char>,
    pub stderr: Vec<char>,
    pub return_code: u64,
}

impl View for RtBoxExecOutput {
    type V = ExecOutputV;

    open spec fn view(&self) -> ExecOutputV {
        ExecOutputV { stdout: self.stdout@, stderr: self.stderr@, return_code: self.return_code }
    }
}

/// Mathematical image of a [`LabelEntry`].
#[verifier::ext_equal]
pub ghost struct LabelV {
    pub key: Seq<char>,
    pub value: Seq<char>,
}

/// One metadata label attached to a container at creation time.
pub struct LabelEntry {
    pub key: String,
    pub value: String,
}

impl View for LabelEntry {
    type V = LabelV;

    open spec fn view(&self) -> LabelV {
        LabelV { key: self.key@, value: self.value@ }
    }
}

/// The views of a sequence of labels.
pub open spec fn label_views(s: Seq<LabelEntry>) -> Seq<LabelV> {
    Seq::new(s.len(), |i: int| s[i]@)
}

/// The fixed label key that marks a container as managed by this tool.
/// Membership is determined solely by this label; no local state is
/// kept.
pub open spec fn toolbox_label() -> Seq<char> {
    "com.github.containers.toolbox"@
}

/// The toolbox membership label key as an owned string.
pub fn toolbox_label_string() -> (r: String)
    ensures
        r@ == toolbox_label(),
{
    "com.github.containers.toolbox".to_owned()
}

/// Mathematical image of a [`ContainerSpec`].
#[verifier::ext_equal]
pub ghost struct ContainerSpecV {
    pub name: Seq<char>,
    pub image: Seq<char>,
    pub entrypoint: Seq<Seq<char>>,
    pub env: Seq<EnvEntryV>,
    pub mounts: Seq<MountSpecV>,
    pub labels: Seq<LabelV>,
    pub hostname: Seq<char>,
    pub workdir: Seq<char>,
    pub userns_mode: Seq<char>,
}

/// Everything the container runtime needs to create a toolbox
/// container.  Constructed fresh per `create` call and discarded after
/// submission.  Uniqueness of `name` among active toolbox containers is
/// enforced by the runtime, not locally.
pub struct ContainerSpec {
    pub name: String,
    pub image: String,
    pub entrypoint: Vec<String>,
    pub env: Vec<EnvEntry>,
    pub mounts: Vec<MountSpec>,
    pub labels: Vec<LabelEntry>,
    pub hostname: String,
    pub workdir: String,
    pub userns_mode: String,
}

impl View for ContainerSpec {
    type V = ContainerSpecV;

    open spec fn view(&self) -> ContainerSpecV {
        ContainerSpecV {
            name: self.name@,
            image: self.image@,
            entrypoint: str_views(self.entrypoint@),
            env: env_views(self.env@),
            mounts: mount_views(self.mounts@),
            labels: label_views(self.labels@),
            hostname: self.hostname@,
            workdir: self.workdir@,
            userns_mode: self.userns_mode@,
        }
    }
}

/// Mathematical image of a [`Handle`].
#[verifier::ext_equal]
pub ghost struct HandleV {
    pub id: Seq<char>,
    pub status: Seq<char>,
}

/// What a successful runtime `create` hands back: the new container's
/// id and its reported status.
pub struct Handle {
    pub id: String,
    pub status: String,
}

impl View for Handle {
    type V = HandleV;

    open spec fn view(&self) -> HandleV {
        HandleV { id: self.id@, status: self.status@ }
    }
}

/// The in-container startup command for a caller with the given
/// identity: the tool's own binary as visible inside the container
/// under the root-bind prefix, re-invoked in init mode with the host
/// identity spelled out.
pub open spec fn entrypoint_of(exe: Seq<char>, identity: crate::init::InitStateV) -> Seq<
    Seq<char>,
> {
    seq![
        "/run/host"@ + exe,
        "init"@,
        "--uid"@,
        int_dec_of(identity.uid),
        "--gid"@,
        int_dec_of(identity.gid),
        "--home"@,
        identity.home,
        "--username"@,
        identity.username,
        "--shell"@,
        identity.shell,
    ]
}

/// The entrypoint invariant: its first element is always an absolute
/// path — the tool's own binary, reachable inside the container under
/// the root-bind prefix.
pub proof fn lemma_entrypoint_absolute(exe: Seq<char>, identity: crate::init::InitStateV)
    ensures
        entrypoint_of(exe, identity).len() == 12,
        entrypoint_of(exe, identity)[0].len() > 0,
        entrypoint_of(exe, identity)[0][0] == '/',
{
    reveal_strlit("/run/host");
}

/// Composes the in-container startup command.  The target image need
/// not contain this tool: the host binary at `exe_host_path` is reached
/// through the root bind mount, and the host identity is passed as
/// arguments because the container's own process attributes cannot
/// reveal it.
pub fn build_entrypoint(exe_host_path: &str, identity: &RtBoxInitState) -> (r: Vec<String>)
    ensures
        str_views(r@) == entrypoint_of(exe_host_path@, identity@),
{
    let mut v: Vec<String> = Vec::new();
    let mut head: Vec<char> = Vec::new();
    push_str_chars(&mut head, "/run/host");
    push_str_chars(&mut head, exe_host_path);
    v.push(chars_string(&head));
    v.push("init".to_owned());
    v.push("--uid".to_owned());
    let mut uid_buf: Vec<char> = Vec::new();
    push_int(&mut uid_buf, identity.uid as i64);
    v.push(chars_string(&uid_buf));
    v.push("--gid".to_owned());
    let mut gid_buf: Vec<char> = Vec::new();
    push_int(&mut gid_buf, identity.gid as i64);
    v.push(chars_string(&gid_buf));
    v.push("--home".to_owned());
    v.push(identity.home.to_owned());
    v.push("--username".to_owned());
    v.push(identity.username.to_owned());
    v.push("--shell".to_owned());
    v.push(identity.shell.to_owned());
    proof {
        assert(str_views(v@) =~~= entrypoint_of(exe_host_path@, identity@));
    }
    v
}

/// The container specification composed for `create`: resolved mounts
/// and environment for host `h`, the init entrypoint for `identity`,
/// the membership label, and the fixed hostname/workdir/identity-mapping
/// choices.
pub open spec fn container_spec_of(
    name: Seq<char>,
    image: Seq<char>,
    h: HostStateV,
    identity: crate::init::InitStateV,
    exe: Seq<char>,
) -> ContainerSpecV {
    ContainerSpecV {
        name: name,
        image: image,
        entrypoint: entrypoint_of(exe, identity),
        env: resolved_env_of(env_candidates_of(), h.env),
        mounts: resolved_mounts_of(mount_candidates_of(identity.home), h),
        labels: seq![LabelV { key: toolbox_label(), value: "true"@ }],
        hostname: name + ".host"@,
        workdir: "/var/home/akdev"@,
        userns_mode: "keep-id"@,
    }
}

/// The lifecycle engine: decides what is submitted to the container
/// runtime and how its answers are reported.
pub struct RtBoxEngine<'a> {
    pub config: &'a RtBoxConfig,
}

impl<'a> RtBoxEngine<'a> {
    /// An engine over the given configuration.
    pub fn new(rtbox_config: &'a RtBoxConfig) -> (r: Self)
        ensures
            r.config == rtbox_config,
    {
        RtBoxEngine { config: rtbox_config }
    }

    /// The image `create` will use: the requested one, or the
    /// configured default when none was requested.
    pub fn effective_image(&self, requested: Option<String>) -> (r: String)
        ensures
            r@ == match requested {
                Some(i) => i@,
                None => self.config@.default_image,
            },
    {
        match requested {
            Some(i) => i,
            None => self.config.default_image.clone(),
        }
    }

    /// Composes the full container specification for `create`,
    /// resolving the mount and environment candidates against the host
    /// and building the init entrypoint.  Purely a function of its
    /// arguments: identical host state yields an identical
    /// specification.
    pub fn create_spec(
        &self,
        name: &str,
        image: &str,
        host: &HostState,
        identity: &RtBoxInitState,
        exe_host_path: &str,
    ) -> (s: ContainerSpec)
        ensures
            s@ == container_spec_of(name@, image@, host@, identity@, exe_host_path@),
    {
        let candidates = mount_candidates(identity.home);
        let mounts = resolve_mounts(&candidates, host);
        let env_names = env_candidates();
        let env = resolve_env(&env_names, host);
        let entrypoint = build_entrypoint(exe_host_path, identity);
        let mut labels: Vec<LabelEntry> = Vec::new();
        labels.push(LabelEntry { key: toolbox_label_string(), value: "true".to_owned() });
        let mut hostname: Vec<char> = Vec::new();
        push_str_chars(&mut hostname, name);
        push_str_chars(&mut hostname, ".host");
        let spec = ContainerSpec {
            name: name.to_owned(),
            image: image.to_owned(),
            entrypoint: entrypoint,
            env: env,
            mounts: mounts,
            labels: labels,
            hostname: chars_string(&hostname),
            workdir: "/var/home/akdev".to_owned(),
            userns_mode: "keep-id".to_owned(),
        };
        proof {
            assert(spec@ =~~= container_spec_of(name@, image@, host@, identity@, exe_host_path@));
        }
        spec
    }

    /// Maps the runtime's answer to `create` into the tool's record: on
    /// success a [`RtBox`] carrying the new handle's id and status, on
    /// failure a structured error with command context `create` and the
    /// runtime's message as root cause.  No record is ever produced
    /// from a failure.
    pub fn create_record(&self, name: &str, image: &str, outcome: Result<Handle, String>) -> (r:
        Result<RtBox, RtBoxError>)
        ensures
            r is Ok <==> outcome is Ok,
            outcome matches Ok(h) ==> r matches Ok(b) && b@ == (RtBoxV {
                id: h@.id,
                name: name@,
                image: image@,
                status: h@.status,
            }),
            outcome matches Err(m) ==> r matches Err(e) && e@.command == Some("create"@)
                && e@.message == Some("error calling the container runtime"@) && e@.root_cause
                == Some(m@),
    {
        match outcome {
            Ok(h) => Ok(
                RtBox { id: h.id, name: name.to_owned(), image: image.to_owned(), status: h.status },
            ),
            Err(m) => Err(
                RtBoxError {
                    command: Some("create".to_owned()),
                    message: Some("error calling the container runtime".to_owned()),
                    root_cause: Some(m),
                },
            ),
        }
    }

    /// Reports an execution that produced no output and returned zero.
    /// Proxying a live interactive exec session is outside this core.
    pub fn run(&self, container: String, command: Vec<String>) -> (r: Result<
        RtBoxExecOutput,
        RtBoxError,
    >)
        ensures
            r matches Ok(o) && o.stdout@ == seq!['\u{0}'] && o.stderr@ == seq!['\u{0}']
                && o.return_code == 0,
    {
        let _ = container;
        let _ = command;
        let mut stdout: Vec<char> = Vec::new();
        stdout.push('\u{0}');
        let mut stderr: Vec<char> = Vec::new();
        stderr.push('\u{0}');
        proof {
            assert(stdout@ =~= seq!['\u{0}']);
            assert(stderr@ =~= seq!['\u{0}']);
        }
        Ok(RtBoxExecOutput { stdout: stdout, stderr: stderr, return_code: 0 })
    }

    /// The init-mode entry: refuses to supervise unless running as
    /// process 1, and otherwise hands back the supervisor at the start
    /// of its state machine together with the captured identity —
    /// before any signal masking, forking or session change.
    pub fn init<'b>(
        &self,
        pid: u32,
        uid: i32,
        gid: i32,
        username: &'b str,
        home: &'b str,
        shell: &'b str,
    ) -> (r: Result<(RtBoxInit, RtBoxInitState<'b>), RtBoxError>)
        ensures
            pid == 1 <==> r is Ok,
            r matches Ok(p) ==> p.0.phase == InitPhase::BlockingSignals && !p.0.bootstrapped
                && p.1@ == (crate::init::InitStateV {
                uid: uid as int,
                gid: gid as int,
                username: username@,
                home: home@,
                shell: shell@,
            }),
            r matches Err(e) ==> e@.command == Some("init"@) && e@.message == Some(
                "this is only supposed to be run as the init system of a container"@,
            ) && e@.root_cause == Some("we are not running as PID 1"@),
    {
        match RtBoxInit::start(pid) {
            Ok(supervisor) => Ok(
                (
                    supervisor,
                    RtBoxInitState {
                        uid: uid,
                        gid: gid,
                        username: username,
                        home: home,
                        shell: shell,
                    },
                ),
            ),
            Err(e) => Err(e),
        }
    }
}

/// Mathematical image of a [`ContainerSummary`].
#[verifier::ext_equal]
pub ghost struct SummaryV {
    pub id: Option<Seq<char>>,
    pub names: Seq<Seq<char>>,
    pub image: Option<Seq<char>>,
    pub exited: Option<bool>,
    pub labels: Seq<LabelV>,
}

/// One container as enumerated by the runtime: every field the runtime
/// may or may not have filled in.
pub struct ContainerSummary {
    pub id: Option<String>,
    pub names: Vec<String>,
    pub image: Option<String>,
    pub exited: Option<bool>,
    pub labels: Vec<LabelEntry>,
}

impl View for ContainerSummary {
    type V = SummaryV;

    open spec fn view(&self) -> SummaryV {
        SummaryV {
            id: crate::error::opt_str_view(self.id),
            names: str_views(self.names@),
            image: crate::error::opt_str_view(self.image),
            exited: self.exited,
            labels: label_views(self.labels@),
        }
    }
}

/// The views of a sequence of summaries.
pub open spec fn summary_views(s: Seq<ContainerSummary>) -> Seq<SummaryV> {
    Seq::new(s.len(), |i: int| s[i]@)
}

/// Whether the runtime reported this container as one of ours.
pub open spec fn summary_labeled(s: SummaryV) -> bool {
    exists|i: int| 0 <= i < s.labels.len() && s.labels[i].key == toolbox_label()
}

/// Whether the summary carries every field a record needs.
pub open spec fn summary_complete(s: SummaryV) -> bool {
    &&& s.id is Some
    &&& s.names.len() > 0
    &&& s.image is Some
    &&& s.exited is Some
}

/// Whether the summary belongs in the listing: it must be labeled, and
/// unless everything was asked for, its derived status must be running.
pub open spec fn summary_included(s: SummaryV, all: bool) -> bool {
    summary_labeled(s) && (all || s.exited == Some(false))
}

/// The status derived from the runtime's exited flag.
pub open spec fn status_of(exited: bool) -> Seq<char> {
    if exited {
        "exited"@
    } else {
        "running"@
    }
}

/// The record projected out of a (complete) summary.
pub open spec fn record_of_summary(s: SummaryV) -> RtBoxV {
    RtBoxV {
        id: s.id->Some_0,
        name: s.names[0],
        image: s.image->Some_0,
        status: status_of(s.exited->Some_0),
    }
}

/// The records a listing reports: the included summaries, in runtime
/// order, projected to records.
pub open spec fn listed_records(ss: Seq<SummaryV>, all: bool) -> Seq<RtBoxV>
    decreases ss.len(),
{
    if ss.len() == 0 {
        Seq::empty()
    } else {
        let rest = listed_records(ss.drop_last(), all);
        if summary_included(ss.last(), all) {
            rest + seq![record_of_summary(ss.last())]
        } else {
            rest
        }
    }
}

/// Whether the summary carries the toolbox membership label.
pub fn summary_has_label(s: &ContainerSummary) -> (b: bool)
    ensures
        b == summary_labeled(s@),
{
    let key = toolbox_label_string();
    let n = s.labels.len();
    for i in 0..n
        invariant
            n == s.labels@.len(),
            key@ == toolbox_label(),
            forall|j: int| 0 <= j < i ==> s@.labels[j].key != toolbox_label(),
    {
        if s.labels[i].key.eq(&key) {
            proof {
                assert(s@.labels[i as int].key == toolbox_label());
            }
            return true;
        }
    }
    false
}

/// The status string derived from the exited flag.
pub fn status_string(exited: bool) -> (r: String)
    ensures
        r@ == status_of(exited),
{
    if exited {
        "exited".to_owned()
    } else {
        "running".to_owned()
    }
}

/// Mathematical image of an [`RmOutcome`].
#[verifier::ext_equal]
pub ghost struct RmOutcomeV {
    pub name: Seq<char>,
    pub error: Option<Seq<char>>,
}

/// The runtime's answer for one removal target: the container's name,
/// and the failure message when removing it failed.
pub struct RmOutcome {
    pub name: String,
    pub error: Option<String>,
}

impl View for RmOutcome {
    type V = RmOutcomeV;

    open spec fn view(&self) -> RmOutcomeV {
        RmOutcomeV { name: self.name@, error: crate::error::opt_str_view(self.error) }
    }
}

/// The views of a sequence of removal outcomes.
pub open spec fn rm_outcome_views(s: Seq<RmOutcome>) -> Seq<RmOutcomeV> {
    Seq::new(s.len(), |i: int| s[i]@)
}

/// The names of the targets whose removal failed, in attempt order.
pub open spec fn failed_names_of(os: Seq<RmOutcomeV>) -> Seq<Seq<char>>
    decreases os.len(),
{
    if os.len() == 0 {
        Seq::empty()
    } else {
        let rest = failed_names_of(os.drop_last());
        if os.last().error is Some {
            rest + seq![os.last().name]
        } else {
            rest
        }
    }
}

/// The failure messages of the targets whose removal failed, in
/// attempt order.
pub open spec fn failed_causes_of(os: Seq<RmOutcomeV>) -> Seq<Seq<char>>
    decreases os.len(),
{
    if os.len() == 0 {
        Seq::empty()
    } else {
        let rest = failed_causes_of(os.drop_last());
        if os.last().error is Some {
            rest + seq![os.last().error->Some_0]
        } else {
            rest
        }
    }
}

impl<'a> RtBoxEngine<'a> {
    /// Maps the runtime's container enumeration into the tool's
    /// records: only containers carrying the membership label are
    /// reported, only running ones unless everything was asked for,
    /// each with its status derived from the exited flag.  A labeled
    /// summary missing a required field makes the whole listing fail —
    /// a runtime error, not a panic.
    pub fn list(&self, all: bool, summaries: &Vec<ContainerSummary>) -> (r: Result<
        Vec<RtBox>,
        RtBoxError,
    >)
        ensures
            r is Ok <==> (forall|k: int|
                0 <= k < summaries@.len() && summary_labeled(#[trigger] summary_views(summaries@)[k])
                    ==> summary_complete(summary_views(summaries@)[k])),
            r matches Ok(records) ==> rtbox_views(records@) == listed_records(
                summary_views(summaries@),
                all,
            ),
            r matches Err(e) ==> e@.command == Some("list"@) && e@.message == Some(
                "container summary missing a required field"@,
            ) && e@.root_cause is None,
    {
        let n = summaries.len();
        let mut out: Vec<RtBox> = Vec::new();
        for i in 0..n
            invariant
                n == summaries@.len(),
                forall|k: int|
                    0 <= k < i && summary_labeled(#[trigger] summary_views(summaries@)[k])
                        ==> summary_complete(summary_views(summaries@)[k]),
                rtbox_views(out@) =~= listed_records(
                    summary_views(summaries@.subrange(0, i as int)),
                    all,
                ),
        {
            let s = &summaries[i];
            if summary_has_label(s) {
                proof {
                    assert(summary_views(summaries@)[i as int] == summaries@[i as int]@);
                }
                let id = match &s.id {
                    Some(v) => v.clone(),
                    None => {
                        proof {
                            assert(!summary_complete(summary_views(summaries@)[i as int]));
                        }
                        return Err(Self::missing_field_error());
                    },
                };
                if s.names.len() == 0 {
                    proof {
                        assert(!summary_complete(summary_views(summaries@)[i as int]));
                    }
                    return Err(Self::missing_field_error());
                }
                let name = s.names[0].clone();
                let image = match &s.image {
                    Some(v) => v.clone(),
                    None => {
                        proof {
                            assert(!summary_complete(summary_views(summaries@)[i as int]));
                        }
                        return Err(Self::missing_field_error());
                    },
                };
                let exited = match s.exited {
                    Some(b) => b,
                    None => {
                        proof {
                            assert(!summary_complete(summary_views(summaries@)[i as int]));
                        }
                        return Err(Self::missing_field_error());
                    },
                };
                if all || !exited {
                    out.push(RtBox { id: id, name: name, image: image, status: status_string(exited) });
                }
            }
            proof {
                let prev = summary_views(summaries@.subrange(0, i as int));
                let cur = summary_views(summaries@.subrange(0, i + 1));
                assert(cur.drop_last() =~= prev);
                assert(cur.last() == summaries@[i as int]@);
                assert(rtbox_views(out@) =~= listed_records(cur, all));
            }
        }
        proof {
            assert(summaries@.subrange(0, n as int) =~= summaries@);
        }
        Ok(out)
    }

    /// The error reported when a summary lacks a required field.
    fn missing_field_error() -> (e: RtBoxError)
        ensures
            e@.command == Some("list"@),
            e@.message == Some("container summary missing a required field"@),
            e@.root_cause is None,
    {
        RtBoxError {
            command: Some("list".to_owned()),
            message: Some("container summary missing a required field".to_owned()),
            root_cause: None,
        }
    }

    /// The removal targets: every listed record's name when everything
    /// was asked for, otherwise the names the caller gave.
    pub fn rm_targets(&self, records: &Vec<RtBox>, names: &Vec<String>, all: bool) -> (r: Vec<
        String,
    >)
        ensures
            all ==> str_views(r@) == Seq::new(records@.len(), |i: int| records@[i].name@),
            !all ==> str_views(r@) == str_views(names@),
    {
        let mut out: Vec<String> = Vec::new();
        if all {
            let n = records.len();
            for i in 0..n
                invariant
                    n == records@.len(),
                    out@.len() == i,
                    forall|j: int| 0 <= j < i ==> #[trigger] out@[j]@ == records@[j].name@,
            {
                out.push(records[i].name.clone());
            }
            proof {
                assert(str_views(out@) =~= Seq::new(records@.len(), |i: int| records@[i].name@));
            }
        } else {
            let n = names.len();
            for i in 0..n
                invariant
                    n == names@.len(),
                    out@.len() == i,
                    forall|j: int| 0 <= j < i ==> #[trigger] out@[j]@ == names@[j]@,
            {
                out.push(names[i].clone());
            }
            proof {
                assert(str_views(out@) =~= str_views(names@));
            }
        }
        out
    }

    /// Aggregates the per-target removal outcomes: success only when
    /// every target was removed; otherwise a single partial-failure
    /// error naming every target that failed — never an early abort
    /// after the first failure.
    pub fn rm(&self, outcomes: &Vec<RmOutcome>) -> (r: Result<(), RtBoxError>)
        ensures
            r is Ok <==> failed_names_of(rm_outcome_views(outcomes@)).len() == 0,
            r matches Err(e) ==> e@.command == Some("rm"@) && e@.message == Some(
                "failed to remove: "@ + crate::text::join_of(
                    failed_names_of(rm_outcome_views(outcomes@)),
                    ", "@,
                ),
            ) && e@.root_cause == Some(
                crate::text::join_of(failed_causes_of(rm_outcome_views(outcomes@)), "; "@),
            ),
    {
        let n = outcomes.len();
        let mut failed: Vec<String> = Vec::new();
        let mut causes: Vec<String> = Vec::new();
        for i in 0..n
            invariant
                n == outcomes@.len(),
                str_views(failed@) =~= failed_names_of(
                    rm_outcome_views(outcomes@.subrange(0, i as int)),
                ),
                str_views(causes@) =~= failed_causes_of(
                    rm_outcome_views(outcomes@.subrange(0, i as int)),
                ),
        {
            match &outcomes[i].error {
                Some(cause) => {
                    failed.push(outcomes[i].name.clone());
                    causes.push(cause.clone());
                },
                None => {},
            }
            proof {
                let prev = rm_outcome_views(outcomes@.subrange(0, i as int));
                let cur = rm_outcome_views(outcomes@.subrange(0, i + 1));
                assert(cur.drop_last() =~= prev);
                assert(cur.last() == outcomes@[i as int]@);
                assert(str_views(failed@) =~= failed_names_of(cur));
                assert(str_views(causes@) =~= failed_causes_of(cur));
            }
        }
        proof {
            assert(outcomes@.subrange(0, n as int) =~= outcomes@);
        }
        if failed.len() == 0 {
            Ok(())
        } else {
            let mut msg: Vec<char> = Vec::new();
            push_str_chars(&mut msg, "failed to remove: ");
            crate::text::push_joined(&mut msg, &failed, ", ");
            let mut cause: Vec<char> = Vec::new();
            crate::text::push_joined(&mut cause, &causes, "; ");
            Err(
                RtBoxError {
                    command: Some("rm".to_owned()),
                    message: Some(chars_string(&msg)),
                    root_cause: Some(chars_string(&cause)),
                },
            )
        }
    }
}

/// A listing of running containers is exactly the labeled containers
/// whose derived status is running: filtering the full listing by
/// status gives the restricted listing, and every record in the
/// restricted listing reports status running.
pub proof fn lemma_list_running_exactly(ss: Seq<SummaryV>)
    requires
        forall|k: int|
            0 <= k < ss.len() && summary_labeled(#[trigger] ss[k]) ==> summary_complete(ss[k]),
    ensures
        listed_records(ss, false) == listed_records(ss, true).filter(
            |r: RtBoxV| r.status == "running"@,
        ),
        forall|j: int|
            0 <= j < listed_records(ss, false).len() ==> #[trigger] listed_records(
                ss,
                false,
            )[j].status == "running"@,
    decreases ss.len(),
{
    reveal(Seq::filter);
    reveal_strlit("running");
    reveal_strlit("exited");
    let statusp = |r: RtBoxV| r.status == "running"@;
    if ss.len() == 0 {
        assert(listed_records(ss, false) =~= listed_records(ss, true).filter(statusp));
    } else {
        let d = ss.drop_last();
        assert forall|k: int|
            0 <= k < d.len() && summary_labeled(#[trigger] d[k]) implies summary_complete(
            d[k],
        ) by {
            assert(d[k] == ss[k]);
        }
        lemma_list_running_exactly(d);
        let s = ss.last();
        let rec = record_of_summary(s);
        let lt = listed_records(ss, true);
        let lf = listed_records(ss, false);
        let lt_d = listed_records(d, true);
        let lf_d = listed_records(d, false);
        if summary_included(s, true) {
            assert(summary_labeled(s));
            assert(summary_complete(s));
            assert(lt == lt_d + seq![rec]);
            assert(lt.drop_last() =~= lt_d);
            assert(lt.last() == rec);
            if s.exited == Some(false) {
                assert(rec.status == "running"@);
                assert(statusp(rec));
                assert(lt.filter(statusp) == lt_d.filter(statusp) + seq![rec]);
                assert(lf == lf_d + seq![rec]);
                assert(lf =~= lt.filter(statusp));
            } else {
                assert(s.exited->Some_0 == true);
                assert(rec.status == "exited"@);
                assert("exited"@.len() == 6);
                assert("running"@.len() == 7);
                assert(!statusp(rec));
                assert(lt.filter(statusp) == lt_d.filter(statusp));
                assert(lf == lf_d);
                assert(lf =~= lt.filter(statusp));
            }
        } else {
            assert(lt == lt_d);
            assert(lf == lf_d);
            assert(lf =~= lt.filter(statusp));
        }
    }
}

/// Aggregated removal reports every failure and no success: the failed
/// list names exactly the targets whose outcome carried an error, in
/// attempt order.
pub proof fn lemma_rm_reports_all(os: Seq<RmOutcomeV>)
    ensures
        failed_names_of(os) == os.filter(|o: RmOutcomeV| o.error is Some).map_values(
            |o: RmOutcomeV| o.name,
        ),
        forall|i: int|
            0 <= i < os.len() && (#[trigger] os[i].error) is Some ==> failed_names_of(os).contains(
                os[i].name,
            ),
    decreases os.len(),
{
    reveal(Seq::filter);
    let p = |o: RmOutcomeV| o.error is Some;
    let nm = |o: RmOutcomeV| o.name;
    if os.len() == 0 {
        assert(failed_names_of(os) =~= os.filter(p).map_values(nm));
    } else {
        let d = os.drop_last();
        lemma_rm_reports_all(d);
        let f = failed_names_of(os);
        let fd = failed_names_of(d);
        if p(os.last()) {
            assert(os.filter(p) == d.filter(p).push(os.last()));
            assert(os.filter(p).map_values(nm) =~= d.filter(p).map_values(nm).push(
                os.last().name,
            ));
            assert(f =~= os.filter(p).map_values(nm));
        } else {
            assert(os.filter(p) == d.filter(p));
            assert(f =~= os.filter(p).map_values(nm));
        }
        assert forall|i: int| 0 <= i < os.len() && (#[trigger] os[i].error) is Some implies f
            .contains(os[i].name) by {
            if i < os.len() - 1 {
                assert(d[i] == os[i]);
                assert(fd.contains(os[i].name));
                let j = choose|j: int| 0 <= j < fd.len() && fd[j] == os[i].name;
                assert(f[j] == os[i].name);
            } else {
                assert(os.last().error is Some);
                assert(f[f.len() - 1] == os[i].name);
            }
        }
    }
}

/// Specification building is deterministic: identical host state and
/// identical inputs compose identical container specifications.
pub proof fn lemma_create_spec_deterministic(
    name: Seq<char>,
    image: Seq<char>,
    h1: HostStateV,
    h2: HostStateV,
    identity: crate::init::InitStateV,
    exe: Seq<char>,
)
    requires
        h1 == h2,
    ensures
        container_spec_of(name, image, h1, identity, exe) == container_spec_of(
            name,
            image,
            h2,
            identity,
            exe,
        ),
{
}

} // verus!
