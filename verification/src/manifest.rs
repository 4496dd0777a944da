//! The workload manifest builder: a pure function from a configuration
//! snapshot, a generated workload name and an encoded credential to a
//! complete pod description, together with the name generator itself.
//!
//! The manifest embeds a startup command that installs the credential,
//! starts the SSH daemon, and after the configured number of seconds kills
//! it again: the self-destruct that bounds resource leakage even if the
//! deletion path never runs.

use vstd::prelude::*;

use crate::config::{Config, ConfigView, KeyValue, KeyValueView};
use crate::text::{digit_str, is_lower_hex_digit, spec_dec, spec_digit_char, u64_to_dec};

verus! {

/// CPU and memory requests as they appear in the manifest (always both
/// present there; a configuration that names resources must name both).
#[derive(Debug, PartialEq)]
pub struct ResourceRequests {
    pub cpu: String,
    pub memory: String,
}

/// Mathematical model of [`ResourceRequests`].
#[verifier::ext_equal]
pub struct ResourceRequestsView {
    pub cpu: Seq<char>,
    pub memory: Seq<char>,
}

impl View for ResourceRequests {
    type V = ResourceRequestsView;

    open spec fn view(&self) -> ResourceRequestsView {
        ResourceRequestsView { cpu: self.cpu@, memory: self.memory@ }
    }
}

/// The single container of the workload.
#[derive(Debug, PartialEq)]
pub struct ContainerSpec {
    pub name: String,
    pub image: Option<String>,
    pub image_pull_policy: String,
    pub command: Vec<String>,
    pub env_name: String,
    pub env_value: String,
    pub resources: Option<ResourceRequests>,
}

/// Mathematical model of [`ContainerSpec`].
#[verifier::ext_equal]
pub struct ContainerSpecView {
    pub name: Seq<char>,
    pub image: Option<Seq<char>>,
    pub image_pull_policy: Seq<char>,
    pub command: Seq<Seq<char>>,
    pub env_name: Seq<char>,
    pub env_value: Seq<char>,
    pub resources: Option<ResourceRequestsView>,
}

impl View for ContainerSpec {
    type V = ContainerSpecView;

    open spec fn view(&self) -> ContainerSpecView {
        ContainerSpecView {
            name: self.name@,
            image: self.image.deep_view(),
            image_pull_policy: self.image_pull_policy@,
            command: self.command.deep_view(),
            env_name: self.env_name@,
            env_value: self.env_value@,
            resources: match self.resources {
                Some(r) => Some(r@),
                None => None,
            },
        }
    }
}

/// A complete, declarative description of the workload: everything the
/// cluster API needs to create it.
#[derive(Debug, PartialEq)]
pub struct PodManifest {
    pub name: String,
    pub namespace: Option<String>,
    pub labels: Option<Vec<KeyValue>>,
    pub annotations: Option<Vec<KeyValue>>,
    pub container: ContainerSpec,
}

/// Mathematical model of [`PodManifest`].
#[verifier::ext_equal]
pub struct PodManifestView {
    pub name: Seq<char>,
    pub namespace: Option<Seq<char>>,
    pub labels: Option<Seq<KeyValueView>>,
    pub annotations: Option<Seq<KeyValueView>>,
    pub container: ContainerSpecView,
}

impl View for PodManifest {
    type V = PodManifestView;

    open spec fn view(&self) -> PodManifestView {
        PodManifestView {
            name: self.name@,
            namespace: self.namespace.deep_view(),
            labels: self.labels.deep_view(),
            annotations: self.annotations.deep_view(),
            container: self.container@,
        }
    }
}

/// The workload's time-to-live when the configuration does not set one.
pub open spec fn spec_ttl_or_default(ttl: Option<u64>) -> u64 {
    match ttl {
        Some(t) => t,
        None => 900,
    }
}

/// The startup command: install the credential as an authorized key, start
/// the SSH daemon in the background, sleep for the time-to-live, then kill
/// the daemon.
pub open spec fn spec_startup_command(ttl: u64) -> Seq<char> {
    "echo \"$SSH_PUBLIC_KEY\" | base64 -d > /tmp/authorized_keys && /usr/sbin/sshd -D -o 'AuthorizedKeysFile /tmp/authorized_keys' & PID=$! && "@
        + "sleep "@ + spec_dec(ttl as nat) + " && kill $PID"@
}

/// Builds the startup command for a given time-to-live, matching
/// [`spec_startup_command`] exactly.
pub fn build_startup_command(ttl: u64) -> (r: String)
    ensures
        r@ == spec_startup_command(ttl),
{
    let mut r = String::from_str(
        "echo \"$SSH_PUBLIC_KEY\" | base64 -d > /tmp/authorized_keys && /usr/sbin/sshd -D -o 'AuthorizedKeysFile /tmp/authorized_keys' & PID=$! && ",
    );
    r.append("sleep ");
    let dec = u64_to_dec(ttl);
    r.append(dec.as_str());
    r.append(" && kill $PID");
    proof {
        assert(r@ =~= spec_startup_command(ttl));
    }
    r
}

/// `sub` occurs contiguously somewhere in `s`.
pub open spec fn contains_seq(s: Seq<char>, sub: Seq<char>) -> bool {
    exists|i: int|
        0 <= i && i + sub.len() <= s.len() && #[trigger] s.subrange(i, i + sub.len() as int)
            == sub
}

/// The startup command always contains the self-destruct clause
/// "sleep <ttl>" with the configured time-to-live, rendered exactly.
pub proof fn lemma_startup_command_contains_sleep(ttl: u64)
    ensures
        contains_seq(spec_startup_command(ttl), "sleep "@ + spec_dec(ttl as nat)),
{
    let head =
        "echo \"$SSH_PUBLIC_KEY\" | base64 -d > /tmp/authorized_keys && /usr/sbin/sshd -D -o 'AuthorizedKeysFile /tmp/authorized_keys' & PID=$! && "@;
    let target = "sleep "@ + spec_dec(ttl as nat);
    let s = spec_startup_command(ttl);
    let i = head.len() as int;
    assert(s.subrange(i, i + target.len() as int) =~= target);
}

/// What the manifest builder produces: a pure function of the configuration,
/// the generated name and the encoded credential.
pub open spec fn spec_build_pod_manifest(
    c: ConfigView,
    name: Seq<char>,
    ssh_key_base64: Seq<char>,
) -> PodManifestView {
    PodManifestView {
        name: name,
        namespace: c.namespace,
        labels: c.pod_labels,
        annotations: c.pod_annotations,
        container: ContainerSpecView {
            name: "sshd"@,
            image: c.pod_image,
            image_pull_policy: "IfNotPresent"@,
            command: seq![
                "/bin/sh"@,
                "-c"@,
                spec_startup_command(spec_ttl_or_default(c.pod_ttl_seconds)),
            ],
            env_name: "SSH_PUBLIC_KEY"@,
            env_value: ssh_key_base64,
            resources: match c.pod_resources {
                Some(r) => Some(
                    ResourceRequestsView { cpu: r.cpu.unwrap(), memory: r.memory.unwrap() },
                ),
                None => None,
            },
        },
    }
}

/// Builds the pod manifest. Deterministic and free of I/O: the result is a
/// function of the three arguments alone.
pub fn build_pod_manifest(config: &Config, name: &str, ssh_key_base64: &str) -> (p: PodManifest)
    requires
        config@.pod_resources matches Some(r) ==> r.cpu is Some && r.memory is Some,
    ensures
        p@ == spec_build_pod_manifest(config@, name@, ssh_key_base64@),
{
    let ttl: u64 = match &config.pod_ttl_seconds {
        Some(t) => *t,
        None => 900,
    };
    let mut command: Vec<String> = Vec::new();
    command.push(String::from_str("/bin/sh"));
    command.push(String::from_str("-c"));
    command.push(build_startup_command(ttl));
    let resources: Option<ResourceRequests> = match &config.pod_resources {
        Some(r) => Some(
            ResourceRequests {
                cpu: r.cpu.as_ref().unwrap().clone(),
                memory: r.memory.as_ref().unwrap().clone(),
            },
        ),
        None => None,
    };
    let p = PodManifest {
        name: name.to_owned(),
        namespace: config.namespace.clone(),
        labels: config.pod_labels.clone(),
        annotations: config.pod_annotations.clone(),
        container: ContainerSpec {
            name: String::from_str("sshd"),
            image: config.pod_image.clone(),
            image_pull_policy: String::from_str("IfNotPresent"),
            command: command,
            env_name: String::from_str("SSH_PUBLIC_KEY"),
            env_value: ssh_key_base64.to_owned(),
            resources: resources,
        },
    };
    proof {
        assert(p@.container.command =~= spec_build_pod_manifest(
            config@,
            name@,
            ssh_key_base64@,
        ).container.command);
        assert(p@.container =~= spec_build_pod_manifest(config@, name@, ssh_key_base64@).container);
        assert(p@ =~= spec_build_pod_manifest(config@, name@, ssh_key_base64@));
    }
    p
}

/// The manifest builder is pure: equal inputs yield the identical manifest.
pub proof fn lemma_manifest_builder_deterministic(
    c1: ConfigView,
    c2: ConfigView,
    name1: Seq<char>,
    name2: Seq<char>,
    key1: Seq<char>,
    key2: Seq<char>,
)
    requires
        c1 == c2,
        name1 == name2,
        key1 == key2,
    ensures
        spec_build_pod_manifest(c1, name1, key1) == spec_build_pod_manifest(c2, name2, key2),
{
}

/// A well-formed generated workload name: the fixed prefix followed by six
/// lowercase hexadecimal digits.
pub open spec fn is_valid_pod_name(s: Seq<char>) -> bool {
    &&& s.len() == 14
    &&& s.subrange(0, 8) == "k8socks-"@
    &&& forall|i: int| 8 <= i < 14 ==> is_lower_hex_digit(#[trigger] s[i])
}

/// Relies on `rand::random::<u8>`: a byte from the thread-local random
/// number generator. Nothing is promised of the value.
#[verifier::external_body]
fn random_byte() -> u8 {
    rand::random::<u8>()
}

/// Generates a workload name: the fixed prefix and a random six-digit
/// lowercase hexadecimal suffix. Collision-resistant within a session and
/// produced without any I/O; the cluster API rejects the rare collision.
pub fn generate_pod_name() -> (r: String)
    ensures
        is_valid_pod_name(r@),
{
    proof {
        reveal_strlit("k8socks-");
    }
    let mut r = String::from_str("k8socks-");
    let mut i: usize = 0;
    while i < 6
        invariant
            i <= 6,
            r@.len() == 8 + i,
            r@.subrange(0, 8) == "k8socks-"@,
            forall|j: int| 8 <= j < 8 + i ==> is_lower_hex_digit(#[trigger] r@[j]),
        decreases 6 - i,
    {
        let b = random_byte();
        let d = b % 16;
        let ghost prev = r@;
        r.append(digit_str(d));
        proof {
            assert(r@.subrange(0, 8) =~= prev.subrange(0, 8));
            assert(r@[prev.len() as int] == spec_digit_char(d as int));
        }
        i = i + 1;
    }
    proof {
        assert(r@.len() == 14);
    }
    r
}

} // verus!
