//! The workload lifecycle: preparing a deployment (name, credential
//! encoding, manifest), the readiness-poll policy with its fixed timeout,
//! and the deletion policy. The cluster API calls themselves happen outside
//! the library; this module decides what to submit and how to interpret
//! what comes back.

use vstd::prelude::*;

use crate::config::Config;
use crate::manifest::{
    build_pod_manifest, generate_pod_name, is_valid_pod_name, spec_build_pod_manifest, PodManifest,
};

verus! {

/// Errors surfaced by the lifecycle manager. Control-plane failures carry
/// the underlying message.
#[derive(Debug)]
pub enum K8sError {
    Kube(String),
    KubeConfig(String),
    InferConfig(String),
    PodNotReady,
    SshKeyError(String, String),
    PodNotFound(String),
}

/// A reference to a deployed workload: its generated name and namespace.
#[derive(Debug)]
pub struct PodRef {
    pub name: String,
    pub namespace: String,
}

/// Mathematical model of a [`PodRef`].
#[verifier::ext_equal]
pub struct PodRefView {
    pub name: Seq<char>,
    pub namespace: Seq<char>,
}

impl View for PodRef {
    type V = PodRefView;

    open spec fn view(&self) -> PodRefView {
        PodRefView { name: self.name@, namespace: self.namespace@ }
    }
}

impl Clone for PodRef {
    fn clone(&self) -> (r: Self)
        ensures
            r == *self,
    {
        PodRef { name: self.name.clone(), namespace: self.namespace.clone() }
    }
}

/// How long readiness polling waits before giving up, in seconds.
pub const READY_TIMEOUT_SECONDS: u64 = 60;

/// The verdict of one readiness poll.
#[derive(Debug, PartialEq, Eq, Structural)]
pub enum ReadinessPoll {
    Ready,
    KeepWaiting,
    TimedOut,
}

/// The readiness policy: a running workload is ready; an elapsed wait at or
/// past the timeout gives up; otherwise keep polling.
pub open spec fn spec_readiness_decision(elapsed_seconds: u64, running: bool) -> ReadinessPoll {
    if running {
        ReadinessPoll::Ready
    } else if elapsed_seconds >= READY_TIMEOUT_SECONDS {
        ReadinessPoll::TimedOut
    } else {
        ReadinessPoll::KeepWaiting
    }
}

/// Decides one readiness poll from the elapsed wait and the cluster-reported
/// running condition. No retries beyond the timeout: on `TimedOut` the
/// caller decides whether to delete.
pub fn readiness_decision(elapsed_seconds: u64, running: bool) -> (r: ReadinessPoll)
    ensures
        r == spec_readiness_decision(elapsed_seconds, running),
{
    if running {
        ReadinessPoll::Ready
    } else if elapsed_seconds >= READY_TIMEOUT_SECONDS {
        ReadinessPoll::TimedOut
    } else {
        ReadinessPoll::KeepWaiting
    }
}

/// What the control plane answered to a deletion request, reduced to plain
/// values.
pub enum DeleteApiResult {
    Deleted,
    NotFound(String),
    Failed(String),
}

/// Maps a deletion answer to the lifecycle manager's result: deletion
/// succeeded, the workload was already gone (surfaced as `PodNotFound`, which
/// cleanup callers tolerate), or the call failed.
pub fn delete_pod_outcome(res: DeleteApiResult) -> (r: Result<(), K8sError>)
    ensures
        res is Deleted <==> r is Ok,
        (res matches DeleteApiResult::NotFound(n) ==> r == Result::<(), K8sError>::Err(
            K8sError::PodNotFound(n),
        )),
        (res matches DeleteApiResult::Failed(m) ==> r == Result::<(), K8sError>::Err(
            K8sError::Kube(m),
        )),
{
    match res {
        DeleteApiResult::Deleted => Ok(()),
        DeleteApiResult::NotFound(n) => Err(K8sError::PodNotFound(n)),
        DeleteApiResult::Failed(m) => Err(K8sError::Kube(m)),
    }
}

/// ASCII whitespace as the credential trim understands it.
pub open spec fn is_ascii_space(b: u8) -> bool {
    b == 32 || (9 <= b && b <= 13)
}

/// `s` without leading whitespace.
pub open spec fn spec_trim_start(s: Seq<u8>) -> Seq<u8>
    decreases s.len(),
{
    if s.len() > 0 && is_ascii_space(s[0]) {
        spec_trim_start(s.subrange(1, s.len() as int))
    } else {
        s
    }
}

/// `s` without trailing whitespace.
pub open spec fn spec_trim_end(s: Seq<u8>) -> Seq<u8>
    decreases s.len(),
{
    if s.len() > 0 && is_ascii_space(s[s.len() - 1]) {
        spec_trim_end(s.subrange(0, s.len() - 1))
    } else {
        s
    }
}

/// `s` without leading or trailing whitespace.
pub open spec fn spec_trim(s: Seq<u8>) -> Seq<u8> {
    spec_trim_end(spec_trim_start(s))
}

/// Copies `s` with leading and trailing ASCII whitespace removed.
pub fn trim_ascii_space(s: &[u8]) -> (r: Vec<u8>)
    ensures
        r@ == spec_trim(s@),
{
    let len = s.len();
    proof {
        assert(s@.subrange(0, len as int) =~= s@);
    }
    let mut start: usize = 0;
    while start < len && (s[start] == 32 || (9 <= s[start] && s[start] <= 13))
        invariant
            len == s@.len(),
            start <= len,
            spec_trim_start(s@) == spec_trim_start(s@.subrange(start as int, len as int)),
        decreases len - start,
    {
        proof {
            let tail = s@.subrange(start as int, len as int);
            assert(tail.subrange(1, tail.len() as int) =~= s@.subrange(
                start + 1,
                len as int,
            ));
        }
        start = start + 1;
    }
    let ghost t = s@.subrange(start as int, len as int);
    proof {
        assert(spec_trim_start(s@) == t);
    }
    let mut end: usize = len;
    while end > start && (s[end - 1] == 32 || (9 <= s[end - 1] && s[end - 1] <= 13))
        invariant
            len == s@.len(),
            start <= end <= len,
            t == s@.subrange(start as int, len as int),
            spec_trim_end(t) == spec_trim_end(s@.subrange(start as int, end as int)),
        decreases end,
    {
        proof {
            let u = s@.subrange(start as int, end as int);
            assert(u.subrange(0, u.len() - 1) =~= s@.subrange(start as int, end - 1));
        }
        end = end - 1;
    }
    proof {
        let u = s@.subrange(start as int, end as int);
        if u.len() > 0 {
            assert(u[u.len() - 1] == s@[end - 1]);
        }
        assert(spec_trim_end(u) == u);
    }
    let mut r: Vec<u8> = Vec::new();
    let mut i: usize = start;
    while i < end
        invariant
            start <= i <= end <= len,
            len == s@.len(),
            r@ =~= s@.subrange(start as int, i as int),
        decreases end - i,
    {
        r.push(s[i]);
        proof {
            assert(r@ =~= s@.subrange(start as int, i + 1));
        }
        i = i + 1;
    }
    proof {
        assert(r@ =~= s@.subrange(start as int, end as int));
    }
    r
}

/// The base64 rendering of a byte sequence under the standard alphabet with
/// padding: a function of the bytes alone.
pub uninterp spec fn base64_of(bytes: Seq<u8>) -> Seq<char>;

/// Relies on base64's `Engine::encode` with the `STANDARD` engine: the
/// standard-alphabet, padded base64 encoding of the input bytes, which
/// depends on the bytes alone; an empty input encodes to the empty string.
#[verifier::external_body]
fn base64_encode(bytes: &[u8]) -> (r: String)
    ensures
        r@ == base64_of(bytes@),
        bytes@.len() == 0 ==> r@.len() == 0,
{
    base64::Engine::encode(&base64::engine::general_purpose::STANDARD, bytes)
}

/// Encodes a credential for injection into the manifest: the file content,
/// trimmed of surrounding whitespace, rendered in base64.
pub fn encode_credential(content: &[u8]) -> (r: String)
    ensures
        r@ == base64_of(spec_trim(content@)),
{
    let trimmed = trim_ascii_space(content);
    base64_encode(trimmed.as_slice())
}

/// Prepares one deployment: generates the workload name, encodes the
/// credential, and builds the manifest. Pure but for the randomness in the
/// name; one remote workload is created when the caller submits the
/// manifest.
pub fn prepare_deployment(config: &Config, credential: &[u8]) -> (r: (PodManifest, PodRef))
    requires
        config@.namespace is Some,
        config@.pod_resources matches Some(pr) ==> pr.cpu is Some && pr.memory is Some,
    ensures
        is_valid_pod_name(r.1@.name),
        r.0@ == spec_build_pod_manifest(config@, r.1@.name, base64_of(spec_trim(credential@))),
        r.0@.name == r.1@.name,
        Some(r.1@.namespace) == config@.namespace,
{
    let name = generate_pod_name();
    let key = encode_credential(credential);
    let manifest = build_pod_manifest(config, name.as_str(), key.as_str());
    let namespace = config.namespace.as_ref().unwrap().clone();
    (manifest, PodRef { name, namespace })
}

} // verus!
