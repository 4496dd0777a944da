use k8socks::config::Config;
use k8socks::lifecycle::{
    delete_pod_outcome, encode_credential, prepare_deployment, readiness_decision,
    trim_ascii_space, DeleteApiResult, K8sError, ReadinessPoll,
};

#[test]
fn trim_removes_surrounding_whitespace() {
    assert_eq!(trim_ascii_space(b"  hello \n"), b"hello".to_vec());
    assert_eq!(trim_ascii_space(b"hello"), b"hello".to_vec());
    assert_eq!(trim_ascii_space(b"\t\r\n \x0b\x0c"), Vec::<u8>::new());
    assert_eq!(trim_ascii_space(b""), Vec::<u8>::new());
    assert_eq!(trim_ascii_space(b" a b "), b"a b".to_vec());
}

#[test]
fn credential_is_trimmed_and_encoded() {
    assert_eq!(encode_credential(b"hello"), "aGVsbG8=");
    assert_eq!(encode_credential(b"  hello\n"), "aGVsbG8=");
    assert_eq!(encode_credential(b"ssh-rsa AAAA user@host\n"), "c3NoLXJzYSBBQUFBIHVzZXJAaG9zdA==");
    assert_eq!(encode_credential(b"   \n"), "");
}

#[test]
fn readiness_policy() {
    assert_eq!(readiness_decision(0, true), ReadinessPoll::Ready);
    assert_eq!(readiness_decision(0, false), ReadinessPoll::KeepWaiting);
    assert_eq!(readiness_decision(59, false), ReadinessPoll::KeepWaiting);
    assert_eq!(readiness_decision(60, false), ReadinessPoll::TimedOut);
    assert_eq!(readiness_decision(61, false), ReadinessPoll::TimedOut);
    assert_eq!(readiness_decision(60, true), ReadinessPoll::Ready);
}

#[test]
fn delete_outcomes_map_to_errors() {
    assert!(delete_pod_outcome(DeleteApiResult::Deleted).is_ok());
    match delete_pod_outcome(DeleteApiResult::NotFound("k8socks-abc123".to_string())) {
        Err(K8sError::PodNotFound(name)) => assert_eq!(name, "k8socks-abc123"),
        other => panic!("expected PodNotFound, got {:?}", other.is_ok()),
    }
    match delete_pod_outcome(DeleteApiResult::Failed("forbidden".to_string())) {
        Err(K8sError::Kube(msg)) => assert_eq!(msg, "forbidden"),
        other => panic!("expected Kube error, got {:?}", other.is_ok()),
    }
}

#[test]
fn prepare_deployment_builds_name_and_manifest() {
    let config = Config::default();
    let credential = b"ssh-rsa AAAAB3NzaC1yc2E test@host\n";
    let (manifest, pod_ref) = prepare_deployment(&config, credential);
    assert_eq!(manifest.name, pod_ref.name);
    assert_eq!(pod_ref.namespace, "default");
    assert!(pod_ref.name.starts_with("k8socks-"));
    assert_eq!(pod_ref.name.len(), 14);
    // the credential arrives in the manifest trimmed and base64-encoded
    assert_eq!(
        manifest.container.env_value,
        encode_credential(credential)
    );
    assert_eq!(manifest.container.env_name, "SSH_PUBLIC_KEY");
}
