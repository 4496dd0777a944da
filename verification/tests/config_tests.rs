use k8socks::config::{Config, ConfigServiceImpl, KeyValue, PodResources};

fn empty_layer() -> Config {
    Config {
        kubeconfig: None,
        context: None,
        namespace: None,
        ssh_public_key_path: None,
        ssh_username: None,
        local_socks_port: None,
        pod_ttl_seconds: None,
        pod_image: None,
        pod_resources: None,
        pod_labels: None,
        pod_annotations: None,
        log_level: None,
    }
}

#[test]
fn test_config_precedence() {
    // 1. Start with defaults
    let mut final_config = Config::default();
    assert_eq!(final_config.namespace, Some("default".to_string()));
    assert_eq!(final_config.local_socks_port, Some(1080));
    assert_eq!(final_config.context, None);

    // 2. Create a "file" config layer
    let file_config = Config {
        namespace: Some("from-file".to_string()),
        local_socks_port: Some(9999),
        context: Some("file-context".to_string()),
        kubeconfig: None,
        ssh_public_key_path: None,
        ssh_username: None,
        pod_ttl_seconds: None,
        pod_image: None,
        pod_resources: None,
        pod_labels: None,
        pod_annotations: None,
        log_level: None,
    };

    // Merge file config over defaults
    final_config.merge(file_config);
    assert_eq!(final_config.namespace, Some("from-file".to_string()));
    assert_eq!(final_config.local_socks_port, Some(9999));
    assert_eq!(final_config.context, Some("file-context".to_string()));

    // 3. Create a "CLI" config layer
    let cli_config = Config {
        namespace: Some("from-cli".to_string()),
        local_socks_port: None,
        context: None,
        kubeconfig: Some("/path/from/cli".to_string()),
        ssh_public_key_path: None,
        ssh_username: None,
        pod_ttl_seconds: None,
        pod_image: None,
        pod_resources: None,
        pod_labels: None,
        pod_annotations: None,
        log_level: None,
    };

    // Merge CLI config over the existing config
    final_config.merge(cli_config);

    // Assert final state
    assert_eq!(final_config.namespace, Some("from-cli".to_string()));
    assert_eq!(final_config.local_socks_port, Some(9999));
    assert_eq!(final_config.context, Some("file-context".to_string()));
    assert_eq!(final_config.kubeconfig, Some("/path/from/cli".to_string()));
    assert_eq!(final_config.ssh_username, Some("k8socks".to_string()));
}

#[test]
fn lib_test_config_precedence() {
    // 1. Start with defaults
    let mut final_config = Config::default();
    assert_eq!(final_config.namespace, Some("default".to_string()));
    assert_eq!(final_config.local_socks_port, Some(1080));
    assert_eq!(final_config.context, None);

    // 2. Create a "file" config layer over the defaults
    let file_config = Config {
        namespace: Some("from-file".to_string()),
        local_socks_port: Some(9999),
        context: Some("file-context".to_string()),
        ..Default::default()
    };

    // Merge file config over defaults
    final_config.merge(file_config);
    assert_eq!(final_config.namespace, Some("from-file".to_string()));
    assert_eq!(final_config.local_socks_port, Some(9999));
    assert_eq!(final_config.context, Some("file-context".to_string()));

    // 3. Create a "CLI" config layer
    let cli_config = Config {
        namespace: Some("from-cli".to_string()),
        local_socks_port: None,
        context: None,
        kubeconfig: Some("/path/from/cli".to_string()),
        ssh_public_key_path: None,
        ssh_username: None,
        pod_ttl_seconds: None,
        pod_image: None,
        pod_resources: None,
        pod_labels: None,
        pod_annotations: None,
        log_level: None,
    };

    // Merge CLI config over the existing config
    final_config.merge(cli_config);

    // Assert final state
    assert_eq!(final_config.namespace, Some("from-cli".to_string()));
    assert_eq!(final_config.local_socks_port, Some(9999));
    assert_eq!(final_config.context, Some("file-context".to_string()));
    assert_eq!(final_config.kubeconfig, Some("/path/from/cli".to_string()));
    assert_eq!(final_config.ssh_username, Some("k8socks".to_string()));
}

#[test]
fn merge_absent_layer_keeps_base() {
    let mut base = Config::default();
    base.merge(empty_layer());
    assert_eq!(base, Config::default());
}

#[test]
fn merge_is_idempotent() {
    let layer = Config {
        namespace: Some("ns".to_string()),
        local_socks_port: Some(7000),
        ..empty_layer()
    };
    let mut once = Config::default();
    once.merge(Config {
        namespace: Some("ns".to_string()),
        local_socks_port: Some(7000),
        ..empty_layer()
    });
    let mut twice = Config::default();
    twice.merge(Config {
        namespace: Some("ns".to_string()),
        local_socks_port: Some(7000),
        ..empty_layer()
    });
    twice.merge(layer);
    assert_eq!(once, twice);
}

#[test]
fn merge_full_layer_replaces_base() {
    let full = Config {
        kubeconfig: Some("kc".to_string()),
        context: Some("ctx".to_string()),
        namespace: Some("ns".to_string()),
        ssh_public_key_path: Some("key".to_string()),
        ssh_username: Some("user".to_string()),
        local_socks_port: Some(1),
        pod_ttl_seconds: Some(2),
        pod_image: Some("img".to_string()),
        pod_resources: Some(PodResources {
            cpu: Some("1m".to_string()),
            memory: Some("1Mi".to_string()),
        }),
        pod_labels: Some(vec![KeyValue {
            key: "a".to_string(),
            value: "b".to_string(),
        }]),
        pod_annotations: Some(vec![]),
        log_level: Some("debug".to_string()),
    };
    let mut base = Config::default();
    base.merge(Config {
        kubeconfig: Some("kc".to_string()),
        context: Some("ctx".to_string()),
        namespace: Some("ns".to_string()),
        ssh_public_key_path: Some("key".to_string()),
        ssh_username: Some("user".to_string()),
        local_socks_port: Some(1),
        pod_ttl_seconds: Some(2),
        pod_image: Some("img".to_string()),
        pod_resources: Some(PodResources {
            cpu: Some("1m".to_string()),
            memory: Some("1Mi".to_string()),
        }),
        pod_labels: Some(vec![KeyValue {
            key: "a".to_string(),
            value: "b".to_string(),
        }]),
        pod_annotations: Some(vec![]),
        log_level: Some("debug".to_string()),
    });
    assert_eq!(base, full);
}

#[test]
fn expand_tilde_with_home() {
    assert_eq!(
        k8socks::config::expand_tilde_with("~", "/home/user"),
        "/home/user"
    );
    assert_eq!(
        k8socks::config::expand_tilde_with("~/.ssh/id_rsa.pub", "/home/user"),
        "/home/user/.ssh/id_rsa.pub"
    );
    assert_eq!(
        k8socks::config::expand_tilde_with("/etc/config", "/home/user"),
        "/etc/config"
    );
    assert_eq!(
        k8socks::config::expand_tilde_with("~other/file", "/home/user"),
        "~other/file"
    );
    assert_eq!(k8socks::config::expand_tilde_with("", "/home/user"), "");
}

#[test]
fn expand_tilde_leaves_plain_paths() {
    let r = ConfigServiceImpl::expand_tilde("/absolute/path");
    assert_eq!(r, Some("/absolute/path".to_string()));
    let r = ConfigServiceImpl::expand_tilde("relative/path");
    assert_eq!(r, Some("relative/path".to_string()));
}

#[test]
fn default_config_values() {
    let c = Config::default();
    assert_eq!(c.kubeconfig, Some("~/.kube/config".to_string()));
    assert_eq!(c.ssh_public_key_path, Some("~/.ssh/id_rsa.pub".to_string()));
    assert_eq!(c.pod_ttl_seconds, Some(900));
    assert_eq!(c.pod_image, Some("linuxserver/openssh-server:latest".to_string()));
    assert_eq!(
        c.pod_resources,
        Some(PodResources {
            cpu: Some("50m".to_string()),
            memory: Some("64Mi".to_string()),
        })
    );
    assert_eq!(
        c.pod_labels,
        Some(vec![KeyValue {
            key: "app".to_string(),
            value: "k8socks".to_string(),
        }])
    );
    assert_eq!(c.pod_annotations, Some(vec![]));
    assert_eq!(c.log_level, Some("info".to_string()));
}
