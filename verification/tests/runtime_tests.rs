use k8socks::config::Config;
use k8socks::logging::LogLevel;
use k8socks::proxy::{ProxyEvent, ProxyWatch, SshError, SshServiceImpl};
use k8socks::shutdown::{ShutdownCoordinator, ShutdownTrigger};
use k8socks::tunnel::TunnelRelay;

#[test]
fn shutdown_delete_fires_exactly_once_in_either_order() {
    let orders = [
        [ShutdownTrigger::Interrupt, ShutdownTrigger::ProxyExited],
        [ShutdownTrigger::ProxyExited, ShutdownTrigger::Interrupt],
    ];
    for order in orders {
        let mut c = ShutdownCoordinator::new();
        assert!(!c.cleanup_claimed());
        let first = c.on_trigger(order[0]);
        let second = c.on_trigger(order[1]);
        assert!(first);
        assert!(!second);
        assert_eq!(c.deletes_issued(), 1);
        assert_eq!(c.winner(), Some(order[0]));
        assert!(c.cleanup_claimed());
    }
}

#[test]
fn shutdown_repeated_trials_never_double_delete() {
    for trial in 0..1000 {
        let mut c = ShutdownCoordinator::new();
        let (a, b) = if trial % 2 == 0 {
            (ShutdownTrigger::Interrupt, ShutdownTrigger::ProxyExited)
        } else {
            (ShutdownTrigger::ProxyExited, ShutdownTrigger::Interrupt)
        };
        let mut deletes = 0;
        if c.on_trigger(a) {
            deletes += 1;
        }
        if c.on_trigger(b) {
            deletes += 1;
        }
        assert_eq!(deletes, 1);
        assert_eq!(c.deletes_issued(), 1);
    }
}

#[test]
fn proxy_watch_drains_all_lines_before_done() {
    let mut w = ProxyWatch::new();
    assert!(!w.is_done());
    w.on_event(ProxyEvent::StdoutLine("debug1: Connecting".to_string()));
    w.on_event(ProxyEvent::StderrLine("Warning: host key unknown".to_string()));
    w.on_event(ProxyEvent::StdoutLine("debug1: Connected".to_string()));
    w.on_event(ProxyEvent::Exited(true));
    assert!(!w.is_done());
    w.on_event(ProxyEvent::StdoutClosed);
    assert!(!w.is_done());
    w.on_event(ProxyEvent::StderrClosed);
    assert!(w.is_done());

    let log = w.log_lines();
    assert_eq!(log.len(), 3);
    assert_eq!(log[0].level, LogLevel::Info);
    assert_eq!(log[0].text, "debug1: Connecting");
    assert_eq!(log[1].level, LogLevel::Warn);
    assert_eq!(log[1].text, "Warning: host key unknown");
    assert_eq!(log[2].level, LogLevel::Info);
    assert_eq!(log[2].text, "debug1: Connected");

    assert!(w.outcome().is_ok());
}

#[test]
fn proxy_watch_burst_loses_nothing() {
    let mut w = ProxyWatch::new();
    for i in 0..10_000 {
        w.on_event(ProxyEvent::StdoutLine(format!("line {}", i)));
    }
    w.on_event(ProxyEvent::StdoutClosed);
    w.on_event(ProxyEvent::StderrClosed);
    w.on_event(ProxyEvent::Exited(true));
    assert!(w.is_done());
    let log = w.log_lines();
    assert_eq!(log.len(), 10_000);
    for (i, line) in log.iter().enumerate() {
        assert_eq!(line.text, format!("line {}", i));
    }
}

#[test]
fn proxy_nonzero_exit_is_unexpected() {
    let mut w = ProxyWatch::new();
    w.on_event(ProxyEvent::StdoutClosed);
    w.on_event(ProxyEvent::StderrClosed);
    w.on_event(ProxyEvent::Exited(false));
    assert!(w.is_done());
    assert!(matches!(w.outcome(), Err(SshError::UnexpectedExit)));
}

#[test]
fn socks_proxy_args_exact() {
    let service = SshServiceImpl::new(&Config::default());
    let args = service.socks_proxy_args(40022);
    assert_eq!(
        args,
        vec![
            "-o".to_string(),
            "StrictHostKeyChecking=no".to_string(),
            "-v".to_string(),
            "-N".to_string(),
            "-D".to_string(),
            "1080".to_string(),
            "-p".to_string(),
            "40022".to_string(),
            "k8socks@127.0.0.1".to_string(),
        ]
    );
}

#[test]
fn socks_proxy_args_use_configured_port() {
    let mut config = Config::default();
    config.local_socks_port = Some(9050);
    config.ssh_username = Some("tunneluser".to_string());
    let service = SshServiceImpl::new(&config);
    let args = service.socks_proxy_args(1);
    assert_eq!(args[5], "9050");
    assert_eq!(args[7], "1");
    assert_eq!(args[8], "tunneluser@127.0.0.1");
}

#[test]
fn tunnel_relay_round_trip_preserves_bytes() {
    // forward direction: a few megabytes in uneven chunks
    let mut forward = TunnelRelay::new();
    let payload: Vec<u8> = (0..3_000_000u32).map(|i| (i % 251) as u8).collect();
    let mut sent: Vec<u8> = Vec::new();
    let mut received: Vec<u8> = Vec::new();
    for chunk in payload.chunks(4096 + 7) {
        forward.accept(chunk);
        sent.extend_from_slice(chunk);
        if sent.len() % 3 == 0 {
            received.extend_from_slice(&forward.drain());
        }
    }
    received.extend_from_slice(&forward.drain());
    assert_eq!(received, payload);
    assert_eq!(forward.buffered_len(), 0);
}

#[test]
fn tunnel_relay_directions_are_independent() {
    let mut to_remote = TunnelRelay::new();
    let mut to_local = TunnelRelay::new();
    // interleaved writes on both directions
    for i in 0..1000u32 {
        to_remote.accept(&[(i % 256) as u8, ((i / 256) % 256) as u8]);
        to_local.accept(&[(255 - i % 256) as u8]);
    }
    let out_remote = to_remote.drain();
    let out_local = to_local.drain();
    assert_eq!(out_remote.len(), 2000);
    assert_eq!(out_local.len(), 1000);
    for i in 0..1000usize {
        assert_eq!(out_remote[2 * i] as u32, (i as u32) % 256);
        assert_eq!(out_local[i] as u32, 255 - (i as u32) % 256);
    }
}

#[test]
fn end_to_end_deploy_watch_and_single_delete() {
    // deploy succeeds: the prepared manifest and reference agree
    let config = Config::default();
    let (manifest, pod_ref) =
        k8socks::lifecycle::prepare_deployment(&config, b"ssh-ed25519 AAAA test@host\n");
    assert_eq!(manifest.name, pod_ref.name);

    // readiness observed within the timeout
    assert_eq!(
        k8socks::lifecycle::readiness_decision(3, true),
        k8socks::lifecycle::ReadinessPoll::Ready
    );

    // the tunnel reports a nonzero assigned port and the client connects to it
    let assigned_port: u16 = 40022;
    assert_ne!(assigned_port, 0);
    let service = SshServiceImpl::new(&config);
    let args = service.socks_proxy_args(assigned_port);
    assert_eq!(args[7], "40022");

    // the proxy subprocess runs, is killed externally, and exits non-zero
    let mut watch = ProxyWatch::new();
    watch.on_event(ProxyEvent::StdoutLine("debug1: Connected".to_string()));
    watch.on_event(ProxyEvent::StdoutClosed);
    watch.on_event(ProxyEvent::StderrClosed);
    watch.on_event(ProxyEvent::Exited(false));
    assert!(watch.is_done());
    assert!(matches!(watch.outcome(), Err(SshError::UnexpectedExit)));

    // exactly one delete is issued afterward, whatever else fires
    let mut coordinator = ShutdownCoordinator::new();
    let must_delete = coordinator.on_trigger(ShutdownTrigger::ProxyExited);
    assert!(must_delete);
    let duplicate = coordinator.on_trigger(ShutdownTrigger::Interrupt);
    assert!(!duplicate);
    assert_eq!(coordinator.deletes_issued(), 1);
    assert_eq!(coordinator.winner(), Some(ShutdownTrigger::ProxyExited));
}
