use smelt::settings::remote::{
    gateway_is_usable, pairing_code, remote_config_matches, remote_lifecycle_matches,
    remote_orders, task_step, IrohConnectionsState, IrohRuntimeState, IrohStatus, PairingCode,
    RemoteAccess, RemoteConfig, RemoteOrder, RemoteRuntimeState, RemoteTask, RemoteWatchdog,
    ShareCard, TaskStep,
};

fn config(enabled: bool, relay: &str, write_enabled: bool) -> RemoteConfig {
    RemoteConfig { enabled, iroh_relay: relay.to_string(), write_enabled }
}

fn access(enabled: bool) -> RemoteAccess {
    RemoteAccess {
        config: config(enabled, "r", false),
        gateway: RemoteRuntimeState { error: None },
        tunnel: IrohRuntimeState {
            connecting: false,
            pairing_uri: None,
            qr_png: None,
            error: None,
            write: false,
        },
    }
}

fn status(token: Option<&str>) -> IrohStatus {
    IrohStatus {
        endpoint_id: Some("e".to_string()),
        token: token.map(str::to_string),
        relay: Some("r".to_string()),
        write: true,
    }
}

fn code() -> Option<PairingCode> {
    Some(PairingCode { uri: "u".to_string(), qr_png: Some(vec![1]) })
}

#[test]
fn configurations_are_compared() {
    let one = config(true, "r", false);
    assert!(remote_config_matches(&one, &one.clone()));
    assert!(!remote_config_matches(&one, &config(true, "r", true)));
    assert!(remote_lifecycle_matches(&one, &config(true, "r", true)));
    assert!(!remote_lifecycle_matches(&one, &config(true, "s", false)));
    assert_eq!(RemoteConfig::default(), config(false, "", false));
}

#[test]
fn switching_on_brings_gateway_and_tunnel_up() {
    let mut remote = access(false);
    let task = remote.apply_remote_toggle(true).unwrap();
    assert_eq!(task, RemoteTask::Bootstrap(config(true, "r", false)));
    assert_eq!(
        remote_orders(&task, &remote.config),
        [
            RemoteOrder::EnsureDaemon,
            RemoteOrder::StartGatewayUnlessUsable { host: "127.0.0.1".to_string(), write: false }
        ]
    );
    let expected = remote.config.clone();
    let next = remote.bootstrap_finished(&expected, Ok(())).unwrap();
    assert!(remote.tunnel.connecting);
    assert_eq!(
        remote.share_card(),
        ShareCard::Hint("正在建立 iroh 通道…（连接 relay + 打洞）".to_string())
    );
    assert_eq!(
        remote_orders(&next, &remote.config),
        [RemoteOrder::StartTunnel { write: false, relay: "r".to_string() }]
    );
    remote.tunnel_finished(&expected, Ok(status(Some("t"))), true, code());
    assert_eq!(
        remote.share_card(),
        ShareCard::Code {
            uri: "u".to_string(),
            mode: "iroh（优先直连，必要时中继） · 可写入".to_string()
        }
    );
}

#[test]
fn switching_off_forgets_everything() {
    let mut remote = access(true);
    remote.tunnel.error = Some("x".to_string());
    let task = remote.apply_remote_toggle(false).unwrap();
    assert_eq!(remote.tunnel.error, None);
    assert_eq!(
        remote_orders(&task, &remote.config),
        [RemoteOrder::StopTunnel, RemoteOrder::StopGateway]
    );
    assert_eq!(remote_orders(&task, &config(true, "r", false)), []);
    assert!(matches!(remote.share_card(), ShareCard::Hint(_)));
}

#[test]
fn late_results_change_nothing() {
    let mut remote = access(true);
    let before = remote.config.clone();
    assert_eq!(remote.bootstrap_finished(&config(true, "other", false), Ok(())), None);
    remote.tunnel_finished(&config(false, "r", false), Ok(status(Some("t"))), true, code());
    assert_eq!(remote.tunnel.pairing_uri, None);
    remote.write_finished(&config(true, "r", true), true, Ok(()));
    assert!(!remote.tunnel.write);
    assert_eq!(remote.token_finished(&config(false, "r", false), Ok(())), (None, None));
    assert_eq!(remote.restart_finished(&config(false, "r", false), Ok(())), None);
    assert_eq!(remote.config, before);
}

#[test]
fn failures_are_shown_with_a_way_to_try_again() {
    let mut remote = access(true);
    let expected = remote.config.clone();
    assert_eq!(remote.share_card(), ShareCard::Retry("还没有可用的配对码。".to_string()));
    remote.bootstrap_finished(&expected, Err("port".to_string()));
    remote.tunnel_finished(&expected, Err("net".to_string()), false, None);
    assert_eq!(remote.share_card(), ShareCard::Retry("出了点问题：net".to_string()));
    assert_eq!(remote.gateway.error.as_deref(), Some("port"));
    remote.tunnel_finished(&expected, Ok(status(Some(""))), true, code());
    assert_eq!(
        remote.tunnel.error.as_deref(),
        Some("P2P 通道已建立，但分享密钥还没就绪，点重试即可")
    );
    assert_eq!(remote.restart_finished(&expected, Err("again".to_string())), None);
    assert_eq!(remote.tunnel.error.as_deref(), Some("again"));
}

#[test]
fn retrying_restarts_gateway_and_tunnel() {
    let mut remote = access(true);
    let task = remote.retry_remote_setup().unwrap();
    assert_eq!(
        remote_orders(&task, &remote.config),
        [
            RemoteOrder::StopTunnel,
            RemoteOrder::StopGateway,
            RemoteOrder::StartGateway { host: "127.0.0.1".to_string(), write: false }
        ]
    );
    assert_eq!(access(false).retry_remote_setup(), None);
    assert_eq!(access(false).refresh_remote_token(), None);
    assert_eq!(access(false).spawn_iroh_start(), None);
    assert_eq!(access(false).spawn_remote_bootstrap(), None);
}

#[test]
fn new_tokens_end_old_pairings() {
    let mut remote = access(true);
    let task = remote.refresh_remote_token().unwrap();
    assert_eq!(
        remote_orders(&task, &remote.config),
        [
            RemoteOrder::RotateToken,
            RemoteOrder::StartGateway { host: "127.0.0.1".to_string(), write: false }
        ]
    );
    let expected = remote.config.clone();
    let (next, news) = remote.token_finished(&expected, Ok(()));
    assert!(next.is_some());
    assert_eq!(news, Some(Ok("配对 Token 已刷新；旧配对已失效，请重新扫码".to_string())));
    let (next, news) = remote.token_finished(&expected, Err("x".to_string()));
    assert_eq!((next, news), (None, Some(Err("x".to_string()))));
}

#[test]
fn writing_is_allowed_while_the_tunnel_runs() {
    let mut remote = access(true);
    let task = remote.apply_write_toggle(true).unwrap();
    assert_eq!(remote_orders(&task, &remote.config), [RemoteOrder::SetWrite { write: true }]);
    assert_eq!(remote_orders(&task, &config(true, "r", false)), []);
    let expected = remote.config.clone();
    remote.write_finished(&expected, true, Ok(()));
    assert!(remote.tunnel.write);
    remote.write_finished(&expected, true, Err("x".to_string()));
    assert_eq!(remote.gateway.error.as_deref(), Some("x"));
    assert_eq!(access(false).apply_write_toggle(true), None);
}

#[test]
fn another_relay_takes_the_tunnel_down() {
    let mut remote = access(true);
    let task = remote.apply_iroh_relay_value("  https://x  ").unwrap();
    assert_eq!(remote.config.iroh_relay, "https://x");
    assert_eq!(remote_orders(&task, &remote.config), [RemoteOrder::StopTunnel]);
    assert_eq!(
        remote.tunnel.error.as_deref(),
        Some("Relay 配置已更新，点重试应用新配置")
    );
    let mut off = access(false);
    assert_eq!(off.apply_iroh_relay_value("y"), None);
    assert_eq!(off.config.iroh_relay, "y");
}

#[test]
fn pairing_needs_all_parts() {
    assert_eq!(status(Some("t")).pairing_parts(), Some(("e", "t", "r")));
    assert_eq!(status(Some("")).pairing_parts(), None);
    assert_eq!(status(None).pairing_parts(), None);
    assert!(gateway_is_usable(true, Some("t")));
    assert!(!gateway_is_usable(true, Some("")));
    assert!(!gateway_is_usable(false, Some("t")));
}

#[test]
fn the_watchdog_looks_less_often_while_it_fails() {
    let on = config(true, "r", false);
    let mut dog = RemoteWatchdog::new();
    assert!(dog.begin_round(&on, false));
    assert!(!dog.begin_round(&on, true));
    assert!(dog.end_round(false));
    assert_eq!((dog.failures, dog.skip), (1, 0));
    assert!(dog.end_round(false));
    assert_eq!((dog.failures, dog.skip), (2, 1));
    assert!(!dog.begin_round(&on, false));
    assert!(dog.begin_round(&on, false));
    for _ in 0..40 {
        dog.end_round(false);
    }
    assert_eq!(dog.skip, 15);
    assert!(!dog.begin_round(&config(true, "  ", false), false));
    assert_eq!(dog, RemoteWatchdog::new());
    assert!(!dog.end_round(true));
}

#[test]
fn devices_are_listed_while_remote_access_is_on() {
    let mut devices: IrohConnectionsState<u32> = IrohConnectionsState::new();
    devices.refresh(&config(true, "r", false), vec![1, 2]);
    assert_eq!(devices.connections, [1, 2]);
    devices.refresh(&config(false, "r", false), vec![1, 2]);
    assert!(devices.connections.is_empty());
}

#[test]
fn tasks_go_on_where_taking_down_fails() {
    let mut remote = access(true);
    let failed = || Err("x".to_string());
    let restart = remote_orders(&remote.retry_remote_setup().unwrap(), &remote.config);
    assert_eq!(task_step(&restart, 0, failed()), TaskStep::Next(1));
    assert_eq!(task_step(&restart, 1, failed()), TaskStep::Next(2));
    assert_eq!(task_step(&restart, 2, failed()), TaskStep::Ended(failed()));
    assert_eq!(task_step(&restart, 2, Ok(())), TaskStep::Ended(Ok(())));
    let rotate = remote_orders(&remote.refresh_remote_token().unwrap(), &remote.config);
    assert_eq!(task_step(&rotate, 0, failed()), TaskStep::Ended(failed()));
    assert_eq!(task_step(&rotate, 0, Ok(())), TaskStep::Next(1));
    let off = remote_orders(&remote.apply_remote_toggle(false).unwrap(), &remote.config);
    assert_eq!(task_step(&off, 1, failed()), TaskStep::Ended(Ok(())));
}

#[test]
fn pairing_codes_show_their_link() {
    let one = pairing_code("smelt+iroh://one".to_string());
    assert_eq!(one.uri, "smelt+iroh://one");
    let other = pairing_code("smelt+iroh://two".to_string());
    assert!(one.qr_png.is_some());
    assert_ne!(one.qr_png, other.qr_png);
    assert_eq!(pairing_code("x".repeat(10000)).qr_png, None);
}
