//! Remote access: what is wanted, what runs, and the steps from one to the other.
//!
//! Controls change the wanted configuration and hand out a task. A task is carried out in the
//! background, one at a time; right before, it is held against the stored configuration, and
//! its result against the current one, so that a late task or result changes nothing.

use vstd::prelude::*;

use crate::settings::qr;
use crate::settings::qr::qr_png_for_url;
use crate::text;
use crate::text::{concat, same_text, trim};

verus! {

/// A text that may be missing, by its characters.
pub open spec fn maybe(content: Option<String>) -> Option<Seq<char>> {
    match content {
        Some(found) => Some(found@),
        None => None,
    }
}

/// What the user wants of remote access.
#[derive(Debug, PartialEq, Eq)]
pub struct RemoteConfig {
    pub enabled: bool,
    pub iroh_relay: String,
    pub write_enabled: bool,
}

/// What the user wants of remote access, by its characters.
pub struct ConfigView {
    pub enabled: bool,
    pub iroh_relay: Seq<char>,
    pub write_enabled: bool,
}

impl RemoteConfig {
    /// The configuration, by its characters.
    pub open spec fn view(&self) -> ConfigView {
        ConfigView {
            enabled: self.enabled,
            iroh_relay: self.iroh_relay@,
            write_enabled: self.write_enabled,
        }
    }
}

impl Default for RemoteConfig {
    fn default() -> (r: RemoteConfig)
        ensures
            r.view() == (ConfigView {
                enabled: false,
                iroh_relay: seq![],
                write_enabled: false,
            }),
    {
        RemoteConfig { enabled: false, iroh_relay: String::new(), write_enabled: false }
    }
}

impl Clone for RemoteConfig {
    fn clone(&self) -> (r: RemoteConfig)
        ensures
            r.view() == self.view(),
    {
        RemoteConfig {
            enabled: self.enabled,
            iroh_relay: self.iroh_relay.clone(),
            write_enabled: self.write_enabled,
        }
    }
}

/// Why the gateway does not run, if it should.
#[derive(Debug, PartialEq, Eq)]
pub struct RemoteRuntimeState {
    pub error: Option<String>,
}

/// What is known of the tunnel.
#[derive(Debug, PartialEq, Eq)]
pub struct IrohRuntimeState {
    pub connecting: bool,
    pub pairing_uri: Option<String>,
    pub qr_png: Option<Vec<u8>>,
    pub error: Option<String>,
    pub write: bool,
}

/// What is known of the tunnel, by its characters.
pub struct TunnelView {
    pub connecting: bool,
    pub pairing_uri: Option<Seq<char>>,
    pub qr_png: Option<Seq<u8>>,
    pub error: Option<Seq<char>>,
    pub write: bool,
}

impl IrohRuntimeState {
    /// The tunnel, by its characters.
    pub open spec fn view(&self) -> TunnelView {
        TunnelView {
            connecting: self.connecting,
            pairing_uri: maybe(self.pairing_uri),
            qr_png: match self.qr_png {
                Some(bytes) => Some(bytes@),
                None => None,
            },
            error: maybe(self.error),
            write: self.write,
        }
    }
}

/// No tunnel.
pub open spec fn no_tunnel() -> TunnelView {
    TunnelView {
        connecting: false,
        pairing_uri: None,
        qr_png: None,
        error: None,
        write: false,
    }
}

/// A tunnel that is being set up.
pub open spec fn connecting_tunnel() -> TunnelView {
    TunnelView { connecting: true, ..no_tunnel() }
}

/// No tunnel, for the given reason.
pub open spec fn failed_tunnel(reason: Seq<char>) -> TunnelView {
    TunnelView { error: Some(reason), ..no_tunnel() }
}

/// Remote access: what is wanted, and what is known of the gateway and the tunnel.
#[derive(Debug, PartialEq, Eq)]
pub struct RemoteAccess {
    pub config: RemoteConfig,
    pub gateway: RemoteRuntimeState,
    pub tunnel: IrohRuntimeState,
}

/// Remote access, by its characters.
pub struct AccessView {
    pub config: ConfigView,
    pub gateway_error: Option<Seq<char>>,
    pub tunnel: TunnelView,
}

impl RemoteAccess {
    /// Remote access, by its characters.
    pub open spec fn view(&self) -> AccessView {
        AccessView {
            config: self.config.view(),
            gateway_error: maybe(self.gateway.error),
            tunnel: self.tunnel.view(),
        }
    }
}

/// Work that is carried out in the background, with the configuration that it is for.
#[derive(Debug, PartialEq, Eq)]
pub enum RemoteTask {
    /// Bring the gateway up, unless it is.
    Bootstrap(RemoteConfig),
    /// Bring the tunnel up.
    StartTunnel(RemoteConfig),
    /// Take the tunnel down, because its relay changed.
    StopTunnel(RemoteConfig),
    /// Take everything down.
    StopAll(RemoteConfig),
    /// Allow or forbid writing while everything goes on running.
    SetWrite(RemoteConfig),
    /// Take everything down and bring the gateway up again.
    Restart(RemoteConfig),
    /// Replace the pairing token and bring the gateway up again.
    RotateToken(RemoteConfig),
}

/// Work, with the characters of the configuration that it is for.
pub enum TaskView {
    Bootstrap(ConfigView),
    StartTunnel(ConfigView),
    StopTunnel(ConfigView),
    StopAll(ConfigView),
    SetWrite(ConfigView),
    Restart(ConfigView),
    RotateToken(ConfigView),
}

impl RemoteTask {
    /// The task, by its characters.
    pub open spec fn view(&self) -> TaskView {
        match *self {
            RemoteTask::Bootstrap(config) => TaskView::Bootstrap(config.view()),
            RemoteTask::StartTunnel(config) => TaskView::StartTunnel(config.view()),
            RemoteTask::StopTunnel(config) => TaskView::StopTunnel(config.view()),
            RemoteTask::StopAll(config) => TaskView::StopAll(config.view()),
            RemoteTask::SetWrite(config) => TaskView::SetWrite(config.view()),
            RemoteTask::Restart(config) => TaskView::Restart(config.view()),
            RemoteTask::RotateToken(config) => TaskView::RotateToken(config.view()),
        }
    }
}

/// A task that there may be, by its characters.
pub open spec fn maybe_task(task: Option<RemoteTask>) -> Option<TaskView> {
    match task {
        Some(found) => Some(found.view()),
        None => None,
    }
}

/// Where the gateway listens: on this machine alone. Others reach it through the tunnel.
pub const GATEWAY_HOST: &'static str = "127.0.0.1";

/// What the background service is told. A gateway is started to listen at `host`.
#[derive(PartialEq, Eq, Debug)]
pub enum RemoteOrder {
    EnsureDaemon,
    StopTunnel,
    StopGateway,
    StartGateway { host: String, write: bool },
    StartGatewayUnlessUsable { host: String, write: bool },
    RotateToken,
    SetWrite { write: bool },
    StartTunnel { write: bool, relay: String },
}

/// What the background service is told, by its characters.
pub enum OrderView {
    EnsureDaemon,
    StopTunnel,
    StopGateway,
    StartGateway { host: Seq<char>, write: bool },
    StartGatewayUnlessUsable { host: Seq<char>, write: bool },
    RotateToken,
    SetWrite { write: bool },
    StartTunnel { write: bool, relay: Seq<char> },
}

impl RemoteOrder {
    /// The order, by its characters.
    pub open spec fn view(&self) -> OrderView {
        match *self {
            RemoteOrder::EnsureDaemon => OrderView::EnsureDaemon,
            RemoteOrder::StopTunnel => OrderView::StopTunnel,
            RemoteOrder::StopGateway => OrderView::StopGateway,
            RemoteOrder::StartGateway { host, write } => OrderView::StartGateway {
                host: host@,
                write,
            },
            RemoteOrder::StartGatewayUnlessUsable { host, write } => {
                OrderView::StartGatewayUnlessUsable { host: host@, write }
            },
            RemoteOrder::RotateToken => OrderView::RotateToken,
            RemoteOrder::SetWrite { write } => OrderView::SetWrite { write },
            RemoteOrder::StartTunnel { write, relay } => OrderView::StartTunnel {
                write,
                relay: relay@,
            },
        }
    }
}

/// A list of orders, by their characters.
pub open spec fn order_views(orders: Seq<RemoteOrder>) -> Seq<OrderView> {
    orders.map_values(|order: RemoteOrder| order.view())
}

/// Two configurations agree on whether and through which relay to run.
pub open spec fn same_lifecycle(one: ConfigView, two: ConfigView) -> bool {
    one.enabled == two.enabled && one.iroh_relay == two.iroh_relay
}

/// Whether two configurations are the same.
pub fn remote_config_matches(current: &RemoteConfig, expected: &RemoteConfig) -> (r: bool)
    ensures
        r == (current.view() == expected.view()),
{
    current.enabled == expected.enabled && same_text(
        current.iroh_relay.as_str(),
        expected.iroh_relay.as_str(),
    ) && current.write_enabled == expected.write_enabled
}

/// Whether two configurations agree on whether and through which relay to run.
pub fn remote_lifecycle_matches(current: &RemoteConfig, expected: &RemoteConfig) -> (r: bool)
    ensures
        r == same_lifecycle(current.view(), expected.view()),
{
    current.enabled == expected.enabled && same_text(
        current.iroh_relay.as_str(),
        expected.iroh_relay.as_str(),
    )
}

/// What a task tells the background service, in order, given the configuration that is stored
/// when its turn comes. A task that the user has overtaken tells it nothing.
pub open spec fn orders_of(task: TaskView, stored: ConfigView) -> Seq<OrderView> {
    match task {
        TaskView::Bootstrap(expected) => if same_lifecycle(stored, expected) && stored.enabled {
            seq![
                OrderView::EnsureDaemon,
                OrderView::StartGatewayUnlessUsable {
                    host: GATEWAY_HOST@,
                    write: stored.write_enabled,
                },
            ]
        } else {
            seq![]
        },
        TaskView::StartTunnel(expected) => if same_lifecycle(stored, expected) && stored.enabled {
            seq![
                OrderView::StartTunnel { write: stored.write_enabled, relay: stored.iroh_relay },
            ]
        } else {
            seq![]
        },
        TaskView::StopTunnel(expected) => if same_lifecycle(stored, expected) {
            seq![OrderView::StopTunnel]
        } else {
            seq![]
        },
        TaskView::StopAll(expected) => if !expected.enabled && !stored.enabled {
            seq![OrderView::StopTunnel, OrderView::StopGateway]
        } else {
            seq![]
        },
        TaskView::SetWrite(expected) => if expected.enabled && stored == expected {
            seq![OrderView::SetWrite { write: expected.write_enabled }]
        } else {
            seq![]
        },
        TaskView::Restart(expected) => if same_lifecycle(stored, expected) && stored.enabled {
            seq![
                OrderView::StopTunnel,
                OrderView::StopGateway,
                OrderView::StartGateway { host: GATEWAY_HOST@, write: stored.write_enabled },
            ]
        } else {
            seq![]
        },
        TaskView::RotateToken(expected) => if same_lifecycle(stored, expected) && stored.enabled {
            seq![
                OrderView::RotateToken,
                OrderView::StartGateway { host: GATEWAY_HOST@, write: stored.write_enabled },
            ]
        } else {
            seq![]
        },
    }
}

/// What a task tells the background service, given the configuration that is stored when its
/// turn comes.
pub fn remote_orders(task: &RemoteTask, stored: &RemoteConfig) -> (r: Vec<RemoteOrder>)
    ensures
        order_views(r@) == orders_of(task.view(), stored.view()),
{
    let mut orders: Vec<RemoteOrder> = Vec::new();
    match task {
        RemoteTask::Bootstrap(expected) => {
            if remote_lifecycle_matches(stored, expected) && stored.enabled {
                orders.push(RemoteOrder::EnsureDaemon);
                orders.push(
                    RemoteOrder::StartGatewayUnlessUsable {
                        host: GATEWAY_HOST.to_owned(),
                        write: stored.write_enabled,
                    },
                );
            }
        },
        RemoteTask::StartTunnel(expected) => {
            if remote_lifecycle_matches(stored, expected) && stored.enabled {
                orders.push(
                    RemoteOrder::StartTunnel {
                        write: stored.write_enabled,
                        relay: stored.iroh_relay.clone(),
                    },
                );
            }
        },
        RemoteTask::StopTunnel(expected) => {
            if remote_lifecycle_matches(stored, expected) {
                orders.push(RemoteOrder::StopTunnel);
            }
        },
        RemoteTask::StopAll(expected) => {
            if !expected.enabled && !stored.enabled {
                orders.push(RemoteOrder::StopTunnel);
                orders.push(RemoteOrder::StopGateway);
            }
        },
        RemoteTask::SetWrite(expected) => {
            if expected.enabled && remote_config_matches(stored, expected) {
                orders.push(RemoteOrder::SetWrite { write: expected.write_enabled });
            }
        },
        RemoteTask::Restart(expected) => {
            if remote_lifecycle_matches(stored, expected) && stored.enabled {
                orders.push(RemoteOrder::StopTunnel);
                orders.push(RemoteOrder::StopGateway);
                orders.push(
                    RemoteOrder::StartGateway {
                        host: GATEWAY_HOST.to_owned(),
                        write: stored.write_enabled,
                    },
                );
            }
        },
        RemoteTask::RotateToken(expected) => {
            if remote_lifecycle_matches(stored, expected) && stored.enabled {
                orders.push(RemoteOrder::RotateToken);
                orders.push(
                    RemoteOrder::StartGateway {
                        host: GATEWAY_HOST.to_owned(),
                        write: stored.write_enabled,
                    },
                );
            }
        },
    }
    assert(order_views(orders@) =~= orders_of(task.view(), stored.view()));
    orders
}

/// Nothing is started while remote access is switched off, whatever the task.
pub proof fn nothing_starts_while_off(task: TaskView, stored: ConfigView, i: int)
    requires
        !stored.enabled,
        0 <= i < orders_of(task, stored).len(),
    ensures
        orders_of(task, stored)[i] is StopTunnel || orders_of(task, stored)[i] is StopGateway,
{
}

/// A late task to take everything down does nothing once remote access is on again.
pub proof fn late_stops_do_nothing(expected: ConfigView, stored: ConfigView)
    requires
        stored.enabled,
    ensures
        orders_of(TaskView::StopAll(expected), stored).len() == 0,
{
}

/// The gateway is never stopped under a tunnel that still forwards to it: the order right
/// before stops the tunnel.
pub proof fn tunnel_stops_before_the_gateway(task: TaskView, stored: ConfigView, i: int)
    requires
        0 <= i < orders_of(task, stored).len(),
        orders_of(task, stored)[i] is StopGateway,
    ensures
        i > 0,
        orders_of(task, stored)[i - 1] is StopTunnel,
{
}

/// A gateway is only ever started to listen on this machine.
pub proof fn the_gateway_is_not_exposed(task: TaskView, stored: ConfigView, i: int)
    requires
        0 <= i < orders_of(task, stored).len(),
    ensures
        orders_of(task, stored)[i] matches OrderView::StartGateway { host, .. } ==> host
            == "127.0.0.1"@,
        orders_of(task, stored)[i] matches OrderView::StartGatewayUnlessUsable { host, .. }
            ==> host == "127.0.0.1"@,
{
}

/// A task goes on though the order failed: taking down what may not run, and starting the
/// background service, whose absence shows in what follows.
pub open spec fn failure_is_ignored(order: OrderView) -> bool {
    order is EnsureDaemon || order is StopTunnel || order is StopGateway
}

/// How a task goes on once an order was carried out.
#[derive(Debug, PartialEq, Eq)]
pub enum TaskStep {
    /// With the order at this place.
    Next(usize),
    /// It has come to an end, in this way.
    Ended(Result<(), String>),
}

/// How a task goes on once the order at `at` was carried out with the given result: to an end
/// where the order failed and that counts, else with the next order.
pub fn task_step(orders: &Vec<RemoteOrder>, at: usize, result: Result<(), String>) -> (r: TaskStep)
    requires
        at < orders@.len(),
    ensures
        r == if result is Err && !failure_is_ignored(orders@[at as int].view()) {
            TaskStep::Ended(result)
        } else if at + 1 < orders@.len() {
            TaskStep::Next((at + 1) as usize)
        } else {
            TaskStep::Ended(Ok(()))
        },
{
    let ignored: bool = match &orders[at] {
        RemoteOrder::EnsureDaemon | RemoteOrder::StopTunnel | RemoteOrder::StopGateway => true,
        _ => false,
    };
    if result.is_err() && !ignored {
        return TaskStep::Ended(result);
    }
    if at < orders.len() - 1 {
        TaskStep::Next(at + 1)
    } else {
        TaskStep::Ended(Ok(()))
    }
}

/// Only a token that cannot be replaced ends a task before its last order.
pub proof fn only_tokens_end_tasks_early(task: TaskView, stored: ConfigView, i: int)
    requires
        0 <= i < orders_of(task, stored).len() - 1,
        !failure_is_ignored(orders_of(task, stored)[i]),
    ensures
        task is RotateToken,
        orders_of(task, stored)[i] is RotateToken,
{
}

/// Whether a gateway that answers can be used: it runs, and it has a token.
pub fn gateway_is_usable(running: bool, token: Option<&str>) -> (r: bool)
    ensures
        r == (running && (token matches Some(value) && value@.len() > 0)),
{
    running && match token {
        Some(value) => !value.is_empty(),
        None => false,
    }
}

/// What the background service says of a tunnel.
#[derive(Debug, PartialEq, Eq)]
pub struct IrohStatus {
    pub endpoint_id: Option<String>,
    pub token: Option<String>,
    pub relay: Option<String>,
    pub write: bool,
}

/// The tunnel can be paired with: its endpoint, its token and its relay are known.
pub open spec fn can_pair(status: IrohStatus) -> bool {
    status.endpoint_id is Some && (status.token matches Some(token) && token@.len() > 0)
        && status.relay is Some
}

impl IrohStatus {
    /// The endpoint, the token and the relay that a pairing link is made of.
    pub fn pairing_parts(&self) -> (r: Option<(&str, &str, &str)>)
        ensures
            r is Some == can_pair(*self),
            r matches Some(parts) ==> Some(parts.0@) == maybe(self.endpoint_id) && Some(parts.1@)
                == maybe(self.token) && Some(parts.2@) == maybe(self.relay),
    {
        match (&self.endpoint_id, &self.token, &self.relay) {
            (Some(id), Some(token), Some(relay)) => if token.as_str().is_empty() {
                None
            } else {
                Some((id.as_str(), token.as_str(), relay.as_str()))
            },
            _ => None,
        }
    }
}

/// A pairing link with its picture.
#[derive(Debug, PartialEq, Eq)]
pub struct PairingCode {
    pub uri: String,
    pub qr_png: Option<Vec<u8>>,
}

/// The pairing link with its picture: the QR code of the link.
pub fn pairing_code(uri: String) -> (r: PairingCode)
    ensures
        r.uri == uri,
        match r.qr_png {
            Some(bytes) => qr::qr_png(uri@) == Some(bytes@),
            None => qr::qr_png(uri@) is None,
        },
{
    let qr_png: Option<Vec<u8>> = qr_png_for_url(uri.as_str());
    PairingCode { uri, qr_png }
}

/// What is known of the tunnel once starting it came to an end.
pub open spec fn started_tunnel(
    result: Result<IrohStatus, String>,
    code: Option<PairingCode>,
) -> TunnelView {
    match result {
        Err(error) => failed_tunnel(error@),
        Ok(status) => match code {
            Some(pairing) => if can_pair(status) {
                TunnelView {
                    connecting: false,
                    pairing_uri: Some(pairing.uri@),
                    qr_png: match pairing.qr_png {
                        Some(bytes) => Some(bytes@),
                        None => None,
                    },
                    error: None,
                    write: status.write,
                }
            } else {
                failed_tunnel("P2P 通道已建立，但分享密钥还没就绪，点重试即可"@)
            },
            None => failed_tunnel("P2P 通道已建立，但分享密钥还没就绪，点重试即可"@),
        },
    }
}

fn stopped() -> (r: IrohRuntimeState)
    ensures
        r.view() == no_tunnel(),
{
    IrohRuntimeState {
        connecting: false,
        pairing_uri: None,
        qr_png: None,
        error: None,
        write: false,
    }
}

fn connecting() -> (r: IrohRuntimeState)
    ensures
        r.view() == connecting_tunnel(),
{
    IrohRuntimeState {
        connecting: true,
        pairing_uri: None,
        qr_png: None,
        error: None,
        write: false,
    }
}

fn failed(reason: String) -> (r: IrohRuntimeState)
    ensures
        r.view() == failed_tunnel(reason@),
{
    IrohRuntimeState {
        connecting: false,
        pairing_uri: None,
        qr_png: None,
        error: Some(reason),
        write: false,
    }
}

/// Starting the tunnel: the state while it goes on, and the task. Nothing where remote access
/// is switched off.
pub open spec fn tunnel_start(access: AccessView) -> (AccessView, Option<TaskView>) {
    if access.config.enabled {
        (
            AccessView { tunnel: connecting_tunnel(), ..access },
            Some(TaskView::StartTunnel(access.config)),
        )
    } else {
        (access, None)
    }
}

/// The state after a gateway was brought up or not, and what follows.
pub open spec fn gateway_result(
    access: AccessView,
    result: Result<(), String>,
) -> (AccessView, Option<TaskView>) {
    match result {
        Ok(_) => tunnel_start(AccessView { gateway_error: None, ..access }),
        Err(error) => (
            AccessView {
                gateway_error: Some(error@),
                tunnel: failed_tunnel(error@),
                ..access
            },
            None,
        ),
    }
}

impl RemoteAccess {
    /// Starts the tunnel, where remote access is switched on.
    pub fn spawn_iroh_start(&mut self) -> (r: Option<RemoteTask>)
        ensures
            (final(self).view(), maybe_task(r)) == tunnel_start(old(self).view()),
    {
        if !self.config.enabled {
            return None;
        }
        self.tunnel = connecting();
        Some(RemoteTask::StartTunnel(self.config.clone()))
    }

    /// Brings everything up as configured, where remote access is switched on.
    pub fn spawn_remote_bootstrap(&self) -> (r: Option<RemoteTask>)
        ensures
            maybe_task(r) == if self.config.enabled {
                Some(TaskView::Bootstrap(self.config.view()))
            } else {
                None
            },
    {
        if !self.config.enabled {
            return None;
        }
        Some(RemoteTask::Bootstrap(self.config.clone()))
    }

    /// Sets the relay. A tunnel through another relay is taken down; the user starts the new one.
    pub fn apply_iroh_relay_value(&mut self, value: &str) -> (r: Option<RemoteTask>)
        ensures
            ({
                let config = ConfigView {
                    iroh_relay: text::trimmed(value@),
                    ..old(self).view().config
                };
                if config.enabled {
                    &&& final(self).view() == AccessView {
                        config,
                        tunnel: failed_tunnel("Relay 配置已更新，点重试应用新配置"@),
                        ..old(self).view()
                    }
                    &&& maybe_task(r) == Some(TaskView::StopTunnel(config))
                } else {
                    &&& final(self).view() == AccessView { config, ..old(self).view() }
                    &&& r is None
                }
            }),
    {
        self.config.iroh_relay = trim(value);
        if self.config.enabled {
            self.tunnel = failed("Relay 配置已更新，点重试应用新配置".to_owned());
            Some(RemoteTask::StopTunnel(self.config.clone()))
        } else {
            None
        }
    }

    /// Switches remote access on or off. What was known of it is forgotten when it goes off.
    pub fn apply_remote_toggle(&mut self, enabled: bool) -> (r: Option<RemoteTask>)
        ensures
            ({
                let config = ConfigView { enabled, ..old(self).view().config };
                if enabled {
                    &&& final(self).view() == AccessView { config, ..old(self).view() }
                    &&& maybe_task(r) == Some(TaskView::Bootstrap(config))
                } else {
                    &&& final(self).view() == AccessView {
                        config,
                        gateway_error: None,
                        tunnel: no_tunnel(),
                    }
                    &&& maybe_task(r) == Some(TaskView::StopAll(config))
                }
            }),
    {
        self.config.enabled = enabled;
        if enabled {
            self.spawn_remote_bootstrap()
        } else {
            self.gateway = RemoteRuntimeState { error: None };
            self.tunnel = stopped();
            Some(RemoteTask::StopAll(self.config.clone()))
        }
    }

    /// Allows or forbids writing. While remote access is off, this is only remembered.
    pub fn apply_write_toggle(&mut self, enabled: bool) -> (r: Option<RemoteTask>)
        ensures
            ({
                let config = ConfigView { write_enabled: enabled, ..old(self).view().config };
                &&& final(self).view() == AccessView { config, ..old(self).view() }
                &&& maybe_task(r) == if config.enabled {
                    Some(TaskView::SetWrite(config))
                } else {
                    None
                }
            }),
    {
        self.config.write_enabled = enabled;
        if self.config.enabled {
            Some(RemoteTask::SetWrite(self.config.clone()))
        } else {
            None
        }
    }

    /// Takes everything down and brings it up again, where remote access is switched on.
    pub fn retry_remote_setup(&mut self) -> (r: Option<RemoteTask>)
        ensures
            if old(self).config.enabled {
                &&& final(self).view() == AccessView {
                    tunnel: connecting_tunnel(),
                    ..old(self).view()
                }
                &&& maybe_task(r) == Some(TaskView::Restart(old(self).view().config))
            } else {
                &&& final(self).view() == old(self).view()
                &&& r is None
            },
    {
        if !self.config.enabled {
            return None;
        }
        self.tunnel = connecting();
        Some(RemoteTask::Restart(self.config.clone()))
    }

    /// Replaces the pairing token, where remote access is switched on.
    pub fn refresh_remote_token(&mut self) -> (r: Option<RemoteTask>)
        ensures
            if old(self).config.enabled {
                &&& final(self).view() == AccessView {
                    tunnel: connecting_tunnel(),
                    ..old(self).view()
                }
                &&& maybe_task(r) == Some(TaskView::RotateToken(old(self).view().config))
            } else {
                &&& final(self).view() == old(self).view()
                &&& r is None
            },
    {
        if !self.config.enabled {
            return None;
        }
        self.tunnel = connecting();
        Some(RemoteTask::RotateToken(self.config.clone()))
    }

    /// Takes in that the gateway was brought up or not, and goes on with the tunnel. The
    /// pairing link needs the gateway's token, so the tunnel comes second.
    pub fn bootstrap_finished(&mut self, expected: &RemoteConfig, result: Result<(), String>) -> (r:
        Option<RemoteTask>)
        ensures
            if same_lifecycle(old(self).view().config, expected.view()) {
                (final(self).view(), maybe_task(r)) == tunnel_start(
                    AccessView {
                        gateway_error: match result {
                            Ok(_) => None,
                            Err(error) => Some(error@),
                        },
                        ..old(self).view()
                    },
                )
            } else {
                final(self).view() == old(self).view() && r is None
            },
    {
        if !remote_lifecycle_matches(&self.config, expected) {
            return None;
        }
        self.gateway = RemoteRuntimeState {
            error: match result {
                Ok(_) => None,
                Err(error) => Some(error),
            },
        };
        self.spawn_iroh_start()
    }

    /// Takes in how starting the tunnel came to an end. `code` is the pairing link where the
    /// status has the parts of one.
    pub fn tunnel_finished(
        &mut self,
        expected: &RemoteConfig,
        result: Result<IrohStatus, String>,
        gateway_running: bool,
        code: Option<PairingCode>,
    )
        ensures
            final(self).view() == if same_lifecycle(old(self).view().config, expected.view()) {
                AccessView {
                    config: old(self).view().config,
                    gateway_error: if gateway_running {
                        None
                    } else {
                        old(self).view().gateway_error
                    },
                    tunnel: started_tunnel(result, code),
                }
            } else {
                old(self).view()
            },
    {
        if !remote_lifecycle_matches(&self.config, expected) {
            return;
        }
        if gateway_running {
            self.gateway = RemoteRuntimeState { error: None };
        }
        self.tunnel = match result {
            Err(error) => failed(error),
            Ok(status) => {
                let known: bool = status.pairing_parts().is_some();
                match code {
                    Some(pairing) => if known {
                        IrohRuntimeState {
                            connecting: false,
                            pairing_uri: Some(pairing.uri),
                            qr_png: pairing.qr_png,
                            error: None,
                            write: status.write,
                        }
                    } else {
                        failed(
                            "P2P 通道已建立，但分享密钥还没就绪，点重试即可".to_owned(),
                        )
                    },
                    None => failed(
                        "P2P 通道已建立，但分享密钥还没就绪，点重试即可".to_owned(),
                    ),
                }
            },
        };
    }

    /// Takes in that writing was allowed or forbidden, or why not.
    pub fn write_finished(
        &mut self,
        expected: &RemoteConfig,
        enabled: bool,
        result: Result<(), String>,
    )
        ensures
            final(self).view() == if old(self).view().config == expected.view() {
                match result {
                    Ok(_) => AccessView {
                        gateway_error: None,
                        tunnel: TunnelView { write: enabled, ..old(self).view().tunnel },
                        ..old(self).view()
                    },
                    Err(error) => AccessView { gateway_error: Some(error@), ..old(self).view() },
                }
            } else {
                old(self).view()
            },
    {
        if !remote_config_matches(&self.config, expected) {
            return;
        }
        match result {
            Ok(_) => {
                self.gateway = RemoteRuntimeState { error: None };
                self.tunnel.write = enabled;
            },
            Err(error) => {
                self.gateway = RemoteRuntimeState { error: Some(error) };
            },
        }
    }

    /// Takes in that the gateway was restarted or not, and goes on with the tunnel.
    pub fn restart_finished(&mut self, expected: &RemoteConfig, result: Result<(), String>) -> (r:
        Option<RemoteTask>)
        ensures
            if same_lifecycle(old(self).view().config, expected.view()) {
                (final(self).view(), maybe_task(r)) == gateway_result(old(self).view(), result)
            } else {
                final(self).view() == old(self).view() && r is None
            },
    {
        if !remote_lifecycle_matches(&self.config, expected) {
            return None;
        }
        match result {
            Ok(_) => {
                self.gateway = RemoteRuntimeState { error: None };
                self.spawn_iroh_start()
            },
            Err(error) => {
                self.gateway = RemoteRuntimeState { error: Some(error.clone()) };
                self.tunnel = failed(error);
                None
            },
        }
    }

    /// Takes in that the pairing token was replaced or not, goes on with the tunnel, and says
    /// what to tell the user: `Ok` for good news, `Err` for bad.
    pub fn token_finished(&mut self, expected: &RemoteConfig, result: Result<(), String>) -> (r: (
        Option<RemoteTask>,
        Option<Result<String, String>>,
    ))
        ensures
            if same_lifecycle(old(self).view().config, expected.view()) {
                &&& (final(self).view(), maybe_task(r.0)) == gateway_result(old(self).view(), result)
                &&& match result {
                    Ok(_) => r.1 matches Some(Ok(news)) && news@
                        == "配对 Token 已刷新；旧配对已失效，请重新扫码"@,
                    Err(error) => r.1 matches Some(Err(news)) && news@ == error@,
                }
            } else {
                final(self).view() == old(self).view() && r.0 is None && r.1 is None
            },
    {
        if !remote_lifecycle_matches(&self.config, expected) {
            return (None, None);
        }
        match result {
            Ok(_) => {
                let task: Option<RemoteTask> = self.restart_finished(expected, Ok(()));
                (
                    task,
                    Some(Ok("配对 Token 已刷新；旧配对已失效，请重新扫码".to_owned())),
                )
            },
            Err(error) => {
                let news: String = error.clone();
                let task: Option<RemoteTask> = self.restart_finished(expected, Err(error));
                (task, Some(Err(news)))
            },
        }
    }
}

/// What the card for sharing shows.
#[derive(Debug, PartialEq, Eq)]
pub enum ShareCard {
    /// A hint and nothing more.
    Hint(String),
    /// Bad news, and a button to try again.
    Retry(String),
    /// The pairing link, and what it allows.
    Code { uri: String, mode: String },
}

/// What the card for sharing shows, by its characters.
pub enum CardView {
    Hint(Seq<char>),
    Retry(Seq<char>),
    Code { uri: Seq<char>, mode: Seq<char> },
}

impl ShareCard {
    /// The card, by its characters.
    pub open spec fn view(&self) -> CardView {
        match *self {
            ShareCard::Hint(hint) => CardView::Hint(hint@),
            ShareCard::Retry(news) => CardView::Retry(news@),
            ShareCard::Code { uri, mode } => CardView::Code { uri: uri@, mode: mode@ },
        }
    }
}

/// What the card for sharing shows of remote access.
pub open spec fn card_of(access: AccessView) -> CardView {
    if !access.config.enabled {
        CardView::Hint("打开「开启远程」后，这里出现配对码与二维码。"@)
    } else if access.tunnel.connecting {
        CardView::Hint("正在建立 iroh 通道…（连接 relay + 打洞）"@)
    } else {
        match (access.tunnel.error, access.gateway_error) {
            (Some(error), _) => CardView::Retry("出了点问题："@ + error),
            (None, Some(error)) => CardView::Retry("出了点问题："@ + error),
            (None, None) => match access.tunnel.pairing_uri {
                None => CardView::Retry("还没有可用的配对码。"@),
                Some(uri) => CardView::Code {
                    uri,
                    mode: if access.tunnel.write {
                        "iroh（优先直连，必要时中继） · 可写入"@
                    } else {
                        "iroh（优先直连，必要时中继） · 只读"@
                    },
                },
            },
        }
    }
}

impl RemoteAccess {
    /// What the card for sharing shows.
    pub fn share_card(&self) -> (r: ShareCard)
        ensures
            r.view() == card_of(self.view()),
    {
        if !self.config.enabled {
            return ShareCard::Hint(
                "打开「开启远程」后，这里出现配对码与二维码。".to_owned(),
            );
        }
        if self.tunnel.connecting {
            return ShareCard::Hint(
                "正在建立 iroh 通道…（连接 relay + 打洞）".to_owned(),
            );
        }
        match &self.tunnel.error {
            Some(error) => {
                return ShareCard::Retry(concat("出了点问题：", error.as_str()));
            },
            None => {},
        }
        match &self.gateway.error {
            Some(error) => {
                return ShareCard::Retry(concat("出了点问题：", error.as_str()));
            },
            None => {},
        }
        match &self.tunnel.pairing_uri {
            None => ShareCard::Retry("还没有可用的配对码。".to_owned()),
            Some(uri) => {
                let mode: &str = if self.tunnel.write {
                    "iroh（优先直连，必要时中继） · 可写入"
                } else {
                    "iroh（优先直连，必要时中继） · 只读"
                };
                ShareCard::Code { uri: uri.clone(), mode: mode.to_owned() }
            },
        }
    }
}

/// How often, in seconds, the watchdog looks whether remote access still runs.
pub const REMOTE_WATCHDOG_INTERVAL: u64 = 20;

/// How often, in seconds, the list of connected devices is refreshed.
pub const CONNECTIONS_REFRESH_INTERVAL: u64 = 5;

/// How many rounds the watchdog sits out at most.
pub const REMOTE_WATCHDOG_MAX_SKIP: u32 = 15;

/// Where problems are reported.
pub const FEEDBACK_URL: &'static str = "https://github.com/smelt-ai/smelt/issues/new/choose";

/// Looks after remote access, less and less often while it cannot be brought up.
#[derive(Clone, Copy, Debug, PartialEq, Eq, Structural)]
pub struct RemoteWatchdog {
    pub failures: u32,
    pub skip: u32,
}

impl RemoteWatchdog {
    /// A watchdog that has seen no failure.
    pub fn new() -> (r: RemoteWatchdog)
        ensures
            r == (RemoteWatchdog { failures: 0, skip: 0 }),
    {
        RemoteWatchdog { failures: 0, skip: 0 }
    }

    /// Begins a round. The result says whether to look if remote access still runs: not while
    /// it is off or has no relay, not in a round to sit out, not while it is being set up.
    pub fn begin_round(&mut self, config: &RemoteConfig, connecting: bool) -> (r: bool)
        ensures
            if !config.enabled || text::trimmed(config.iroh_relay@).len() == 0 {
                !r && *final(self) == (RemoteWatchdog { failures: 0, skip: 0 })
            } else if old(self).skip > 0 {
                !r && *final(self) == (RemoteWatchdog {
                    failures: old(self).failures,
                    skip: (old(self).skip - 1) as u32,
                })
            } else {
                r == !connecting && *final(self) == *old(self)
            },
    {
        let relay: String = trim(config.iroh_relay.as_str());
        if !config.enabled || relay.as_str().is_empty() {
            self.failures = 0;
            self.skip = 0;
            return false;
        }
        if self.skip > 0 {
            self.skip = self.skip - 1;
            return false;
        }
        !connecting
    }

    /// Ends a round with what was seen. The result says whether to bring remote access up.
    pub fn end_round(&mut self, alive: bool) -> (r: bool)
        ensures
            r == !alive,
            alive ==> *final(self) == (RemoteWatchdog { failures: 0, skip: old(self).skip }),
            !alive ==> final(self).failures == if old(self).failures < u32::MAX {
                old(self).failures + 1
            } else {
                u32::MAX as int
            } && final(self).skip == if final(self).failures - 1 < REMOTE_WATCHDOG_MAX_SKIP {
                final(self).failures - 1
            } else {
                REMOTE_WATCHDOG_MAX_SKIP as int
            },
    {
        if alive {
            self.failures = 0;
            return false;
        }
        if self.failures < u32::MAX {
            self.failures = self.failures + 1;
        }
        self.skip = if self.failures - 1 < REMOTE_WATCHDOG_MAX_SKIP {
            self.failures - 1
        } else {
            REMOTE_WATCHDOG_MAX_SKIP
        };
        true
    }
}

/// The devices that are connected.
pub struct IrohConnectionsState<Connection> {
    pub connections: Vec<Connection>,
}

impl<Connection> IrohConnectionsState<Connection> {
    /// No devices.
    pub fn new() -> (r: IrohConnectionsState<Connection>)
        ensures
            r.connections@ == Seq::<Connection>::empty(),
    {
        IrohConnectionsState { connections: Vec::new() }
    }

    /// Takes in the devices that were found. There are none while remote access is off, and
    /// nothing is looked for then.
    pub fn refresh(&mut self, config: &RemoteConfig, found: Vec<Connection>)
        ensures
            final(self).connections@ == if config.enabled {
                found@
            } else {
                Seq::<Connection>::empty()
            },
    {
        if config.enabled {
            self.connections = found;
        } else {
            self.connections = Vec::new();
        }
    }
}

} // verus!
