//! What remote access promises.

use vstd::prelude::*;

use crate::settings::remote;
use crate::settings::qr;
use crate::settings::remote::{
    gateway_is_usable, pairing_code, remote_config_matches, remote_lifecycle_matches,
    remote_orders, task_step, IrohConnectionsState, IrohStatus, PairingCode, RemoteAccess,
    RemoteConfig, RemoteOrder, RemoteTask, RemoteWatchdog, ShareCard, TaskStep,
};
use crate::text;

verus! {

/// What is started is as writable as the stored configuration says, and goes through its relay.
pub proof fn orders_follow_the_configuration(
    task: &RemoteTask,
    stored: &RemoteConfig,
    orders: Vec<RemoteOrder>,
    i: int,
)
    requires
        call_ensures(remote_orders, (task, stored), orders),
        0 <= i < orders@.len(),
    ensures
        match orders@[i] {
            RemoteOrder::StartGateway { write, .. } => write == stored.write_enabled,
            RemoteOrder::StartGatewayUnlessUsable { write, .. } => write == stored.write_enabled,
            RemoteOrder::SetWrite { write } => write == stored.write_enabled,
            RemoteOrder::StartTunnel { write, relay } => write == stored.write_enabled && relay@
                == stored.iroh_relay@,
            _ => true,
        },
{
    let views = remote::orders_of(task.view(), stored.view());
    assert(remote::order_views(orders@) == views);
    assert(views[i] == orders@[i].view());
}

/// The configurations have the same switch and the same relay.
pub open spec fn runs_alike(one: RemoteConfig, two: RemoteConfig) -> bool {
    one.enabled == two.enabled && one.iroh_relay@ == two.iroh_relay@
}

/// The configurations are the same.
pub open spec fn same_config(one: RemoteConfig, two: RemoteConfig) -> bool {
    runs_alike(one, two) && one.write_enabled == two.write_enabled
}

/// Configurations are compared with their relay and their switch, and whole also with what they
/// allow.
pub proof fn configurations_are_compared_whole(
    one: &RemoteConfig,
    two: &RemoteConfig,
    whole: bool,
    lifecycle: bool,
)
    requires
        call_ensures(remote_config_matches, (one, two), whole),
        call_ensures(remote_lifecycle_matches, (one, two), lifecycle),
    ensures
        whole == same_config(*one, *two),
        lifecycle == runs_alike(*one, *two),
        whole ==> lifecycle,
{
}

/// The configuration that a task was made for.
pub open spec fn made_for(task: RemoteTask) -> RemoteConfig {
    match task {
        RemoteTask::Bootstrap(config) => config,
        RemoteTask::StartTunnel(config) => config,
        RemoteTask::StopTunnel(config) => config,
        RemoteTask::StopAll(config) => config,
        RemoteTask::SetWrite(config) => config,
        RemoteTask::Restart(config) => config,
        RemoteTask::RotateToken(config) => config,
    }
}

/// The order starts something, or changes what runs.
pub open spec fn needs_remote_access(order: RemoteOrder) -> bool {
    !(order is StopTunnel || order is StopGateway)
}

/// A task whose configuration is no longer the stored one does nothing; what is started is
/// started only while remote access is on, and only on this machine.
pub proof fn late_tasks_do_nothing(
    task: &RemoteTask,
    stored: &RemoteConfig,
    orders: Vec<RemoteOrder>,
    i: int,
)
    requires
        call_ensures(remote_orders, (task, stored), orders),
        0 <= i < orders@.len(),
    ensures
        task is StopAll || runs_alike(*stored, made_for(*task)),
        task is StopAll ==> !stored.enabled && !made_for(*task).enabled,
        task is SetWrite ==> same_config(*stored, made_for(*task)),
        needs_remote_access(orders@[i]) ==> stored.enabled,
        orders@[i] matches RemoteOrder::StartGateway { host, .. } ==> host@ == "127.0.0.1"@,
        orders@[i] matches RemoteOrder::StartGatewayUnlessUsable { host, .. } ==> host@
            == "127.0.0.1"@,
{
    let views = remote::orders_of(task.view(), stored.view());
    assert(remote::order_views(orders@) == views);
    assert(views[i] == orders@[i].view());
}

/// Each task of the stored configuration does what it is named after, in this order.
pub proof fn tasks_do_their_work(
    task: &RemoteTask,
    stored: &RemoteConfig,
    orders: Vec<RemoteOrder>,
)
    requires
        call_ensures(remote_orders, (task, stored), orders),
        same_config(*stored, made_for(*task)),
        stored.enabled || task is StopAll || task is StopTunnel,
        task is StopAll ==> !stored.enabled,
    ensures
        match *task {
            RemoteTask::Bootstrap(_) => orders@.len() == 2 && orders@[0] is EnsureDaemon
                && orders@[1] is StartGatewayUnlessUsable,
            RemoteTask::StartTunnel(_) => orders@.len() == 1 && orders@[0] is StartTunnel,
            RemoteTask::StopTunnel(_) => orders@.len() == 1 && orders@[0] is StopTunnel,
            RemoteTask::StopAll(_) => orders@.len() == 2 && orders@[0] is StopTunnel
                && orders@[1] is StopGateway,
            RemoteTask::SetWrite(_) => orders@.len() == 1 && orders@[0] is SetWrite,
            RemoteTask::Restart(_) => orders@.len() == 3 && orders@[0] is StopTunnel
                && orders@[1] is StopGateway && orders@[2] is StartGateway,
            RemoteTask::RotateToken(_) => orders@.len() == 2 && orders@[0] is RotateToken
                && orders@[1] is StartGateway,
        },
{
    let views = remote::orders_of(task.view(), stored.view());
    assert(stored.view() == made_for(*task).view());
    assert(remote::order_views(orders@) == views);
    assert(views.len() == orders@.len());
    assert forall|i: int| 0 <= i < orders@.len() implies views[i] == (
    #[trigger] orders@[i]).view() by {
    }
}

/// Where a step fails that the rest needs, the task ends with its failure; otherwise it goes on
/// with the next step, and ends well after the last.
pub proof fn tasks_go_on_step_by_step(
    orders: &Vec<RemoteOrder>,
    at: usize,
    result: Result<(), String>,
    r: TaskStep,
)
    requires
        at < orders@.len(),
        call_ensures(task_step, (orders, at, result), r),
    ensures
        result is Ok && at + 1 < orders@.len() ==> r == TaskStep::Next((at + 1) as usize),
        result is Ok && at + 1 == orders@.len() ==> r == TaskStep::Ended(Ok(())),
        result is Err && (orders@[at as int] is StartGateway
            || orders@[at as int] is StartGatewayUnlessUsable || orders@[at as int] is RotateToken
            || orders@[at as int] is SetWrite || orders@[at as int] is StartTunnel) ==> r
            == TaskStep::Ended(result),
        result is Err && (orders@[at as int] is EnsureDaemon || orders@[at as int] is StopTunnel
            || orders@[at as int] is StopGateway) && at + 1 < orders@.len() ==> r
            == TaskStep::Next((at + 1) as usize),
{
}

/// A gateway can be used where it runs and has a token.
pub proof fn usable_gateways_run_with_a_token(running: bool, token: Option<&str>, r: bool)
    requires
        call_ensures(gateway_is_usable, (running, token), r),
    ensures
        !running ==> !r,
        token is None ==> !r,
        token matches Some(value) ==> (value@.len() == 0 ==> !r),
        running && (token matches Some(value) && value@.len() > 0) ==> r,
{
}

/// Turning remote access on or off changes the switch alone, and starts or stops everything;
/// turned off, nothing of what ran is shown any more.
pub proof fn the_switch_starts_and_stops_everything(
    access: &mut RemoteAccess,
    enabled: bool,
    task: Option<RemoteTask>,
)
    requires
        call_ensures(RemoteAccess::apply_remote_toggle, (access, enabled), task),
    ensures
        final(access).config.enabled == enabled,
        final(access).config.write_enabled == old(access).config.write_enabled,
        final(access).config.iroh_relay@ == old(access).config.iroh_relay@,
        task is Some,
        same_config(made_for(task->0), final(access).config),
        enabled ==> task->0 is Bootstrap,
        !enabled ==> {
            &&& task->0 is StopAll
            &&& final(access).gateway.error is None
            &&& final(access).tunnel.error is None
            &&& final(access).tunnel.pairing_uri is None
            &&& final(access).tunnel.qr_png is None
            &&& !final(access).tunnel.connecting
            &&& !final(access).tunnel.write
        },
{
    assert(remote::maybe_task(task) is Some);
    assert(remote::maybe_task(task)->0 == task->0.view());
    assert(final(access).view().config == final(access).config.view());
}

/// Allowing or forbidding writes changes that alone, and goes on to what runs where anything
/// does.
pub proof fn the_write_switch_changes_writing_alone(
    access: &mut RemoteAccess,
    enabled: bool,
    task: Option<RemoteTask>,
)
    requires
        call_ensures(RemoteAccess::apply_write_toggle, (access, enabled), task),
    ensures
        final(access).config.write_enabled == enabled,
        final(access).config.enabled == old(access).config.enabled,
        final(access).config.iroh_relay@ == old(access).config.iroh_relay@,
        final(access).tunnel.view() == old(access).tunnel.view(),
        task is Some <==> old(access).config.enabled,
        task matches Some(work) ==> work is SetWrite && same_config(
            made_for(work),
            final(access).config,
        ),
{
    assert(final(access).view().config == final(access).config.view());
    assert(remote::maybe_task(task) is Some <==> task is Some);
}

/// A new relay is stored without the spaces around it; a tunnel that runs is taken down, and
/// asks to be started again.
pub proof fn a_new_relay_takes_the_tunnel_down(
    access: &mut RemoteAccess,
    value: &str,
    task: Option<RemoteTask>,
)
    requires
        call_ensures(RemoteAccess::apply_iroh_relay_value, (access, value), task),
    ensures
        final(access).config.iroh_relay@ == text::trimmed(value@),
        final(access).config.enabled == old(access).config.enabled,
        final(access).config.write_enabled == old(access).config.write_enabled,
        task is Some <==> old(access).config.enabled,
        task matches Some(work) ==> work is StopTunnel && same_config(
            made_for(work),
            final(access).config,
        ) && final(access).tunnel.error is Some && final(access).tunnel.pairing_uri is None
            && !final(access).tunnel.connecting,
        task is None ==> final(access).tunnel.view() == old(access).tunnel.view(),
{
    assert(final(access).view().config == final(access).config.view());
    assert(final(access).view().tunnel == final(access).tunnel.view());
    assert(remote::maybe_task(task) is Some <==> task is Some);
}

/// Trying again, and a new token, need remote access to be on; the old pairing code is gone at
/// once, and the configuration stays.
pub proof fn retries_and_new_tokens_drop_the_code(
    one: &mut RemoteAccess,
    two: &mut RemoteAccess,
    retry: Option<RemoteTask>,
    refresh: Option<RemoteTask>,
)
    requires
        call_ensures(RemoteAccess::retry_remote_setup, (one,), retry),
        call_ensures(RemoteAccess::refresh_remote_token, (two,), refresh),
    ensures
        retry is Some <==> old(one).config.enabled,
        refresh is Some <==> old(two).config.enabled,
        retry matches Some(work) ==> work is Restart && same_config(
            made_for(work),
            old(one).config,
        ) && final(one).tunnel.connecting && final(one).tunnel.pairing_uri is None
            && final(one).tunnel.error is None,
        refresh matches Some(work) ==> work is RotateToken && same_config(
            made_for(work),
            old(two).config,
        ) && final(two).tunnel.connecting && final(two).tunnel.pairing_uri is None
            && final(two).tunnel.error is None,
        retry is None ==> final(one).view() == old(one).view(),
        refresh is None ==> final(two).view() == old(two).view(),
        same_config(final(one).config, old(one).config),
        same_config(final(two).config, old(two).config),
{
    assert(final(one).view().config == final(one).config.view());
    assert(final(two).view().config == final(two).config.view());
    assert(final(one).view().tunnel == final(one).tunnel.view());
    assert(final(two).view().tunnel == final(two).tunnel.view());
    assert(remote::maybe_task(retry) is Some <==> retry is Some);
    assert(remote::maybe_task(refresh) is Some <==> refresh is Some);
}

/// The tunnel, and the gateway before it, are started while remote access is on, and only then.
pub proof fn starts_need_the_switch(
    access: &mut RemoteAccess,
    tunnel: Option<RemoteTask>,
    bootstrap: Option<RemoteTask>,
    still: &RemoteAccess,
)
    requires
        call_ensures(RemoteAccess::spawn_iroh_start, (access,), tunnel),
        call_ensures(RemoteAccess::spawn_remote_bootstrap, (still,), bootstrap),
    ensures
        tunnel is Some <==> old(access).config.enabled,
        tunnel matches Some(work) ==> work is StartTunnel && same_config(
            made_for(work),
            old(access).config,
        ) && final(access).tunnel.connecting,
        tunnel is None ==> final(access).view() == old(access).view(),
        same_config(final(access).config, old(access).config),
        bootstrap is Some <==> still.config.enabled,
        bootstrap matches Some(work) ==> work is Bootstrap && same_config(
            made_for(work),
            still.config,
        ),
{
    assert(final(access).view().config == final(access).config.view());
    assert(final(access).view().tunnel == final(access).tunnel.view());
    assert(remote::maybe_task(tunnel) is Some <==> tunnel is Some);
    assert(remote::maybe_task(bootstrap) is Some <==> bootstrap is Some);
}

/// What comes back for another switch or another relay than the ones of today is dropped.
pub proof fn late_results_are_dropped(
    a: &mut RemoteAccess,
    b: &mut RemoteAccess,
    c: &mut RemoteAccess,
    d: &mut RemoteAccess,
    expected: &RemoteConfig,
    result: Result<(), String>,
    opened: Result<IrohStatus, String>,
    gateway_running: bool,
    code: Option<PairingCode>,
    started: Option<RemoteTask>,
    restarted: Option<RemoteTask>,
    renewed: (Option<RemoteTask>, Option<Result<String, String>>),
)
    requires
        call_ensures(RemoteAccess::bootstrap_finished, (a, expected, result), started),
        call_ensures(
            RemoteAccess::tunnel_finished,
            (b, expected, opened, gateway_running, code),
            (),
        ),
        call_ensures(RemoteAccess::restart_finished, (c, expected, result), restarted),
        call_ensures(RemoteAccess::token_finished, (d, expected, result), renewed),
    ensures
        !runs_alike(old(a).config, *expected) ==> final(a).view() == old(a).view()
            && started is None,
        !runs_alike(old(b).config, *expected) ==> final(b).view() == old(b).view(),
        !runs_alike(old(c).config, *expected) ==> final(c).view() == old(c).view()
            && restarted is None,
        !runs_alike(old(d).config, *expected) ==> final(d).view() == old(d).view() && renewed.0
            is None && renewed.1 is None,
{
}

/// Once the gateway is up the tunnel is started, whatever became of the gateway before; its
/// failure is kept.
pub proof fn the_tunnel_follows_the_gateway(
    access: &mut RemoteAccess,
    expected: &RemoteConfig,
    result: Result<(), String>,
    task: Option<RemoteTask>,
)
    requires
        call_ensures(RemoteAccess::bootstrap_finished, (access, expected, result), task),
        runs_alike(old(access).config, *expected),
        old(access).config.enabled,
    ensures
        task is Some && task->0 is StartTunnel && same_config(
            made_for(task->0),
            old(access).config,
        ),
        final(access).tunnel.connecting,
        match result {
            Ok(_) => final(access).gateway.error is None,
            Err(error) => final(access).gateway.error is Some && final(access).gateway.error->0@
                == error@,
        },
        same_config(final(access).config, old(access).config),
{
    assert(remote::maybe_task(task) is Some);
    assert(remote::maybe_task(task)->0 == task->0.view());
    assert(final(access).view().config == final(access).config.view());
    assert(final(access).view().tunnel == final(access).tunnel.view());
    assert(final(access).view().gateway_error == remote::maybe(final(access).gateway.error));
}

/// After a restart or a new token the tunnel is started where the gateway came up; where it did
/// not, both say why, and nothing is started.
pub proof fn restarts_lead_to_a_tunnel_or_a_reason(
    one: &mut RemoteAccess,
    two: &mut RemoteAccess,
    expected: &RemoteConfig,
    result: Result<(), String>,
    restarted: Option<RemoteTask>,
    renewed: (Option<RemoteTask>, Option<Result<String, String>>),
)
    requires
        call_ensures(RemoteAccess::restart_finished, (one, expected, result), restarted),
        call_ensures(RemoteAccess::token_finished, (two, expected, result), renewed),
        runs_alike(old(one).config, *expected),
        runs_alike(old(two).config, *expected),
        expected.enabled,
    ensures
        result is Ok ==> {
            &&& restarted is Some && restarted->0 is StartTunnel
            &&& renewed.0 is Some && renewed.0->0 is StartTunnel
            &&& final(one).gateway.error is None && final(two).gateway.error is None
            &&& final(one).tunnel.connecting && final(two).tunnel.connecting
            &&& renewed.1 is Some && renewed.1->0 is Ok
        },
        result matches Err(error) ==> {
            &&& restarted is None && renewed.0 is None
            &&& remote::maybe(final(one).gateway.error) == Some(error@)
            &&& remote::maybe(final(two).gateway.error) == Some(error@)
            &&& remote::maybe(final(one).tunnel.error) == Some(error@)
            &&& remote::maybe(final(two).tunnel.error) == Some(error@)
            &&& renewed.1 is Some && renewed.1->0 is Err && renewed.1->0->Err_0@ == error@
        },
        same_config(final(one).config, old(one).config),
        same_config(final(two).config, old(two).config),
{
    assert(remote::maybe_task(restarted) is Some <==> restarted is Some);
    assert(remote::maybe_task(renewed.0) is Some <==> renewed.0 is Some);
    assert(final(one).view().config == final(one).config.view());
    assert(final(two).view().config == final(two).config.view());
    assert(final(one).view().tunnel == final(one).tunnel.view());
    assert(final(two).view().tunnel == final(two).tunnel.view());
}

/// A tunnel that is open shows its pairing code and what it allows; one without an address, a
/// token and a relay, or without a code, asks for another try; one that failed says why.
pub proof fn open_tunnels_show_their_code(
    access: &mut RemoteAccess,
    expected: &RemoteConfig,
    opened: Result<IrohStatus, String>,
    gateway_running: bool,
    code: Option<PairingCode>,
)
    requires
        call_ensures(
            RemoteAccess::tunnel_finished,
            (access, expected, opened, gateway_running, code),
            (),
        ),
        runs_alike(old(access).config, *expected),
    ensures
        !final(access).tunnel.connecting,
        match opened {
            Err(error) => remote::maybe(final(access).tunnel.error) == Some(error@),
            Ok(status) => if status.endpoint_id is Some && status.relay is Some
                && status.token is Some && status.token->0@.len() > 0 && code is Some {
                &&& final(access).tunnel.error is None
                &&& remote::maybe(final(access).tunnel.pairing_uri) == Some(code->0.uri@)
                &&& final(access).tunnel.write == status.write
            } else {
                final(access).tunnel.error is Some && final(access).tunnel.pairing_uri is None
            },
        },
        gateway_running ==> final(access).gateway.error is None,
        !gateway_running ==> remote::maybe(final(access).gateway.error) == remote::maybe(
            old(access).gateway.error,
        ),
        same_config(final(access).config, old(access).config),
{
    assert(final(access).view().config == final(access).config.view());
    assert(final(access).view().tunnel == final(access).tunnel.view());
    assert(final(access).view().gateway_error == remote::maybe(final(access).gateway.error));
}

/// What came of allowing or forbidding writes is taken in only for the configuration of today;
/// then the tunnel shows what it allows, or the gateway says why not.
pub proof fn write_results_are_shown(
    access: &mut RemoteAccess,
    expected: &RemoteConfig,
    enabled: bool,
    result: Result<(), String>,
)
    requires
        call_ensures(RemoteAccess::write_finished, (access, expected, enabled, result), ()),
    ensures
        !same_config(old(access).config, *expected) ==> final(access).view() == old(access).view(),
        same_config(old(access).config, *expected) ==> match result {
            Ok(_) => final(access).tunnel.write == enabled && final(access).gateway.error is None,
            Err(error) => remote::maybe(final(access).gateway.error) == Some(error@)
                && final(access).tunnel.write == old(access).tunnel.write,
        },
        remote::maybe(final(access).tunnel.pairing_uri) == remote::maybe(
            old(access).tunnel.pairing_uri,
        ),
        same_config(final(access).config, old(access).config),
{
    assert(final(access).view().config == final(access).config.view());
    assert(final(access).view().tunnel == final(access).tunnel.view());
    assert(old(access).view().tunnel == old(access).tunnel.view());
    assert(final(access).view().gateway_error == remote::maybe(final(access).gateway.error));
    assert(same_config(old(access).config, *expected) ==> old(access).config.view()
        == expected.view());
}

/// The card shows the code of the tunnel where there is one and nothing went wrong, and what it
/// allows; without remote access or while connecting it only hints; anything else offers another
/// try, with the reason where there is one.
pub proof fn the_card_shows_what_there_is(access: &RemoteAccess, card: ShareCard)
    requires
        call_ensures(RemoteAccess::share_card, (access,), card),
    ensures
        card is Hint <==> !access.config.enabled || access.tunnel.connecting,
        card is Code <==> access.config.enabled && !access.tunnel.connecting
            && access.tunnel.error is None && access.gateway.error is None
            && access.tunnel.pairing_uri is Some,
        card matches ShareCard::Code { uri, mode } ==> uri@ == access.tunnel.pairing_uri->0@
            && mode@ == if access.tunnel.write {
            "iroh（优先直连，必要时中继） · 可写入"@
        } else {
            "iroh（优先直连，必要时中继） · 只读"@
        },
        card matches ShareCard::Retry(news) ==> match (access.tunnel.error, access.gateway.error) {
            (Some(error), _) => news@ == "出了点问题："@ + error@,
            (None, Some(error)) => news@ == "出了点问题："@ + error@,
            (None, None) => news@ == "还没有可用的配对码。"@,
        },
{
}

/// A pairing link needs the address, a token and the relay, and is made of just these.
pub proof fn links_are_made_of_what_is_known(
    status: &IrohStatus,
    r: Option<(&str, &str, &str)>,
)
    requires
        call_ensures(IrohStatus::pairing_parts, (status,), r),
    ensures
        r is Some <==> status.endpoint_id is Some && status.relay is Some && status.token is Some
            && status.token->0@.len() > 0,
        r matches Some(parts) ==> parts.0@ == status.endpoint_id->0@ && parts.1@
            == status.token->0@ && parts.2@ == status.relay->0@,
{
}

/// A code is a picture of the link that stands beside it.
pub proof fn codes_picture_their_link(uri: String, r: PairingCode)
    requires
        call_ensures(pairing_code, (uri,), r),
    ensures
        r.uri@ == uri@,
        r.qr_png matches Some(bytes) ==> qr::qr_png(r.uri@) == Some(bytes@),
        r.qr_png is None ==> qr::qr_png(r.uri@) is None,
{
}

/// Nothing is watched without remote access or without a relay; otherwise a round looks at the
/// tunnel unless it connects or rounds are to be left out, and one fewer is left out after it.
pub proof fn rounds_wait_their_turn(
    watchdog: &mut RemoteWatchdog,
    config: &RemoteConfig,
    connecting: bool,
    looks: bool,
)
    requires
        call_ensures(RemoteWatchdog::begin_round, (watchdog, config, connecting), looks),
    ensures
        looks ==> config.enabled && text::trimmed(config.iroh_relay@).len() > 0 && !connecting
            && old(watchdog).skip == 0,
        config.enabled && text::trimmed(config.iroh_relay@).len() > 0 && !connecting && old(watchdog).skip == 0 ==> looks,
        config.enabled && text::trimmed(config.iroh_relay@).len() > 0 ==> final(watchdog).failures
            == old(watchdog).failures && final(watchdog).skip == if old(watchdog).skip > 0 {
            old(watchdog).skip - 1
        } else {
            0
        },
        !config.enabled || text::trimmed(config.iroh_relay@).len() == 0 ==> final(watchdog).failures == 0 && final(watchdog).skip == 0,
{
}

/// A tunnel that is gone is started again, and each failure in a row leaves out one more round,
/// fifteen at most; one that is there ends the row.
pub proof fn failures_in_a_row_slow_the_rounds(
    watchdog: &mut RemoteWatchdog,
    alive: bool,
    restarts: bool,
)
    requires
        call_ensures(RemoteWatchdog::end_round, (watchdog, alive), restarts),
    ensures
        restarts == !alive,
        alive ==> final(watchdog).failures == 0,
        !alive && old(watchdog).failures < u32::MAX ==> final(watchdog).failures == old(watchdog).failures + 1,
        !alive && old(watchdog).failures < 15 ==> final(watchdog).skip == old(watchdog).failures,
        !alive && old(watchdog).failures >= 15 ==> final(watchdog).skip == 15,
{
}

/// Connections are those that were found while remote access is on, and none while it is off.
pub proof fn connections_need_the_switch<Connection>(
    state: &mut IrohConnectionsState<Connection>,
    config: &RemoteConfig,
    found: Vec<Connection>,
)
    requires
        call_ensures(IrohConnectionsState::<Connection>::refresh, (state, config, found), ()),
    ensures
        config.enabled ==> final(state).connections@ == found@,
        !config.enabled ==> final(state).connections@.len() == 0,
{
}

/// What the switches change leaves the rest alone: a gateway keeps its failure, and a tunnel what
/// it shows, unless they are what is taken down.
pub proof fn switches_leave_the_rest_alone(
    a: &mut RemoteAccess,
    ra: Option<RemoteTask>,
    b: &mut RemoteAccess,
    enabled: bool,
    rb: Option<RemoteTask>,
    c: &mut RemoteAccess,
    value: &str,
    rc: Option<RemoteTask>,
    d: &mut RemoteAccess,
    rd: Option<RemoteTask>,
    e: &mut RemoteAccess,
    re: Option<RemoteTask>,
    f: &mut RemoteAccess,
    rf: Option<RemoteTask>,
)
    requires
        call_ensures(RemoteAccess::apply_remote_toggle, (a, true), ra),
        call_ensures(RemoteAccess::apply_write_toggle, (b, enabled), rb),
        call_ensures(RemoteAccess::apply_iroh_relay_value, (c, value), rc),
        call_ensures(RemoteAccess::retry_remote_setup, (d,), rd),
        call_ensures(RemoteAccess::refresh_remote_token, (e,), re),
        call_ensures(RemoteAccess::spawn_iroh_start, (f,), rf),
    ensures
        final(a).tunnel.view() == old(a).tunnel.view() && remote::maybe(final(a).gateway.error)
            == remote::maybe(old(a).gateway.error),
        remote::maybe(final(b).gateway.error) == remote::maybe(old(b).gateway.error),
        remote::maybe(final(c).gateway.error) == remote::maybe(old(c).gateway.error),
        rc is Some ==> remote::maybe(final(c).tunnel.error) == Some(
            "Relay 配置已更新，点重试应用新配置"@,
        ) && final(c).tunnel.qr_png is None && !final(c).tunnel.write,
        remote::maybe(final(d).gateway.error) == remote::maybe(old(d).gateway.error),
        rd is Some ==> final(d).tunnel.qr_png is None && !final(d).tunnel.write,
        remote::maybe(final(e).gateway.error) == remote::maybe(old(e).gateway.error),
        re is Some ==> final(e).tunnel.qr_png is None && !final(e).tunnel.write,
        remote::maybe(final(f).gateway.error) == remote::maybe(old(f).gateway.error),
        rf is Some ==> final(f).tunnel.pairing_uri is None && final(f).tunnel.qr_png is None
            && final(f).tunnel.error is None && !final(f).tunnel.write,
{
    assert(final(a).view().tunnel == final(a).tunnel.view());
    assert(final(a).view().gateway_error == remote::maybe(final(a).gateway.error));
    assert(final(b).view().gateway_error == remote::maybe(final(b).gateway.error));
    assert(final(c).view().gateway_error == remote::maybe(final(c).gateway.error));
    assert(final(d).view().gateway_error == remote::maybe(final(d).gateway.error));
    assert(final(e).view().gateway_error == remote::maybe(final(e).gateway.error));
    assert(final(f).view().gateway_error == remote::maybe(final(f).gateway.error));
    assert(final(c).view().tunnel == final(c).tunnel.view());
    assert(final(d).view().tunnel == final(d).tunnel.view());
    assert(final(e).view().tunnel == final(e).tunnel.view());
    assert(final(f).view().tunnel == final(f).tunnel.view());
    assert(remote::maybe_task(rc) is Some <==> rc is Some);
    assert(remote::maybe_task(rd) is Some <==> rd is Some);
    assert(remote::maybe_task(re) is Some <==> re is Some);
    assert(remote::maybe_task(rf) is Some <==> rf is Some);
}

/// A code is shown with its picture; a tunnel that failed shows neither, and one whose key is not
/// ready says so. What came of a new token is told.
pub proof fn results_are_told_in_full(
    access: &mut RemoteAccess,
    expected: &RemoteConfig,
    opened: Result<IrohStatus, String>,
    gateway_running: bool,
    code: Option<PairingCode>,
    other: &mut RemoteAccess,
    result: Result<(), String>,
    renewed: (Option<RemoteTask>, Option<Result<String, String>>),
)
    requires
        call_ensures(
            RemoteAccess::tunnel_finished,
            (access, expected, opened, gateway_running, code),
            (),
        ),
        runs_alike(old(access).config, *expected),
        call_ensures(RemoteAccess::token_finished, (other, expected, result), renewed),
        runs_alike(old(other).config, *expected),
    ensures
        opened is Err ==> final(access).tunnel.pairing_uri is None && final(access).tunnel.qr_png
            is None && !final(access).tunnel.write,
        opened matches Ok(status) ==> {
            let ready = status.endpoint_id is Some && status.relay is Some && status.token is Some
                && (status.token->0)@.len() > 0 && code is Some;
            &&& !ready ==> remote::maybe(final(access).tunnel.error) == Some(
                "P2P 通道已建立，但分享密钥还没就绪，点重试即可"@,
            ) && final(access).tunnel.qr_png is None && !final(access).tunnel.write
            &&& ready ==> (final(access).tunnel.qr_png is Some <==> (code->0).qr_png is Some)
            &&& ready && (code->0).qr_png is Some ==> (final(access).tunnel.qr_png->0)@ == (
            (code->0).qr_png->0)@
        },
        result is Ok ==> (renewed.1 matches Some(Ok(news)) && news@
            == "配对 Token 已刷新；旧配对已失效，请重新扫码"@),
        result is Ok && old(other).config.enabled ==> final(other).tunnel.connecting && final(other).tunnel.pairing_uri is None,
        result is Err ==> !final(other).tunnel.connecting && final(other).tunnel.pairing_uri is None,
{
    assert(final(access).view().tunnel == final(access).tunnel.view());
    assert(final(other).view().tunnel == final(other).tunnel.view());
}

/// Without remote access, and while it connects, the card says what to wait for.
pub proof fn hints_say_what_to_wait_for(access: &RemoteAccess, card: ShareCard)
    requires
        call_ensures(RemoteAccess::share_card, (access,), card),
    ensures
        !access.config.enabled ==> (card matches ShareCard::Hint(hint) && hint@
            == "打开「开启远程」后，这里出现配对码与二维码。"@),
        access.config.enabled && access.tunnel.connecting ==> (card matches ShareCard::Hint(hint)
            && hint@ == "正在建立 iroh 通道…（连接 relay + 打洞）"@),
{
}

/// Writing that was allowed or not changes nothing else of the tunnel; a watchdog starts afresh.
pub proof fn writing_changes_nothing_else(
    access: &mut RemoteAccess,
    expected: &RemoteConfig,
    enabled: bool,
    result: Result<(), String>,
    fresh: RemoteWatchdog,
    watchdog: &mut RemoteWatchdog,
    round: bool,
)
    requires
        call_ensures(RemoteAccess::write_finished, (access, expected, enabled, result), ()),
        call_ensures(RemoteWatchdog::new, (), fresh),
        call_ensures(RemoteWatchdog::end_round, (watchdog, true), round),
    ensures
        remote::maybe(final(access).tunnel.error) == remote::maybe(old(access).tunnel.error),
        final(access).tunnel.connecting == old(access).tunnel.connecting,
        final(access).tunnel.view().qr_png == old(access).tunnel.view().qr_png,
        fresh.failures == 0 && fresh.skip == 0,
        final(watchdog).skip == old(watchdog).skip,
{
    assert(final(access).view().tunnel == final(access).tunnel.view());
    assert(old(access).view().tunnel == old(access).tunnel.view());
}

} // verus!
