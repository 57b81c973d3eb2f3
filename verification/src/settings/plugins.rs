//! Plugins that are installed: their list, their state, and what they may do.

use vstd::prelude::*;

use crate::text;
use crate::text::{concat, decimal_text, is_text_before, same_text};

verus! {

/// A plugin that is installed.
#[derive(Clone, Debug, PartialEq, Eq)]
pub struct InstalledPlugin {
    pub id: String,
    pub name: String,
    pub version: String,
    pub user_installed: bool,
    pub load_error: Option<String>,
}

/// `a` is listed before `b`: by name, and by id where the names are the same.
pub open spec fn listed_before(a: InstalledPlugin, b: InstalledPlugin) -> bool {
    text::text_before(a.name@, b.name@) || (a.name@ == b.name@ && text::text_before(a.id@, b.id@))
}

/// A plugin with the given id is in the list.
pub open spec fn has_id(list: Seq<InstalledPlugin>, id: Seq<char>) -> bool {
    exists|i: int| 0 <= i < list.len() && (#[trigger] list[i]).id@ == id
}

/// The plugins of the list and, behind them, those of another list whose ids are new.
pub open spec fn with_new(
    list: Seq<InstalledPlugin>,
    more: Seq<InstalledPlugin>,
) -> Seq<InstalledPlugin>
    decreases more.len(),
{
    if more.len() == 0 {
        list
    } else {
        let before = with_new(list, more.drop_last());
        if has_id(before, more.last().id@) {
            before
        } else {
            before.push(more.last())
        }
    }
}

/// A list in order with one more plugin, behind all that are not listed after it.
pub open spec fn inserted(
    list: Seq<InstalledPlugin>,
    plugin: InstalledPlugin,
) -> Seq<InstalledPlugin>
    decreases list.len(),
{
    if list.len() > 0 && listed_before(plugin, list.last()) {
        inserted(list.drop_last(), plugin).push(list.last())
    } else {
        list.push(plugin)
    }
}

/// The list in order. Plugins that neither is listed before the other keep their order.
pub open spec fn in_order(list: Seq<InstalledPlugin>) -> Seq<InstalledPlugin>
    decreases list.len(),
{
    if list.len() == 0 {
        list
    } else {
        inserted(in_order(list.drop_last()), list.last())
    }
}

fn is_listed_before(a: &InstalledPlugin, b: &InstalledPlugin) -> (r: bool)
    ensures
        r == listed_before(*a, *b),
{
    is_text_before(a.name.as_str(), b.name.as_str()) || (same_text(
        a.name.as_str(),
        b.name.as_str(),
    ) && is_text_before(a.id.as_str(), b.id.as_str()))
}

fn contains_id(list: &Vec<InstalledPlugin>, id: &str) -> (r: bool)
    ensures
        r == has_id(list@, id@),
{
    let mut i: usize = 0;
    while i < list.len()
        invariant
            i <= list.len(),
            forall|k: int| 0 <= k < i ==> (#[trigger] list@[k]).id@ != id@,
        decreases list.len() - i,
    {
        if same_text(list[i].id.as_str(), id) {
            assert(list@[i as int].id@ == id@);
            return true;
        }
        i = i + 1;
    }
    false
}

fn insert_in_order(list: &mut Vec<InstalledPlugin>, plugin: InstalledPlugin)
    ensures
        final(list)@ == inserted(old(list)@, plugin),
{
    let ghost before = list@;
    let mut at: usize = list.len();
    assert(before.take(before.len() as int) =~= before);
    assert(before.skip(before.len() as int) =~= seq![]);
    assert(inserted(before, plugin) =~= inserted(before.take(at as int), plugin) + before.skip(
        at as int,
    ));
    while at > 0 && is_listed_before(&plugin, &list[at - 1])
        invariant
            list@ == before,
            at <= list.len(),
            inserted(before, plugin) == inserted(before.take(at as int), plugin) + before.skip(
                at as int,
            ),
        decreases at,
    {
        proof {
            let init = before.take(at as int);
            assert(init.drop_last() =~= before.take(at - 1));
            assert(init.last() == before[at - 1]);
            assert(inserted(init, plugin) + before.skip(at as int) =~= inserted(
                before.take(at - 1),
                plugin,
            ) + before.skip(at - 1));
        }
        at = at - 1;
    }
    list.insert(at, plugin);
    assert(inserted(before.take(at as int), plugin) == before.take(at as int).push(plugin));
    assert(list@ =~= before.take(at as int).push(plugin) + before.skip(at as int));
}

/// The plugins to list: those that were found, and those of the user that were not, each id
/// of the latter once, in order.
pub fn discover_installed_plugins(
    packages: Vec<InstalledPlugin>,
    records: Vec<InstalledPlugin>,
) -> (r: Vec<InstalledPlugin>)
    ensures
        r@ == in_order(with_new(packages@, records@)),
{
    let mut all: Vec<InstalledPlugin> = packages;
    let mut rest: Vec<InstalledPlugin> = records;
    let ghost mut done: int = 0;
    assert(rest@ =~= records@.skip(0));
    assert(records@.take(0) =~= seq![]);
    while rest.len() > 0
        invariant
            0 <= done <= records@.len(),
            rest@ == records@.skip(done),
            all@ == with_new(packages@, records@.take(done)),
        decreases rest.len(),
    {
        let record: InstalledPlugin = rest.remove(0);
        proof {
            assert(rest@ =~= records@.skip(done + 1));
            assert(records@.take(done + 1).drop_last() =~= records@.take(done));
            done = done + 1;
        }
        if !contains_id(&all, record.id.as_str()) {
            all.push(record);
        }
    }
    assert(records@.take(done) =~= records@);
    let ghost merged = all@;
    let mut sorted: Vec<InstalledPlugin> = Vec::new();
    proof {
        done = 0;
        assert(all@ =~= merged.skip(0));
        assert(merged.take(0) =~= seq![]);
    }
    while all.len() > 0
        invariant
            0 <= done <= merged.len(),
            all@ == merged.skip(done),
            sorted@ == in_order(merged.take(done)),
        decreases all.len(),
    {
        let plugin: InstalledPlugin = all.remove(0);
        proof {
            assert(all@ =~= merged.skip(done + 1));
            assert(merged.take(done + 1).drop_last() =~= merged.take(done));
            done = done + 1;
        }
        insert_in_order(&mut sorted, plugin);
    }
    assert(merged.take(done) =~= merged);
    sorted
}

/// No plugin of the list stands before one that is listed before it.
pub open spec fn is_in_order(list: Seq<InstalledPlugin>) -> bool {
    forall|i: int, j: int|
        0 <= i < j < list.len() ==> !listed_before(#[trigger] list[j], #[trigger] list[i])
}

proof fn lemma_listed_transitive(a: InstalledPlugin, b: InstalledPlugin, c: InstalledPlugin)
    requires
        listed_before(a, b),
        !listed_before(c, b),
    ensures
        listed_before(a, c),
{
    text::order_is_total(b.name@, c.name@);
    text::order_is_total(b.id@, c.id@);
    if text::text_before(b.name@, c.name@) {
        if text::text_before(a.name@, b.name@) {
            text::order_is_transitive(a.name@, b.name@, c.name@);
        }
    } else if text::text_before(a.id@, b.id@) && text::text_before(b.id@, c.id@) {
        text::order_is_transitive(a.id@, b.id@, c.id@);
    }
}

proof fn lemma_inserted(list: Seq<InstalledPlugin>, plugin: InstalledPlugin)
    requires
        is_in_order(list),
    ensures
        is_in_order(inserted(list, plugin)),
        inserted(list, plugin).to_multiset() == list.to_multiset().insert(plugin),
    decreases list.len(),
{
    broadcast use vstd::seq_lib::group_to_multiset_ensures;

    if list.len() > 0 && listed_before(plugin, list.last()) {
        let init = list.drop_last();
        assert forall|i: int, j: int| 0 <= i < j < init.len() implies !listed_before(
            #[trigger] init[j],
            #[trigger] init[i],
        ) by {
            assert(init[i] == list[i] && init[j] == list[j]);
        }
        lemma_inserted(init, plugin);
        let before = inserted(init, plugin);
        let after = inserted(list, plugin);
        assert(list =~= init.push(list.last()));
        assert forall|i: int, j: int| 0 <= i < j < after.len() implies !listed_before(
            #[trigger] after[j],
            #[trigger] after[i],
        ) by {
            if j < before.len() {
                assert(after[i] == before[i] && after[j] == before[j]);
            } else {
                assert(after[j] == list.last());
                assert(before.to_multiset().count(before[i]) > 0);
                assert(before[i] == plugin || init.contains(before[i])) by {
                    if before[i] != plugin {
                        assert(init.to_multiset().count(before[i]) > 0);
                    }
                }
                if before[i] == plugin {
                    text::order_is_total(plugin.name@, list.last().name@);
                    text::order_is_total(plugin.id@, list.last().id@);
                } else {
                    let k = choose|k: int| 0 <= k < init.len() && init[k] == before[i];
                    assert(list[k] == before[i]);
                    assert(!listed_before(list[list.len() - 1], list[k]));
                }
            }
        }
    } else {
        let after = list.push(plugin);
        assert forall|i: int, j: int| 0 <= i < j < after.len() implies !listed_before(
            #[trigger] after[j],
            #[trigger] after[i],
        ) by {
            if j < list.len() {
                assert(after[i] == list[i] && after[j] == list[j]);
            } else {
                assert(!listed_before(plugin, list.last()));
                if i < list.len() - 1 && listed_before(plugin, list[i]) {
                    assert(!listed_before(list[list.len() - 1], list[i]));
                    lemma_listed_transitive(plugin, list[i], list[list.len() - 1]);
                }
            }
        }
    }
}

/// A list that is put in order is in order, and has the same plugins as before.
pub proof fn ordering_orders(list: Seq<InstalledPlugin>)
    ensures
        is_in_order(in_order(list)),
        in_order(list).to_multiset() == list.to_multiset(),
    decreases list.len(),
{
    broadcast use vstd::seq_lib::group_to_multiset_ensures;

    if list.len() > 0 {
        ordering_orders(list.drop_last());
        lemma_inserted(in_order(list.drop_last()), list.last());
        assert(list =~= list.drop_last().push(list.last()));
    }
}

/// Every plugin that was found and every id of the user's plugins is listed.
pub proof fn no_plugin_is_lost(packages: Seq<InstalledPlugin>, records: Seq<InstalledPlugin>, i: int)
    ensures
        0 <= i < packages.len() ==> with_new(packages, records).contains(packages[i]),
        0 <= i < records.len() ==> has_id(with_new(packages, records), records[i].id@),
    decreases records.len(),
{
    let all = with_new(packages, records);
    if records.len() == 0 {
        if 0 <= i < packages.len() {
            assert(all[i] == packages[i]);
        }
    } else {
        let init = records.drop_last();
        let before = with_new(packages, init);
        no_plugin_is_lost(packages, init, i);
        if 0 <= i < packages.len() {
            let k = choose|k: int| 0 <= k < before.len() && before[k] == packages[i];
            assert(all[k] == packages[i]);
        }
        if 0 <= i < init.len() {
            let k = choose|k: int| 0 <= k < before.len() && (#[trigger] before[k]).id@ == init[i].id@;
            assert(all[k].id@ == records[i].id@);
        } else if i == records.len() - 1 {
            if !has_id(before, records.last().id@) {
                assert(all[all.len() - 1].id@ == records.last().id@);
            }
        }
    }
}

/// What a permission is called, and what it allows.
pub open spec fn capability_text(capability: Seq<char>) -> (Seq<char>, Seq<char>) {
    if capability == "session.read"@ {
        ("读取会话"@, "读取本机终端会话及其状态"@)
    } else if capability == "remote_sessions.read"@ {
        ("读取远程会话"@, "读取远程设备上的会话列表和状态"@)
    } else if capability == "workspace.read"@ {
        ("读取工作区"@, "读取当前工作区中的文件和目录"@)
    } else if capability == "workspace.create"@ {
        ("创建工作区"@, "创建新的工作区或工作目录"@)
    } else if capability == "workspace.release"@ {
        ("释放工作区"@, "关闭并释放已有工作区"@)
    } else if capability == "project.read"@ {
        ("读取项目"@, "读取项目元数据和项目列表"@)
    } else if capability == "agent.message.read"@ {
        ("读取 Agent 消息"@, "读取 Agent 之间交换的消息"@)
    } else if capability == "session.input.route"@ {
        ("路由会话输入"@, "接收并处理发往会话的输入"@)
    } else if capability == "web.browse"@ {
        ("浏览网页"@, "代表你打开并读取网页内容"@)
    } else if capability == "ui.contribute"@ {
        ("扩展界面"@, "向 Smelt 注册页面、Tab 或其他界面入口"@)
    } else if capability == "ui.context.read"@ {
        ("读取界面上下文"@, "读取当前页面、选择项等界面状态"@)
    } else if capability == "ui.dialog"@ {
        ("显示对话框"@, "在 Smelt 中打开提示或确认对话框"@)
    } else if capability == "fs.reveal"@ {
        ("在访达中显示"@, "在系统文件管理器中定位文件或目录"@)
    } else {
        ("未知权限"@, "当前版本的 Smelt 不认识这项权限，请谨慎确认"@)
    }
}

/// The plugins that the settings list.
#[derive(Debug, PartialEq, Eq)]
pub struct PluginEnablementState {
    pub catalog: Vec<InstalledPlugin>,
}

impl PluginEnablementState {
    /// What a permission is called, and what it allows.
    pub fn describe_capability(capability: &str) -> (r: (&'static str, &'static str))
        ensures
            (r.0@, r.1@) == capability_text(capability@),
    {
        if same_text(capability, "session.read") {
            ("读取会话", "读取本机终端会话及其状态")
        } else if same_text(capability, "remote_sessions.read") {
            ("读取远程会话", "读取远程设备上的会话列表和状态")
        } else if same_text(capability, "workspace.read") {
            ("读取工作区", "读取当前工作区中的文件和目录")
        } else if same_text(capability, "workspace.create") {
            ("创建工作区", "创建新的工作区或工作目录")
        } else if same_text(capability, "workspace.release") {
            ("释放工作区", "关闭并释放已有工作区")
        } else if same_text(capability, "project.read") {
            ("读取项目", "读取项目元数据和项目列表")
        } else if same_text(capability, "agent.message.read") {
            ("读取 Agent 消息", "读取 Agent 之间交换的消息")
        } else if same_text(capability, "session.input.route") {
            ("路由会话输入", "接收并处理发往会话的输入")
        } else if same_text(capability, "web.browse") {
            ("浏览网页", "代表你打开并读取网页内容")
        } else if same_text(capability, "ui.contribute") {
            ("扩展界面", "向 Smelt 注册页面、Tab 或其他界面入口")
        } else if same_text(capability, "ui.context.read") {
            ("读取界面上下文", "读取当前页面、选择项等界面状态")
        } else if same_text(capability, "ui.dialog") {
            ("显示对话框", "在 Smelt 中打开提示或确认对话框")
        } else if same_text(capability, "fs.reveal") {
            ("在访达中显示", "在系统文件管理器中定位文件或目录")
        } else {
            ("未知权限", "当前版本的 Smelt 不认识这项权限，请谨慎确认")
        }
    }

    /// Lists anew the plugins that were found and those of the user.
    pub fn refresh_catalog(
        &mut self,
        packages: Vec<InstalledPlugin>,
        records: Vec<InstalledPlugin>,
    )
        ensures
            final(self).catalog@ == in_order(with_new(packages@, records@)),
    {
        self.catalog = discover_installed_plugins(packages, records);
    }
}

/// Where a plugin is in its life.
#[derive(Clone, Copy, Debug, PartialEq, Eq, Structural)]
pub enum PluginLifecycleState {
    Ready { pid: u32 },
    Discovered,
    Starting,
    Backoff { attempt: u32 },
    Failed,
    Stopped,
    Disabled,
}

/// What the background service says of a plugin.
#[derive(Debug, PartialEq, Eq)]
pub struct PluginStatus {
    pub plugin_id: String,
    pub name: String,
    pub version: String,
    pub state: PluginLifecycleState,
    pub last_error: Option<String>,
}

/// The state of a plugin in words.
pub open spec fn state_text(state: PluginLifecycleState) -> Seq<char> {
    match state {
        PluginLifecycleState::Ready { pid } => "运行中（pid "@ + text::decimal(pid as nat) + "）"@,
        PluginLifecycleState::Discovered => "已发现，尚未启动"@,
        PluginLifecycleState::Starting => "正在启动"@,
        PluginLifecycleState::Backoff { attempt } => "启动失败，正在重试（第 "@ + text::decimal(
            attempt as nat,
        ) + " 次）"@,
        PluginLifecycleState::Failed => "启动失败"@,
        PluginLifecycleState::Stopped => "已停止"@,
        PluginLifecycleState::Disabled => "已停用"@,
    }
}

/// The status of a plugin in words. A plugin that runs does not show its last failure; one
/// that does not run shows it.
pub open spec fn status_text(status: Option<PluginStatus>) -> Seq<char> {
    match status {
        None => "未在守护中登记（守护可能没运行，或插件集尚未同步）"@,
        Some(known) => match known.last_error {
            Some(error) if !(known.state is Ready) => state_text(known.state) + "："@ + error@,
            _ => state_text(known.state),
        },
    }
}

fn describe_state(state: PluginLifecycleState) -> (r: String)
    ensures
        r@ == state_text(state),
{
    match state {
        PluginLifecycleState::Ready { pid } => {
            let number: String = decimal_text(pid as u64);
            let mut out: String = concat("运行中（pid ", number.as_str());
            out.append("）");
            out
        },
        PluginLifecycleState::Discovered => "已发现，尚未启动".to_owned(),
        PluginLifecycleState::Starting => "正在启动".to_owned(),
        PluginLifecycleState::Backoff { attempt } => {
            let number: String = decimal_text(attempt as u64);
            let mut out: String = concat("启动失败，正在重试（第 ", number.as_str());
            out.append(" 次）");
            out
        },
        PluginLifecycleState::Failed => "启动失败".to_owned(),
        PluginLifecycleState::Stopped => "已停止".to_owned(),
        PluginLifecycleState::Disabled => "已停用".to_owned(),
    }
}

/// The status of a plugin that may be known, as a value.
pub open spec fn known_status(status: Option<&PluginStatus>) -> Option<PluginStatus> {
    match status {
        Some(known) => Some(*known),
        None => None,
    }
}

/// The status of a plugin in words.
pub fn describe_plugin_status(status: Option<&PluginStatus>) -> (r: String)
    ensures
        r@ == status_text(known_status(status)),
{
    match status {
        None => "未在守护中登记（守护可能没运行，或插件集尚未同步）".to_owned(),
        Some(known) => {
            let base: String = describe_state(known.state);
            let running: bool = match known.state {
                PluginLifecycleState::Ready { .. } => true,
                _ => false,
            };
            match &known.last_error {
                Some(error) => if running {
                    base
                } else {
                    let mut out: String = concat(base.as_str(), "：");
                    out.append(error.as_str());
                    out
                },
                None => base,
            }
        },
    }
}

/// A plugin that runs shows no error: what went wrong before it ran is no longer told.
pub proof fn running_plugins_show_no_error(status: PluginStatus)
    requires
        status.state is Ready,
    ensures
        status_text(Some(status)) == state_text(status.state),
{
}

/// The statuses by the ids of their plugins. Of two for one id, the later one counts.
pub open spec fn by_id(statuses: Seq<PluginStatus>) -> Map<Seq<char>, PluginStatus>
    decreases statuses.len(),
{
    if statuses.len() == 0 {
        Map::empty()
    } else {
        by_id(statuses.drop_last()).insert(statuses.last().plugin_id@, statuses.last())
    }
}

/// What is known of the plugins that run: their statuses, or why they could not be had.
#[derive(Debug, PartialEq, Eq)]
pub struct PluginRuntimeStatuses {
    pub statuses: Vec<PluginStatus>,
    pub error: Option<String>,
}

impl PluginRuntimeStatuses {
    /// Nothing is known.
    pub fn new() -> (r: Self)
        ensures
            r.statuses@.len() == 0,
            r.error is None,
    {
        PluginRuntimeStatuses { statuses: Vec::new(), error: None }
    }

    /// The status of the plugin with the given id.
    pub fn get(&self, plugin_id: &str) -> (r: Option<&PluginStatus>)
        ensures
            known_status(r) == if by_id(self.statuses@).contains_key(plugin_id@) {
                Some(by_id(self.statuses@)[plugin_id@])
            } else {
                None
            },
    {
        let mut left: usize = self.statuses.len();
        let ghost all = self.statuses@;
        assert(all.take(all.len() as int) =~= all);
        while left > 0
            invariant
                all == self.statuses@,
                left <= all.len(),
                by_id(all).contains_key(plugin_id@) == by_id(all.take(left as int)).contains_key(
                    plugin_id@,
                ),
                by_id(all).contains_key(plugin_id@) ==> by_id(all)[plugin_id@] == by_id(
                    all.take(left as int),
                )[plugin_id@],
            decreases left,
        {
            assert(all.take(left as int).drop_last() =~= all.take(left - 1));
            left = left - 1;
            if same_text(self.statuses[left].plugin_id.as_str(), plugin_id) {
                return Some(&self.statuses[left]);
            }
        }
        None
    }
}

/// What an answer of the background service, or the lack of one, says of the plugins.
pub fn refresh_plugin_statuses(outcome: Result<Vec<PluginStatus>, String>) -> (r:
    PluginRuntimeStatuses)
    ensures
        match outcome {
            Ok(statuses) => r.statuses == statuses && r.error is None,
            Err(error) => r.statuses@.len() == 0 && r.error == Some(error),
        },
{
    match outcome {
        Ok(statuses) => PluginRuntimeStatuses { statuses, error: None },
        Err(error) => PluginRuntimeStatuses { statuses: Vec::new(), error: Some(error) },
    }
}

/// What is shown of the plugins right after one was turned on or off: nothing, until they are
/// asked again.
pub fn forget_plugin_statuses(statuses: &mut PluginRuntimeStatuses)
    ensures
        final(statuses).statuses@.len() == 0,
        final(statuses).error is None,
{
    *statuses = PluginRuntimeStatuses::new();
}

/// How long, in milliseconds, the statuses of plugins are not asked for again.
pub const PLUGIN_STATUS_INTERVAL: u64 = 2000;

/// When the statuses of plugins were last asked for, in milliseconds.
#[derive(Clone, Copy, Debug, PartialEq, Eq, Structural)]
pub struct PluginStatusThrottle {
    pub last: Option<u64>,
}

/// Whether to ask for the statuses of plugins now. Pages are drawn far more often than the
/// background service should be asked.
pub fn refresh_plugin_statuses_throttled(throttle: &mut PluginStatusThrottle, now: u64) -> (r: bool)
    ensures
        r == (match old(throttle).last {
            Some(previous) => now - previous >= PLUGIN_STATUS_INTERVAL,
            None => true,
        }),
        final(throttle).last == if r {
            Some(now)
        } else {
            old(throttle).last
        },
{
    let due: bool = match throttle.last {
        Some(previous) => now >= previous && now - previous >= PLUGIN_STATUS_INTERVAL,
        None => true,
    };
    if due {
        throttle.last = Some(now);
    }
    due
}

} // verus!
