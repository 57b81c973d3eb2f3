//! The shortcuts that the settings list.

use vstd::prelude::*;

use crate::text;

verus! {

/// A shortcut: what it does, and the keys for it.
#[derive(Debug, PartialEq, Eq)]
pub struct Shortcut {
    pub label: &'static str,
    pub keys: Vec<String>,
}

/// Shortcuts that belong together.
#[derive(Debug, PartialEq, Eq)]
pub struct ShortcutSection {
    pub title: &'static str,
    pub shortcuts: Vec<Shortcut>,
}

/// A shortcut, as characters.
pub open spec fn shortcut_view(shortcut: Shortcut) -> (Seq<char>, Seq<Seq<char>>) {
    (shortcut.label@, text::texts(shortcut.keys@))
}

/// Shortcuts, as characters.
pub open spec fn shortcut_views(shortcuts: Seq<Shortcut>) -> Seq<(Seq<char>, Seq<Seq<char>>)> {
    shortcuts.map_values(|shortcut: Shortcut| shortcut_view(shortcut))
}

fn push_shortcut(shortcuts: &mut Vec<Shortcut>, label: &'static str, first: &str, second: Option<&str>)
    ensures
        shortcut_views(final(shortcuts)@) == shortcut_views(old(shortcuts)@).push(
            (
                label@,
                match second {
                    Some(second) => seq![first@, second@],
                    None => seq![first@],
                },
            ),
        ),
{
    let mut keys: Vec<String> = Vec::new();
    keys.push(first.to_owned());
    if let Some(second) = second {
        keys.push(second.to_owned());
        assert(text::texts(keys@) =~= seq![first@, second@]);
    } else {
        assert(text::texts(keys@) =~= seq![first@]);
    }
    shortcuts.push(Shortcut { label, keys });
    assert(shortcut_views(shortcuts@) =~= shortcut_views(old(shortcuts)@).push(
        shortcut_view(shortcuts@.last()),
    ));
}

/// The shortcuts under 「全局」.
pub open spec fn global_table() -> Seq<(Seq<char>, Seq<Seq<char>>)> {
    seq![
        ("打开设置"@, seq!["⌘,"@]),
        ("打开命令面板"@, seq!["⌘K"@]),
        ("新建任务"@, seq!["⇧⌘N"@]),
        ("退出 Smelt"@, seq!["⌘Q"@]),
    ]
}

fn global_shortcuts() -> (r: Vec<Shortcut>)
    ensures
        shortcut_views(r@) == global_table(),
{
    let mut shortcuts: Vec<Shortcut> = Vec::new();
    push_shortcut(&mut shortcuts, "打开设置", "⌘,", None);
    push_shortcut(&mut shortcuts, "打开命令面板", "⌘K", None);
    push_shortcut(&mut shortcuts, "新建任务", "⇧⌘N", None);
    push_shortcut(&mut shortcuts, "退出 Smelt", "⌘Q", None);
    assert(shortcut_views(shortcuts@) =~= global_table());
    shortcuts
}

/// The shortcuts under 「会话与面板」.
pub open spec fn session_table() -> Seq<(Seq<char>, Seq<Seq<char>>)> {
    seq![
        ("切换右侧面板"@, seq!["⌘B"@]),
        ("上一个 / 下一个会话"@, seq!["⌘↑"@, "⌘↓"@]),
        ("切换到第 1–9 个会话"@, seq!["⌘1…9"@]),
        ("上一个 / 下一个分屏"@, seq!["⌘["@, "⌘]"@]),
        ("左右分屏 / 上下分屏"@, seq!["⌘D"@, "⇧⌘D"@]),
        ("关闭当前分屏或会话"@, seq!["⌘W"@]),
    ]
}

fn session_shortcuts() -> (r: Vec<Shortcut>)
    ensures
        shortcut_views(r@) == session_table(),
{
    let mut shortcuts: Vec<Shortcut> = Vec::new();
    push_shortcut(&mut shortcuts, "切换右侧面板", "⌘B", None);
    push_shortcut(&mut shortcuts, "上一个 / 下一个会话", "⌘↑", Some("⌘↓"));
    push_shortcut(&mut shortcuts, "切换到第 1–9 个会话", "⌘1…9", None);
    push_shortcut(&mut shortcuts, "上一个 / 下一个分屏", "⌘[", Some("⌘]"));
    push_shortcut(&mut shortcuts, "左右分屏 / 上下分屏", "⌘D", Some("⇧⌘D"));
    push_shortcut(&mut shortcuts, "关闭当前分屏或会话", "⌘W", None);
    assert(shortcut_views(shortcuts@) =~= session_table());
    shortcuts
}

/// The shortcuts under 「编辑与导航」.
pub open spec fn navigation_table() -> Seq<(Seq<char>, Seq<Seq<char>>)> {
    seq![
        ("保存当前文件"@, seq!["⌘S"@]),
        ("上一个 / 下一个差异"@, seq!["⇧F7"@, "F7"@]),
        ("关闭预览或返回"@, seq!["Esc"@]),
        ("终端补全 / 反向补全"@, seq!["Tab"@, "⇧Tab"@]),
    ]
}

fn navigation_shortcuts() -> (r: Vec<Shortcut>)
    ensures
        shortcut_views(r@) == navigation_table(),
{
    let mut shortcuts: Vec<Shortcut> = Vec::new();
    push_shortcut(&mut shortcuts, "保存当前文件", "⌘S", None);
    push_shortcut(&mut shortcuts, "上一个 / 下一个差异", "⇧F7", Some("F7"));
    push_shortcut(&mut shortcuts, "关闭预览或返回", "Esc", None);
    push_shortcut(&mut shortcuts, "终端补全 / 反向补全", "Tab", Some("⇧Tab"));
    assert(shortcut_views(shortcuts@) =~= navigation_table());
    shortcuts
}

/// The shortcuts that the settings list, by section.
pub fn shortcut_sections() -> (r: Vec<ShortcutSection>)
    ensures
        r@.len() == 3,
        r@[0].title@ == "全局"@,
        shortcut_views(r@[0].shortcuts@) == global_table(),
        r@[1].title@ == "会话与面板"@,
        shortcut_views(r@[1].shortcuts@) == session_table(),
        r@[2].title@ == "编辑与导航"@,
        shortcut_views(r@[2].shortcuts@) == navigation_table(),
{
    let mut sections: Vec<ShortcutSection> = Vec::new();
    sections.push(ShortcutSection { title: "全局", shortcuts: global_shortcuts() });
    sections.push(ShortcutSection { title: "会话与面板", shortcuts: session_shortcuts() });
    sections.push(ShortcutSection { title: "编辑与导航", shortcuts: navigation_shortcuts() });
    sections
}

} // verus!
