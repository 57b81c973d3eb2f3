//! Updates of the program: where they come from, and how far they are.

use vstd::prelude::*;

use crate::text::{concat, same_text};

verus! {

/// Where updates come from.
#[derive(Clone, Copy, Debug, PartialEq, Eq, Structural)]
pub enum UpdateChannel {
    Dev,
    Prod,
}

/// Where updates come from, and whether they are installed without asking.
#[derive(Clone, Copy, Debug, PartialEq, Eq, Structural)]
pub struct UpdateSettings {
    pub channel: UpdateChannel,
    pub auto_install: bool,
}

impl Default for UpdateSettings {
    fn default() -> (r: Self)
        ensures
            r == (UpdateSettings { channel: UpdateChannel::Prod, auto_install: true }),
    {
        UpdateSettings { channel: UpdateChannel::Prod, auto_install: true }
    }
}

/// The settings of updates, as they are stored.
#[derive(Debug, PartialEq, Eq)]
pub struct UpdateSettingsSnapshot {
    pub channel: String,
    pub auto_install: bool,
}

/// The name that a channel is stored under.
pub open spec fn channel_name(channel: UpdateChannel) -> Seq<char> {
    match channel {
        UpdateChannel::Dev => "dev"@,
        UpdateChannel::Prod => "prod"@,
    }
}

/// The settings in a snapshot. A channel that is unknown is that of releases.
pub open spec fn settings_in(channel: Seq<char>, auto_install: bool) -> UpdateSettings {
    UpdateSettings {
        channel: if channel == "dev"@ {
            UpdateChannel::Dev
        } else {
            UpdateChannel::Prod
        },
        auto_install,
    }
}

/// The settings of updates, as they are stored.
pub fn snapshot_from_settings(settings: &UpdateSettings) -> (r: UpdateSettingsSnapshot)
    ensures
        r.channel@ == channel_name(settings.channel),
        r.auto_install == settings.auto_install,
{
    UpdateSettingsSnapshot {
        channel: match settings.channel {
            UpdateChannel::Dev => "dev".to_owned(),
            UpdateChannel::Prod => "prod".to_owned(),
        },
        auto_install: settings.auto_install,
    }
}

/// The settings of updates that are stored.
pub fn settings_from_snapshot(snapshot: &UpdateSettingsSnapshot) -> (r: UpdateSettings)
    ensures
        r == settings_in(snapshot.channel@, snapshot.auto_install),
{
    UpdateSettings {
        channel: if same_text(snapshot.channel.as_str(), "dev") {
            UpdateChannel::Dev
        } else {
            UpdateChannel::Prod
        },
        auto_install: snapshot.auto_install,
    }
}

/// The settings of updates: those that are stored, or the default where nothing is, or nothing
/// can be read.
pub fn load_update_settings(stored: &Option<UpdateSettingsSnapshot>) -> (r: UpdateSettings)
    ensures
        r == match *stored {
            Some(snapshot) => settings_in(snapshot.channel@, snapshot.auto_install),
            None => UpdateSettings { channel: UpdateChannel::Prod, auto_install: true },
        },
{
    match stored {
        Some(snapshot) => settings_from_snapshot(snapshot),
        None => UpdateSettings::default(),
    }
}

/// Chooses where updates come from.
pub fn apply_update_channel(settings: &mut UpdateSettings, channel: UpdateChannel)
    ensures
        *final(settings) == (UpdateSettings { channel, ..*old(settings) }),
{
    settings.channel = channel;
}

/// Chooses whether updates are installed without asking.
pub fn apply_auto_install(settings: &mut UpdateSettings, auto_install: bool)
    ensures
        *final(settings) == (UpdateSettings { auto_install, ..*old(settings) }),
{
    settings.auto_install = auto_install;
}

/// What is read back is what was stored.
pub proof fn stored_settings_are_read_back(settings: UpdateSettings)
    ensures
        settings_in(channel_name(settings.channel), settings.auto_install) == settings,
{
    reveal_strlit("dev");
    reveal_strlit("prod");
    assert("dev"@.len() != "prod"@.len());
}

/// How much of an update has come. The texts are in percent and in megabytes.
#[derive(Debug, PartialEq, Eq)]
pub enum DownloadProgress {
    Sized { percent: String, received: String, total: String },
    Unsized { received: String },
}

/// Whether it is known how much there is to come.
pub fn download_is_sized(total: Option<u64>) -> (r: bool)
    ensures
        r == (total matches Some(bytes) && bytes > 0),
{
    match total {
        Some(bytes) => bytes > 0,
        None => false,
    }
}

/// How far an update is.
#[derive(Debug, PartialEq, Eq)]
pub enum UpdateStatus {
    Idle,
    Checking,
    UpToDate,
    Downloading { version: String, progress: DownloadProgress },
    Installing { version: String },
    ReadyToInstall { version: String },
    Failed(String),
}

/// How far an update is, in words.
pub open spec fn status_words(status: UpdateStatus) -> Seq<char> {
    match status {
        UpdateStatus::Idle => seq![],
        UpdateStatus::Checking => "检查中…"@,
        UpdateStatus::UpToDate => "已是最新版本"@,
        UpdateStatus::Downloading { version, progress } => match progress {
            DownloadProgress::Sized { percent, received, total } => "正在下载 v"@ + version@ + "… "@
                + percent@ + "%（"@ + received@ + " / "@ + total@ + " MB）"@,
            DownloadProgress::Unsized { received } => "正在下载 v"@ + version@ + "…（已下载 "@
                + received@ + " MB）"@,
        },
        UpdateStatus::Installing { version } => "正在安装 v"@ + version@ + "…"@,
        UpdateStatus::ReadyToInstall { version } => "新版本 v"@ + version@ + " 已就绪，下次启动生效"@,
        UpdateStatus::Failed(error) => "检查失败："@ + error@,
    }
}

/// The update is under way.
pub open spec fn is_under_way(status: UpdateStatus) -> bool {
    status is Checking || status is Downloading || status is Installing
}

/// What shows how far an update is.
#[derive(Clone, Copy, Debug, PartialEq, Eq, Structural)]
pub enum ProgressBar {
    Share,
    Endless,
}

impl UpdateStatus {
    /// How far an update is, in words.
    pub fn text(&self) -> (r: String)
        ensures
            r@ == status_words(*self),
    {
        match self {
            UpdateStatus::Idle => String::new(),
            UpdateStatus::Checking => "检查中…".to_owned(),
            UpdateStatus::UpToDate => "已是最新版本".to_owned(),
            UpdateStatus::Downloading { version, progress } => {
                let mut out: String = concat("正在下载 v", version.as_str());
                match progress {
                    DownloadProgress::Sized { percent, received, total } => {
                        out.append("… ");
                        out.append(percent.as_str());
                        out.append("%（");
                        out.append(received.as_str());
                        out.append(" / ");
                        out.append(total.as_str());
                        out.append(" MB）");
                    },
                    DownloadProgress::Unsized { received } => {
                        out.append("…（已下载 ");
                        out.append(received.as_str());
                        out.append(" MB）");
                    },
                }
                out
            },
            UpdateStatus::Installing { version } => {
                let mut out: String = concat("正在安装 v", version.as_str());
                out.append("…");
                out
            },
            UpdateStatus::ReadyToInstall { version } => {
                let mut out: String = concat("新版本 v", version.as_str());
                out.append(" 已就绪，下次启动生效");
                out
            },
            UpdateStatus::Failed(error) => concat("检查失败：", error.as_str()),
        }
    }

    /// Whether the update is under way. One that is can not be asked for again.
    pub fn is_busy(&self) -> (r: bool)
        ensures
            r == is_under_way(*self),
    {
        match self {
            UpdateStatus::Checking
            | UpdateStatus::Downloading { .. }
            | UpdateStatus::Installing { .. } => true,
            _ => false,
        }
    }

    /// Whether one can restart into the update.
    pub fn is_ready(&self) -> (r: bool)
        ensures
            r == (*self is ReadyToInstall),
    {
        match self {
            UpdateStatus::ReadyToInstall { .. } => true,
            _ => false,
        }
    }

    /// What the button for checking is called.
    pub fn check_label(&self) -> (r: &'static str)
        ensures
            r@ == match *self {
                UpdateStatus::Checking => "检查中…"@,
                UpdateStatus::Downloading { .. } => "下载中…"@,
                UpdateStatus::Installing { .. } => "安装中…"@,
                _ => "检查更新"@,
            },
    {
        match self {
            UpdateStatus::Checking => "检查中…",
            UpdateStatus::Downloading { .. } => "下载中…",
            UpdateStatus::Installing { .. } => "安装中…",
            _ => "检查更新",
        }
    }

    /// What shows how far the update is.
    pub fn progress_bar(&self) -> (r: Option<ProgressBar>)
        ensures
            r == match *self {
                UpdateStatus::Downloading { progress: DownloadProgress::Sized { .. }, .. } => Some(
                    ProgressBar::Share,
                ),
                UpdateStatus::Downloading { .. } => Some(ProgressBar::Endless),
                UpdateStatus::Installing { .. } => Some(ProgressBar::Endless),
                _ => None,
            },
    {
        match self {
            UpdateStatus::Downloading { progress, .. } => match progress {
                DownloadProgress::Sized { .. } => Some(ProgressBar::Share),
                DownloadProgress::Unsized { .. } => Some(ProgressBar::Endless),
            },
            UpdateStatus::Installing { .. } => Some(ProgressBar::Endless),
            _ => None,
        }
    }
}

} // verus!
