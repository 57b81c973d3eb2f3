//! Which events of agents the user is notified of, and whether hooks are kept installed.

use vstd::prelude::*;

verus! {

/// An event that the user can be notified of.
#[derive(Clone, Copy, Debug, PartialEq, Eq, Structural)]
pub enum NotificationKind {
    Approval,
    Input,
    Success,
    Failure,
    TerminalBell,
}

/// What the user wants to hear of, and whether hooks are installed when the program starts.
#[derive(Clone, Copy, Debug, PartialEq, Eq, Structural)]
pub struct AgentUiConfig {
    pub notify_approval: bool,
    pub notify_input: bool,
    pub notify_success: bool,
    pub notify_failure: bool,
    pub notify_terminal_bell: bool,
    pub agent_hooks_enabled: bool,
}

/// The user wants to hear of an event.
pub open spec fn wanted(config: AgentUiConfig, kind: NotificationKind) -> bool {
    match kind {
        NotificationKind::Approval => config.notify_approval,
        NotificationKind::Input => config.notify_input,
        NotificationKind::Success => config.notify_success,
        NotificationKind::Failure => config.notify_failure,
        NotificationKind::TerminalBell => config.notify_terminal_bell,
    }
}

/// What the user wants, with one event switched on or off.
pub open spec fn switched(config: AgentUiConfig, kind: NotificationKind, on: bool) -> AgentUiConfig {
    match kind {
        NotificationKind::Approval => AgentUiConfig { notify_approval: on, ..config },
        NotificationKind::Input => AgentUiConfig { notify_input: on, ..config },
        NotificationKind::Success => AgentUiConfig { notify_success: on, ..config },
        NotificationKind::Failure => AgentUiConfig { notify_failure: on, ..config },
        NotificationKind::TerminalBell => AgentUiConfig { notify_terminal_bell: on, ..config },
    }
}

/// Whether the user is notified of an event. Before anything was loaded, of every one.
pub fn notifies(config: Option<&AgentUiConfig>, kind: NotificationKind) -> (r: bool)
    ensures
        r == match config {
            Some(config) => wanted(*config, kind),
            None => true,
        },
{
    match config {
        None => true,
        Some(config) => match kind {
            NotificationKind::Approval => config.notify_approval,
            NotificationKind::Input => config.notify_input,
            NotificationKind::Success => config.notify_success,
            NotificationKind::Failure => config.notify_failure,
            NotificationKind::TerminalBell => config.notify_terminal_bell,
        },
    }
}

impl AgentUiConfig {
    /// Switches the notification of an event on or off.
    pub fn set_notify(&mut self, kind: NotificationKind, on: bool)
        ensures
            *final(self) == switched(*old(self), kind, on),
    {
        match kind {
            NotificationKind::Approval => {
                self.notify_approval = on;
            },
            NotificationKind::Input => {
                self.notify_input = on;
            },
            NotificationKind::Success => {
                self.notify_success = on;
            },
            NotificationKind::Failure => {
                self.notify_failure = on;
            },
            NotificationKind::TerminalBell => {
                self.notify_terminal_bell = on;
            },
        }
    }

    /// Remembers that the user had hooks installed or removed. It is remembered before that is
    /// done, so that a failure at one agent does not undo what the user wants.
    pub fn hooks_requested(&mut self, install: bool)
        ensures
            *final(self) == (AgentUiConfig { agent_hooks_enabled: install, ..*old(self) }),
    {
        self.agent_hooks_enabled = install;
    }
}

/// Switching one notification leaves the others as they are.
pub proof fn switches_are_independent(
    config: AgentUiConfig,
    kind: NotificationKind,
    on: bool,
    other: NotificationKind,
)
    ensures
        wanted(switched(config, kind, on), other) == if other == kind {
            on
        } else {
            wanted(config, other)
        },
        switched(config, kind, on).agent_hooks_enabled == config.agent_hooks_enabled,
{
}

} // verus!
