//! The plugin that Smelt installs in OpenCode.

use vstd::prelude::*;

use crate::agent_hooks::document;
use crate::agent_hooks::document::{missing_notify_message, HookFile, HookFileView};
use crate::json;
use crate::json::{Json, JsonView};
use crate::text;
use crate::text::{concat, same_text, starts_with};

verus! {

/// The first line of every plugin that Smelt manages.
pub const OPENCODE_PLUGIN_MARKER: &'static str = "// Managed by Smelt agent notifications v1.";

/// The plugin, behind the path of the helper.
pub const PLUGIN_BODY: &'static str = r#";

const phaseBySession = new Map();
const parentBySession = new Map();
const titleBySession = new Map();
const activeSubagents = new Set();
let rootSessionID;
let rootIdlePending = false;
let forwardedRootTitle;

const sessionIDFrom = (value) =>
  value?.sessionID ??
  value?.sessionId ??
  value?.session_id ??
  value?.info?.id ??
  value?.session?.id;

const parentIDFrom = (value) =>
  value?.info?.parentID ??
  value?.session?.parentID ??
  value?.parentID ??
  value?.parentId ??
  value?.parent_id;

const sessionTitleFrom = (properties) => {
  const title = properties.info?.title;
  return typeof title === "string" && title.trim() ? title.trim() : undefined;
};

const belongsToRoot = (sessionID) => {
  if (!sessionID || !rootSessionID) return false;
  const visited = new Set();
  let current = sessionID;
  while (current && !visited.has(current)) {
    if (current === rootSessionID) return true;
    visited.add(current);
    current = parentBySession.get(current);
  }
  return false;
};

const isSubagentSession = (sessionID) =>
  sessionID !== rootSessionID && belongsToRoot(sessionID);

const forward = async (hookEvent, payload = {}) => {
  if (!process.env.SMELT_SESSION_ID || !process.env.SMELT_SOCK) return;
  try {
    const child = Bun.spawn([SMELT_NOTIFY], {
      env: {
        ...process.env,
        SMELT_HOOK_PROVIDER: "opencode",
        SMELT_HOOK_EVENT: hookEvent,
      },
      stdin: "pipe",
      stdout: "ignore",
      stderr: "ignore",
    });
    child.stdin.write(JSON.stringify({ ...payload, hook_event_name: hookEvent }));
    child.stdin.end();
    await child.exited;
  } catch {
    // 状态上报必须 fail-open，不能打断 OpenCode 的 agent loop。
  }
};

const transition = async (sessionID, phase, hookEvent, payload = {}) => {
  const key = sessionID ?? "smelt-session";
  if (phaseBySession.get(key) === phase) return;
  phaseBySession.set(key, phase);
  await forward(hookEvent, { ...payload, session_id: sessionID });
};

const topKnownAncestor = (sessionID) => {
  const visited = new Set();
  let current = sessionID;
  while (parentBySession.has(current) && !visited.has(current)) {
    visited.add(current);
    current = parentBySession.get(current);
  }
  return current;
};

const forwardRootTitle = async (sessionID) => {
  if (!sessionID || sessionID !== rootSessionID) return;
  const title = titleBySession.get(sessionID);
  if (!title || title === forwardedRootTitle) return;
  await forward("SessionTitleChanged", { session_id: sessionID, title });
  forwardedRootTitle = title;
};

const adoptRootSession = async (sessionID) => {
  if (rootSessionID || !sessionID) return;
  rootSessionID = topKnownAncestor(sessionID);
  await transition(rootSessionID, "started", "SessionStart");
  await forwardRootTitle(rootSessionID);
};

const subagentNameFrom = (properties) =>
  properties.info?.title ?? properties.info?.agent ?? properties.agent;

const flushRootStop = async () => {
  if (!rootIdlePending || activeSubagents.size !== 0 || !rootSessionID) return;
  rootIdlePending = false;
  await transition(rootSessionID, "idle", "Stop");
};

const startSubagent = async (sessionID, properties = {}) => {
  if (!isSubagentSession(sessionID) || activeSubagents.has(sessionID)) return;
  activeSubagents.add(sessionID);
  phaseBySession.set(sessionID, "subagent-active");
  await forward("SubagentStart", {
    session_id: sessionID,
    agent_type: subagentNameFrom(properties),
  });
};

const stopSubagent = async (sessionID) => {
  if (!activeSubagents.delete(sessionID)) return;
  phaseBySession.set(sessionID, "idle");
  await forward("SubagentStop", { session_id: sessionID });
  await flushRootStop();
};

const stopRootWhenChildrenFinish = async () => {
  if (activeSubagents.size === 0) {
    rootIdlePending = false;
    await transition(rootSessionID, "idle", "Stop");
    return;
  }
  rootIdlePending = true;
  phaseBySession.set(rootSessionID, "idle-pending");
};

const errorMessage = (error) => {
  const message = error?.data?.message ?? error?.message ?? error;
  return typeof message === "string" ? message : "OpenCode session error";
};

export const SmeltNotifications = async () => ({
  "tool.execute.before": async (input, output) => {
    await adoptRootSession(input.sessionID);
    if (!belongsToRoot(input.sessionID)) return;
    await startSubagent(input.sessionID);
    await forward("PreToolUse", {
      session_id: input.sessionID,
      tool_name: input.tool,
      tool_input: output.args,
      tool_use_id: input.callID,
    });
  },

  "tool.execute.after": async (input) => {
    await adoptRootSession(input.sessionID);
    if (!belongsToRoot(input.sessionID)) return;
    await forward("PostToolUse", {
      session_id: input.sessionID,
      tool_name: input.tool,
      tool_use_id: input.callID,
    });
  },

  event: async ({ event }) => {
    const properties = event.properties ?? {};
    const sessionID = sessionIDFrom(properties);
    const sessionTitle = sessionTitleFrom(properties);
    if (sessionID && sessionTitle) titleBySession.set(sessionID, sessionTitle);

    if (event.type === "session.created") {
      const parentID = parentIDFrom(properties);
      if (sessionID && parentID) parentBySession.set(sessionID, parentID);

      if (!rootSessionID && sessionID && !parentID) {
        await adoptRootSession(sessionID);
      } else if (isSubagentSession(sessionID)) {
        await startSubagent(sessionID, properties);
      }
      return;
    }

    const status = properties.status?.type ?? properties.status;
    const establishesActivity =
      (event.type === "session.status" && status === "busy") ||
      event.type === "permission.updated" ||
      event.type === "permission.asked" ||
      event.type === "permission.v2.asked" ||
      event.type === "question.asked" ||
      event.type === "question.v2.asked";
    if (establishesActivity) await adoptRootSession(sessionID);

    // OpenCode 的事件总线会广播同目录下其它会话；只聚合当前根 Session 及其后代。
    if (!belongsToRoot(sessionID)) return;

    switch (event.type) {
      case "session.updated":
        await forwardRootTitle(sessionID);
        break;
      case "session.status": {
        if (isSubagentSession(sessionID)) {
          if (status === "busy") {
            await startSubagent(sessionID, properties);
            phaseBySession.set(sessionID, "busy");
          } else if (status === "idle") {
            await stopSubagent(sessionID);
          } else if (status === "retry") {
            await transition(sessionID, "retry", "ErrorOccurred", {
              recoverable: true,
              message: errorMessage(properties.status),
            });
          }
        } else if (status === "busy") {
          rootIdlePending = false;
          await transition(sessionID, "busy", "UserPromptSubmit");
        } else if (status === "idle") {
          await stopRootWhenChildrenFinish();
        } else if (status === "retry") {
          await transition(sessionID, "retry", "ErrorOccurred", {
            recoverable: true,
            message: errorMessage(properties.status),
          });
        }
        break;
      }
      case "session.idle":
        if (isSubagentSession(sessionID)) {
          await stopSubagent(sessionID);
        } else {
          await stopRootWhenChildrenFinish();
        }
        break;
      case "session.error": {
        const child = isSubagentSession(sessionID);
        await transition(sessionID, "failed", "ErrorOccurred", {
          recoverable: child,
          message: errorMessage(properties.error),
        });
        if (child) {
          await stopSubagent(sessionID);
        } else {
          rootIdlePending = false;
        }
        break;
      }
      case "session.deleted":
        if (isSubagentSession(sessionID)) {
          await stopSubagent(sessionID);
        } else {
          rootIdlePending = false;
          await forward("SessionEnd", { session_id: sessionID });
        }
        phaseBySession.delete(sessionID ?? "smelt-session");
        titleBySession.delete(sessionID);
        break;
      case "permission.updated":
      case "permission.asked":
      case "permission.v2.asked": {
        const permission =
          typeof properties.permission === "object" ? properties.permission : properties;
        await forward("PermissionRequest", {
          session_id: sessionID,
          tool_name: permission.permission ?? permission.action ?? permission.type ?? "tool",
          message: permission.title,
        });
        break;
      }
      case "permission.replied":
      case "permission.v2.replied":
        await forward("PostToolUse", { session_id: sessionID });
        break;
      case "question.asked":
      case "question.v2.asked": {
        const question = properties.question ?? properties;
        const message =
          question.questions?.[0]?.question ??
          question.questions?.[0]?.header ??
          question.text ??
          question.title ??
          "OpenCode 等待你的输入";
        await forward("Notification", {
          session_id: sessionID,
          notification_type: "elicitation_dialog",
          message,
        });
        break;
      }
      case "question.replied":
      case "question.rejected":
      case "question.v2.replied":
      case "question.v2.rejected":
        await forward("PostToolUse", { session_id: sessionID });
        break;
    }
  },
});
"#;

/// A text as a string literal of the plugin's language.
pub open spec fn literal(content: Seq<char>) -> Seq<char> {
    json::pretty_text(JsonView::String(content))
}

/// The plugin that reports through the helper at `notify`.
pub open spec fn plugin_source(notify: Seq<char>) -> Seq<char> {
    OPENCODE_PLUGIN_MARKER@ + "\nconst SMELT_NOTIFY = "@ + literal(notify) + PLUGIN_BODY@
}

/// Smelt manages the plugin.
pub open spec fn is_managed(source: Seq<char>) -> bool {
    text::has_prefix(source, OPENCODE_PLUGIN_MARKER@)
}

/// The text to write at `path` so that the plugin is installed, or why it cannot be. A
/// plugin of someone else is not overwritten.
pub open spec fn installation_at(
    path: Seq<char>,
    file: HookFileView,
    notify: Seq<char>,
) -> Result<Seq<char>, Seq<char>> {
    match file {
        HookFileView::Unreadable(reason) => Err(reason),
        HookFileView::Text(source) if !is_managed(source) => Err(
            path + " 已存在且不是 Smelt 管理的插件，请先改名后重试"@,
        ),
        _ => Ok(plugin_source(notify)),
    }
}

/// The text to write so that the plugin is installed, or why it cannot be.
pub open spec fn installation(
    notify: Seq<char>,
    available: bool,
    path: Option<Seq<char>>,
    file: HookFileView,
) -> Result<Seq<char>, Seq<char>> {
    if !available {
        Err(document::missing_notify(notify))
    } else {
        match path {
            None => Err("无 home/config 目录"@),
            Some(place) => installation_at(place, file, notify),
        }
    }
}

/// The plugin, and the text of its path as a string literal in it.
pub fn opencode_plugin_source(notify: &str) -> (r: String)
    ensures
        r@ == plugin_source(notify@),
        is_managed(r@),
{
    let quoted: String = match Json::String(notify.to_owned()).pretty() {
        Ok(quoted) => quoted,
        Err(_) => String::new(),
    };
    let mut out: String = concat(OPENCODE_PLUGIN_MARKER, "\nconst SMELT_NOTIFY = ");
    out.append(quoted.as_str());
    out.append(PLUGIN_BODY);
    assert(out@.take(OPENCODE_PLUGIN_MARKER@.len() as int) =~= OPENCODE_PLUGIN_MARKER@);
    out
}

/// Whether the plugin, given by its text where it could be read, is the one that Smelt
/// installs. It is of no use without the helper.
pub fn opencode_plugin_installed(notify_available: bool, content: Option<&str>, notify: &str) -> (r:
    bool)
    ensures
        r == (notify_available && document::maybe_text(content) == Some(plugin_source(notify@))),
{
    if !notify_available {
        return false;
    }
    match content {
        None => false,
        Some(source) => {
            let expected: String = opencode_plugin_source(notify);
            same_text(source, expected.as_str())
        },
    }
}

/// The text to write at `path` so that the plugin is installed.
pub fn install_opencode_plugin_at(path: &str, file: &HookFile, notify: &str) -> (r: Result<
    String,
    String,
>)
    ensures
        document::outcome(r) == installation_at(path@, file.view(), notify@),
        file.view() matches HookFileView::Text(source) && !is_managed(source) ==> r is Err,
        r matches Ok(written) ==> is_managed(written@),
{
    match file {
        HookFile::Unreadable(reason) => {
            return Err(reason.clone());
        },
        HookFile::Text(source) => {
            if !starts_with(source.as_str(), OPENCODE_PLUGIN_MARKER) {
                return Err(
                    concat(path, " 已存在且不是 Smelt 管理的插件，请先改名后重试"),
                );
            }
        },
        HookFile::Absent => {},
    }
    Ok(opencode_plugin_source(notify))
}

/// The text to write so that the plugin is installed.
pub fn install_opencode_plugin(
    notify: &str,
    notify_available: bool,
    path: Option<&str>,
    file: &HookFile,
) -> (r: Result<String, String>)
    ensures
        document::outcome(r) == installation(
            notify@,
            notify_available,
            document::maybe_text(path),
            file.view(),
        ),
        r matches Ok(written) ==> is_managed(written@) && written@ == plugin_source(notify@),
{
    if !notify_available {
        return Err(missing_notify_message(notify));
    }
    match path {
        None => Err("无 home/config 目录".to_owned()),
        Some(place) => install_opencode_plugin_at(place, file, notify),
    }
}

/// Whether removing the plugin removes the file. It does where Smelt manages what it holds.
pub fn uninstall_opencode_plugin(path: Option<&str>, file: &HookFile) -> (r: bool)
    ensures
        r == (path is Some && (file.view() matches HookFileView::Text(source) && is_managed(
            source,
        ))),
{
    match path {
        None => false,
        Some(_) => match file {
            HookFile::Text(source) => starts_with(source.as_str(), OPENCODE_PLUGIN_MARKER),
            _ => false,
        },
    }
}

} // verus!
