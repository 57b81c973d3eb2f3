//! What the pages for models, names and notifications promise.

use vstd::prelude::*;

use crate::settings::models;
use crate::settings::models::{
    render_dsh_effort_section, render_dsh_model_choices_section, render_model_discovery_section,
    Choice, ChoiceSection, DshEffortView, DshModelChoicesView, ModelDiscoveryState,
};
use crate::settings::naming;
use crate::settings::notifications::{notifies, AgentUiConfig, NotificationKind};
use crate::settings::pi_auth::Workspace;
use crate::text;

verus! {

/// The button at a place is for the choice, and checked where it is marked.
pub open spec fn has_button(
    section: ChoiceSection,
    at: int,
    id: Seq<char>,
    label: Seq<char>,
    marked: bool,
) -> bool {
    &&& 0 <= at < section.buttons@.len()
    &&& section.buttons@[at].id@ == id
    &&& section.buttons@[at].marked == marked
    &&& section.buttons@[at].label@ == if marked {
        "✓ "@ + label
    } else {
        label
    }
}

/// The section says this and offers nothing.
pub open spec fn only_says(section: ChoiceSection, note: Seq<char>, alarming: bool) -> bool {
    section.buttons@.len() == 0 && section.note is Some && (section.note->0)@ == note
        && section.alarming == alarming
}

/// Every effort is offered, in order, the one in force checked and the default one called so; one
/// in force that is not offered is called out, and nothing else is.
pub proof fn efforts_are_offered(
    efforts: Vec<Choice>,
    default_effort: Option<String>,
    current: &str,
    r: ChoiceSection,
    i: int,
)
    requires
        call_ensures(
            render_dsh_effort_section,
            (&DshEffortView::Choices { efforts, default_effort }, current),
            r,
        ),
    ensures
        r.buttons@.len() == efforts@.len(),
        0 <= i < efforts@.len() ==> has_button(
            r,
            i,
            efforts@[i].id@,
            if default_effort is Some && (default_effort->0)@ == efforts@[i].id@ {
                efforts@[i].label@ + "（默认）"@
            } else {
                efforts@[i].label@
            },
            efforts@[i].id@ == current@,
        ),
        r.alarming <==> r.note is Some,
        0 <= i < efforts@.len() && efforts@[i].id@ == current@ ==> r.note is None,
        current@.len() == 0 ==> r.note is None,
        current@.len() > 0 && (forall|k: int|
            0 <= k < efforts@.len() ==> (#[trigger] efforts@[k]).id@ != current@) ==> r.note is Some
            && (r.note->0)@ == "已保存的「"@ + current@
            + "」不在该模型支持的档位内，请重新选择。"@,
{
    let out = models::button_views(r.buttons@);
    assert(r.view().buttons == out);
    assert(out.len() == r.buttons@.len());
    if 0 <= i < efforts@.len() {
        assert(out[i] == r.buttons@[i].view());
        if efforts@[i].id@ == current@ {
            assert(models::offers(efforts@, current@));
        }
    }
}

/// What is not known about efforts is said, and nothing is offered.
pub proof fn unknown_efforts_are_not_offered(
    view: &DshEffortView,
    current: &str,
    r: ChoiceSection,
)
    requires
        call_ensures(render_dsh_effort_section, (view, current), r),
    ensures
        view is Loading ==> only_says(r, "正在读取该模型支持的档位…"@, false),
        view is Unavailable ==> only_says(
            r,
            "当前模型没有可调的推理强度，将使用助手默认值。"@,
            false,
        ),
        *view matches DshEffortView::Unknown(error) ==> only_says(
            r,
            "未能读取该模型支持的档位（"@ + error@ + "）；保持现有设置不变。"@,
            false,
        ),
{
    let out = models::button_views(r.buttons@);
    assert(r.view().buttons == out);
    assert(out.len() == r.buttons@.len());
}

/// Every model is offered, in order, and the one in force is checked; what is not known is said.
pub proof fn models_are_offered(
    view: &DshModelChoicesView,
    current: &str,
    r: ChoiceSection,
    i: int,
)
    requires
        call_ensures(render_dsh_model_choices_section, (view, current), r),
    ensures
        !r.alarming,
        view is Loading ==> only_says(r, "正在读取助手正在提供的模型…"@, false),
        view is Unavailable ==> only_says(
            r,
            "助手当前没有提供可选模型，请直接填写模型 ID。"@,
            false,
        ),
        *view matches DshModelChoicesView::Unknown(error) ==> only_says(
            r,
            "未能读取可选模型（"@ + error@ + "）；请直接填写模型 ID。"@,
            false,
        ),
        *view matches DshModelChoicesView::Choices(models) ==> {
            &&& r.buttons@.len() == models@.len()
            &&& r.note is Some && (r.note->0)@
                == "点击填入上方「默认模型」，仍需按「保存」生效。"@
            &&& 0 <= i < models@.len() ==> has_button(
                r,
                i,
                models@[i].id@,
                models@[i].label@,
                models@[i].id@ == current@,
            )
        },
{
    let out = models::button_views(r.buttons@);
    assert(r.view().buttons == out);
    assert(out.len() == r.buttons@.len());
    if 0 <= i < r.buttons@.len() {
        assert(out[i] == r.buttons@[i].view());
    }
}

/// Every model that was found is offered, counted, and checked where it was taken over; a failure
/// alarms, and says why.
pub proof fn found_models_are_offered(
    state: &Option<ModelDiscoveryState>,
    adopted: &Vec<String>,
    manual_rows: usize,
    r: ChoiceSection,
    i: int,
)
    requires
        call_ensures(render_model_discovery_section, (state, adopted, manual_rows), r),
    ensures
        r.alarming <==> (*state matches Some(found) && found is Failed),
        *state matches Some(ModelDiscoveryState::Failed(error)) ==> only_says(
            r,
            "未能读取模型列表："@ + error@ + "（仍可在下方手动填写）"@,
            true,
        ),
        *state matches Some(ModelDiscoveryState::Loading) ==> only_says(
            r,
            "正在向该端点询问可用模型…"@,
            false,
        ),
        state is None && manual_rows > 0 ==> only_says(
            r,
            "可以点「获取模型列表」从 API 地址读取该服务提供的模型，不必逐个手填。"@,
            false,
        ),
        state is None && manual_rows == 0 ==> only_says(
            r,
            "未列出任何模型：保存时将从 API 地址自动获取，并在每次启动时刷新。想自己固定一份目录，就在上面添加模型。"@,
            false,
        ),
        *state matches Some(ModelDiscoveryState::Ready(models)) ==> {
            &&& models@.len() == 0 ==> only_says(
                r,
                "该端点没有报告任何模型，请在下方手动填写。"@,
                false,
            )
            &&& r.buttons@.len() == models@.len()
            &&& models@.len() > 0 ==> r.note is Some && (r.note->0)@ == "该端点提供 "@
                + text::decimal(models@.len()) + " 个模型，点击添加到下方列表："@
            &&& 0 <= i < models@.len() ==> has_button(
                r,
                i,
                models@[i].id@,
                models@[i].label@,
                exists|k: int| 0 <= k < adopted@.len() && (#[trigger] adopted@[k])@ == models@[i].id@,
            )
        },
{
    let out = models::button_views(r.buttons@);
    assert(r.view().buttons == out);
    assert(out.len() == r.buttons@.len());
    if 0 <= i < r.buttons@.len() {
        assert(out[i] == r.buttons@[i].view());
        match *state {
            Some(ModelDiscoveryState::Ready(found)) => {
                let id = found@[i].id@;
                let all = text::texts(adopted@);
                if all.contains(id) {
                    let k = choose|k: int| 0 <= k < all.len() && all[k] == id;
                    assert(adopted@[k]@ == id);
                }
                if exists|k: int| 0 <= k < adopted@.len() && (#[trigger] adopted@[k])@ == id {
                    let k = choose|k: int| 0 <= k < adopted@.len() && (#[trigger] adopted@[k])@
                        == id;
                    assert(all[k] == id);
                }
            },
            _ => {},
        }
    }
}

proof fn lemma_range_start(spec: Seq<char>, from: int)
    requires
        0 <= from <= spec.len(),
    ensures
        from <= naming::range_start(spec, from) <= spec.len(),
        naming::range_start(spec, from) < spec.len() ==> spec[naming::range_start(spec, from)]
            == '@',
        forall|i: int| from <= i < naming::range_start(spec, from) ==> #[trigger] spec[i] != '@',
    decreases spec.len() - from,
{
    if from < spec.len() && spec[from] != '@' {
        lemma_range_start(spec, from + 1);
    }
}

/// The name of a package is what stands before its version: up to the first at sign behind its
/// first letter.
pub proof fn packages_are_named_without_version(spec: &str, r: String, at: int)
    requires
        call_ensures(Workspace::plugin_name_of, (spec,), r),
    ensures
        r@.len() <= spec@.len() && r@ == spec@.subrange(0, r@.len() as int),
        r@.len() < spec@.len() ==> spec@[r@.len() as int] == '@',
        spec@.len() > 0 ==> r@.len() > 0,
        1 <= at < r@.len() ==> r@[at] != '@',
{
    if spec@.len() > 0 {
        lemma_range_start(spec@, 1);
        assert(r@ =~= spec@.subrange(0, r@.len() as int));
    } else {
        assert(r@ =~= spec@.subrange(0, r@.len() as int));
    }
}

/// A credential has the name that was configured; else, where a key is needed, one made of the
/// capital letters and digits of its provider, with lines for all else; else none.
pub proof fn credentials_are_named_after_their_provider(
    configured: &str,
    id: &str,
    keyed: bool,
    r: String,
    i: int,
)
    requires
        call_ensures(Workspace::custom_provider_credential_ref, (configured, id, keyed), r),
    ensures
        configured@.len() > 0 ==> r@ == configured@,
        configured@.len() == 0 && !keyed ==> r@.len() == 0,
        configured@.len() == 0 && keyed ==> r@.len() == id@.len() + 8 && r@.skip(
            id@.len() as int,
        ) == "_API_KEY"@,
        configured@.len() == 0 && keyed && 0 <= i < id@.len() ==> if 'A' <= id@[i] <= 'Z' || '0'
            <= id@[i] <= '9' {
            r@[i] == id@[i]
        } else if 'a' <= id@[i] <= 'z' {
            r@[i] as int + 32 == id@[i] as int
        } else {
            r@[i] == '_'
        },
{
    reveal_strlit("_API_KEY");
    if configured@.len() == 0 && keyed {
        assert(r@.skip(id@.len() as int) =~= "_API_KEY"@);
    }
}

/// Each kind of notification has a switch of its own, and comes where that is on; without
/// settings all come.
pub proof fn notifications_have_their_switches(
    config: &AgentUiConfig,
    kind: NotificationKind,
    told: bool,
    fresh: bool,
)
    requires
        call_ensures(notifies, (Some(config), kind), told),
        call_ensures(notifies, (None, kind), fresh),
    ensures
        fresh,
        kind is Approval ==> told == config.notify_approval,
        kind is Input ==> told == config.notify_input,
        kind is Success ==> told == config.notify_success,
        kind is Failure ==> told == config.notify_failure,
        kind is TerminalBell ==> told == config.notify_terminal_bell,
{
}

/// A switch turns its own notifications on or off, and nothing else.
pub proof fn switches_turn_one_notification(
    config: &mut AgentUiConfig,
    kind: NotificationKind,
    on: bool,
    hooks: &mut AgentUiConfig,
    install: bool,
)
    requires
        call_ensures(AgentUiConfig::set_notify, (config, kind, on), ()),
        call_ensures(AgentUiConfig::hooks_requested, (hooks, install), ()),
    ensures
        final(config).notify_approval == if kind is Approval {
            on
        } else {
            old(config).notify_approval
        },
        final(config).notify_input == if kind is Input {
            on
        } else {
            old(config).notify_input
        },
        final(config).notify_success == if kind is Success {
            on
        } else {
            old(config).notify_success
        },
        final(config).notify_failure == if kind is Failure {
            on
        } else {
            old(config).notify_failure
        },
        final(config).notify_terminal_bell == if kind is TerminalBell {
            on
        } else {
            old(config).notify_terminal_bell
        },
        final(config).agent_hooks_enabled == old(config).agent_hooks_enabled,
        final(hooks).agent_hooks_enabled == install,
        final(hooks).notify_approval == old(hooks).notify_approval,
        final(hooks).notify_input == old(hooks).notify_input,
        final(hooks).notify_success == old(hooks).notify_success,
        final(hooks).notify_failure == old(hooks).notify_failure,
        final(hooks).notify_terminal_bell == old(hooks).notify_terminal_bell,
{
}

} // verus!
