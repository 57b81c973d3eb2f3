//! What the forms for models offer, and what they say where they cannot offer anything.

use vstd::prelude::*;

use crate::text;
use crate::text::{chars_of, concat, decimal_text, same_text};

verus! {

/// One of several things to choose from.
#[derive(Debug, PartialEq, Eq)]
pub struct Choice {
    pub id: String,
    pub label: String,
}

/// A button for one of several things to choose from. One that is marked is chosen already.
#[derive(Debug, PartialEq, Eq)]
pub struct ChoiceButton {
    pub id: String,
    pub label: String,
    pub marked: bool,
}

/// A button, as characters.
pub struct ButtonView {
    pub id: Seq<char>,
    pub label: Seq<char>,
    pub marked: bool,
}

impl ChoiceButton {
    pub open spec fn view(&self) -> ButtonView {
        ButtonView { id: self.id@, label: self.label@, marked: self.marked }
    }
}

/// What a part of a form shows: buttons, and a note. An alarming note asks for attention.
#[derive(Debug, PartialEq, Eq)]
pub struct ChoiceSection {
    pub buttons: Vec<ChoiceButton>,
    pub note: Option<String>,
    pub alarming: bool,
}

/// What a part of a form shows, as characters.
pub struct SectionView {
    pub buttons: Seq<ButtonView>,
    pub note: Option<Seq<char>>,
    pub alarming: bool,
}

/// Buttons, as characters.
pub open spec fn button_views(buttons: Seq<ChoiceButton>) -> Seq<ButtonView> {
    buttons.map_values(|button: ChoiceButton| button.view())
}

impl ChoiceSection {
    pub open spec fn view(&self) -> SectionView {
        SectionView {
            buttons: button_views(self.buttons@),
            note: match self.note {
                Some(note) => Some(note@),
                None => None,
            },
            alarming: self.alarming,
        }
    }
}

/// A part of a form that only says something.
pub open spec fn saying(note: Seq<char>, alarming: bool) -> SectionView {
    SectionView { buttons: seq![], note: Some(note), alarming }
}

fn say(note: String, alarming: bool) -> (r: ChoiceSection)
    ensures
        r.view() == saying(note@, alarming),
{
    let r: ChoiceSection = ChoiceSection { buttons: Vec::new(), note: Some(note), alarming };
    assert(r.view().buttons =~= seq![]);
    r
}

/// The button for a choice, with a tick where it is marked.
pub open spec fn button(id: Seq<char>, label: Seq<char>, marked: bool) -> ButtonView {
    ButtonView {
        id,
        label: if marked {
            "✓ "@ + label
        } else {
            label
        },
        marked,
    }
}

fn push_button(buttons: &mut Vec<ChoiceButton>, id: &str, label: &str, marked: bool)
    ensures
        button_views(final(buttons)@) == button_views(old(buttons)@).push(
            button(id@, label@, marked),
        ),
{
    let shown: String = if marked {
        concat("✓ ", label)
    } else {
        label.to_owned()
    };
    buttons.push(ChoiceButton { id: id.to_owned(), label: shown, marked });
    assert(button_views(buttons@) =~= button_views(old(buttons)@).push(
        button(id@, label@, marked),
    ));
}

/// One of the choices has the id.
pub open spec fn offers(choices: Seq<Choice>, id: Seq<char>) -> bool {
    exists|i: int| 0 <= i < choices.len() && (#[trigger] choices[i]).id@ == id
}

fn is_offered(choices: &Vec<Choice>, id: &str) -> (r: bool)
    ensures
        r == offers(choices@, id@),
{
    let mut i: usize = 0;
    while i < choices.len()
        invariant
            i <= choices.len(),
            forall|k: int| 0 <= k < i ==> (#[trigger] choices@[k]).id@ != id@,
        decreases choices.len() - i,
    {
        if same_text(choices[i].id.as_str(), id) {
            assert(choices@[i as int].id@ == id@);
            return true;
        }
        i = i + 1;
    }
    false
}

/// What is known of how hard a model can be made to think.
#[derive(Debug, PartialEq, Eq)]
pub enum DshEffortView {
    Loading,
    /// The model cannot be made to think harder.
    Unavailable,
    /// It could not be learned.
    Unknown(String),
    Choices { efforts: Vec<Choice>, default_effort: Option<String> },
}

/// What an effort is called. The default says so.
pub open spec fn effort_label(effort: Choice, default_effort: Option<String>) -> Seq<char> {
    if default_effort matches Some(id) && id@ == effort.id@ {
        effort.label@ + "（默认）"@
    } else {
        effort.label@
    }
}

/// The buttons for efforts.
pub open spec fn effort_buttons(
    efforts: Seq<Choice>,
    default_effort: Option<String>,
    current: Seq<char>,
) -> Seq<ButtonView> {
    Seq::new(
        efforts.len(),
        |i: int|
            button(
                efforts[i].id@,
                effort_label(efforts[i], default_effort),
                current == efforts[i].id@,
            ),
    )
}

/// What the form shows of efforts. What was saved and is no longer offered is still sent, so
/// that is said.
pub open spec fn effort_section(view: DshEffortView, current: Seq<char>) -> SectionView {
    match view {
        DshEffortView::Loading => saying("正在读取该模型支持的档位…"@, false),
        DshEffortView::Unavailable => saying("当前模型没有可调的推理强度，将使用助手默认值。"@, false),
        DshEffortView::Unknown(error) => saying(
            "未能读取该模型支持的档位（"@ + error@ + "）；保持现有设置不变。"@,
            false,
        ),
        DshEffortView::Choices { efforts, default_effort } => if current.len() > 0 && !offers(
            efforts@,
            current,
        ) {
            SectionView {
                buttons: effort_buttons(efforts@, default_effort, current),
                note: Some("已保存的「"@ + current + "」不在该模型支持的档位内，请重新选择。"@),
                alarming: true,
            }
        } else {
            SectionView {
                buttons: effort_buttons(efforts@, default_effort, current),
                note: None,
                alarming: false,
            }
        },
    }
}

/// What the form shows of efforts.
pub fn render_dsh_effort_section(view: &DshEffortView, current: &str) -> (r: ChoiceSection)
    ensures
        r.view() == effort_section(*view, current@),
{
    match view {
        DshEffortView::Loading => say("正在读取该模型支持的档位…".to_owned(), false),
        DshEffortView::Unavailable => say(
            "当前模型没有可调的推理强度，将使用助手默认值。".to_owned(),
            false,
        ),
        DshEffortView::Unknown(error) => {
            let mut note: String = concat("未能读取该模型支持的档位（", error.as_str());
            note.append("）；保持现有设置不变。");
            say(note, false)
        },
        DshEffortView::Choices { efforts, default_effort } => {
            let mut buttons: Vec<ChoiceButton> = Vec::new();
            let ghost all = effort_buttons(efforts@, *default_effort, current@);
            let mut i: usize = 0;
            assert(button_views(buttons@) =~= all.take(0));
            while i < efforts.len()
                invariant
                    i <= efforts.len(),
                    all == effort_buttons(efforts@, *default_effort, current@),
                    button_views(buttons@) == all.take(i as int),
                decreases efforts.len() - i,
            {
                let effort: &Choice = &efforts[i];
                let is_default: bool = match default_effort {
                    Some(id) => same_text(id.as_str(), effort.id.as_str()),
                    None => false,
                };
                let label: String = if is_default {
                    concat(effort.label.as_str(), "（默认）")
                } else {
                    effort.label.clone()
                };
                push_button(
                    &mut buttons,
                    effort.id.as_str(),
                    label.as_str(),
                    same_text(current, effort.id.as_str()),
                );
                i = i + 1;
                assert(button_views(buttons@) =~= all.take(i as int));
            }
            assert(all.take(i as int) =~= all);
            if chars_of(current).len() > 0 && !is_offered(efforts, current) {
                let mut note: String = concat("已保存的「", current);
                note.append("」不在该模型支持的档位内，请重新选择。");
                ChoiceSection { buttons, note: Some(note), alarming: true }
            } else {
                ChoiceSection { buttons, note: None, alarming: false }
            }
        },
    }
}

/// What is known of the models that can be chosen.
#[derive(Debug, PartialEq, Eq)]
pub enum DshModelChoicesView {
    Loading,
    /// There are none.
    Unavailable,
    /// It could not be learned.
    Unknown(String),
    Choices(Vec<Choice>),
}

/// The buttons for models, marked where they are chosen.
pub open spec fn model_buttons(models: Seq<Choice>, current: Seq<char>) -> Seq<ButtonView> {
    Seq::new(
        models.len(),
        |i: int| button(models[i].id@, models[i].label@, current == models[i].id@),
    )
}

/// What the form shows of models that can be chosen.
pub open spec fn model_section(view: DshModelChoicesView, current: Seq<char>) -> SectionView {
    match view {
        DshModelChoicesView::Loading => saying("正在读取助手正在提供的模型…"@, false),
        DshModelChoicesView::Unavailable => saying(
            "助手当前没有提供可选模型，请直接填写模型 ID。"@,
            false,
        ),
        DshModelChoicesView::Unknown(error) => saying(
            "未能读取可选模型（"@ + error@ + "）；请直接填写模型 ID。"@,
            false,
        ),
        DshModelChoicesView::Choices(models) => SectionView {
            buttons: model_buttons(models@, current),
            note: Some("点击填入上方「默认模型」，仍需按「保存」生效。"@),
            alarming: false,
        },
    }
}

/// What the form shows of models that can be chosen.
pub fn render_dsh_model_choices_section(view: &DshModelChoicesView, current: &str) -> (r:
    ChoiceSection)
    ensures
        r.view() == model_section(*view, current@),
{
    match view {
        DshModelChoicesView::Loading => say("正在读取助手正在提供的模型…".to_owned(), false),
        DshModelChoicesView::Unavailable => say(
            "助手当前没有提供可选模型，请直接填写模型 ID。".to_owned(),
            false,
        ),
        DshModelChoicesView::Unknown(error) => {
            let mut note: String = concat("未能读取可选模型（", error.as_str());
            note.append("）；请直接填写模型 ID。");
            say(note, false)
        },
        DshModelChoicesView::Choices(models) => {
            let mut buttons: Vec<ChoiceButton> = Vec::new();
            let ghost all = model_buttons(models@, current@);
            let mut i: usize = 0;
            assert(button_views(buttons@) =~= all.take(0));
            while i < models.len()
                invariant
                    i <= models.len(),
                    all == model_buttons(models@, current@),
                    button_views(buttons@) == all.take(i as int),
                decreases models.len() - i,
            {
                push_button(
                    &mut buttons,
                    models[i].id.as_str(),
                    models[i].label.as_str(),
                    same_text(current, models[i].id.as_str()),
                );
                i = i + 1;
                assert(button_views(buttons@) =~= all.take(i as int));
            }
            assert(all.take(i as int) =~= all);
            ChoiceSection {
                buttons,
                note: Some("点击填入上方「默认模型」，仍需按「保存」生效。".to_owned()),
                alarming: false,
            }
        },
    }
}

/// What is known of the models that an endpoint offers.
#[derive(Debug, PartialEq, Eq)]
pub enum ModelDiscoveryState {
    Loading,
    Ready(Vec<Choice>),
    Failed(String),
}

/// The id is among those that were taken over.
pub open spec fn is_adopted(adopted: Seq<String>, id: Seq<char>) -> bool {
    text::texts(adopted).contains(id)
}

/// The buttons for models of an endpoint, marked where they were taken over.
pub open spec fn discovered_buttons(models: Seq<Choice>, adopted: Seq<String>) -> Seq<ButtonView> {
    Seq::new(
        models.len(),
        |i: int| button(models[i].id@, models[i].label@, is_adopted(adopted, models[i].id@)),
    )
}

/// What the form shows of the models that an endpoint offers.
pub open spec fn discovery_section(
    state: Option<ModelDiscoveryState>,
    adopted: Seq<String>,
    manual_rows: nat,
) -> SectionView {
    match state {
        None => if manual_rows == 0 {
            saying(
                "未列出任何模型：保存时将从 API 地址自动获取，并在每次启动时刷新。想自己固定一份目录，就在上面添加模型。"@,
                false,
            )
        } else {
            saying("可以点「获取模型列表」从 API 地址读取该服务提供的模型，不必逐个手填。"@, false)
        },
        Some(ModelDiscoveryState::Loading) => saying("正在向该端点询问可用模型…"@, false),
        Some(ModelDiscoveryState::Failed(error)) => saying(
            "未能读取模型列表："@ + error@ + "（仍可在下方手动填写）"@,
            true,
        ),
        Some(ModelDiscoveryState::Ready(models)) => if models@.len() == 0 {
            saying("该端点没有报告任何模型，请在下方手动填写。"@, false)
        } else {
            SectionView {
                buttons: discovered_buttons(models@, adopted),
                note: Some(
                    "该端点提供 "@ + text::decimal(models@.len()) + " 个模型，点击添加到下方列表："@,
                ),
                alarming: false,
            }
        },
    }
}

fn was_adopted(adopted: &Vec<String>, id: &str) -> (r: bool)
    ensures
        r == is_adopted(adopted@, id@),
{
    let ghost all = text::texts(adopted@);
    let mut i: usize = 0;
    while i < adopted.len()
        invariant
            all == text::texts(adopted@),
            i <= adopted.len(),
            forall|k: int| 0 <= k < i ==> #[trigger] all[k] != id@,
        decreases adopted.len() - i,
    {
        if same_text(adopted[i].as_str(), id) {
            assert(all[i as int] == id@);
            return true;
        }
        i = i + 1;
    }
    false
}

/// What the form shows of the models that an endpoint offers. Those that were taken over already
/// cannot be taken again.
pub fn render_model_discovery_section(
    state: &Option<ModelDiscoveryState>,
    adopted: &Vec<String>,
    manual_rows: usize,
) -> (r: ChoiceSection)
    ensures
        r.view() == discovery_section(*state, adopted@, manual_rows as nat),
{
    match state {
        None => if manual_rows == 0 {
            say(
                "未列出任何模型：保存时将从 API 地址自动获取，并在每次启动时刷新。想自己固定一份目录，就在上面添加模型。".to_owned(),
                false,
            )
        } else {
            say(
                "可以点「获取模型列表」从 API 地址读取该服务提供的模型，不必逐个手填。".to_owned(),
                false,
            )
        },
        Some(ModelDiscoveryState::Loading) => say("正在向该端点询问可用模型…".to_owned(), false),
        Some(ModelDiscoveryState::Failed(error)) => {
            let mut note: String = concat("未能读取模型列表：", error.as_str());
            note.append("（仍可在下方手动填写）");
            say(note, true)
        },
        Some(ModelDiscoveryState::Ready(models)) => {
            if models.len() == 0 {
                return say("该端点没有报告任何模型，请在下方手动填写。".to_owned(), false);
            }
            let mut buttons: Vec<ChoiceButton> = Vec::new();
            let ghost all = discovered_buttons(models@, adopted@);
            let mut i: usize = 0;
            assert(button_views(buttons@) =~= all.take(0));
            while i < models.len()
                invariant
                    i <= models.len(),
                    all == discovered_buttons(models@, adopted@),
                    button_views(buttons@) == all.take(i as int),
                decreases models.len() - i,
            {
                push_button(
                    &mut buttons,
                    models[i].id.as_str(),
                    models[i].label.as_str(),
                    was_adopted(adopted, models[i].id.as_str()),
                );
                i = i + 1;
                assert(button_views(buttons@) =~= all.take(i as int));
            }
            assert(all.take(i as int) =~= all);
            let mut note: String = concat("该端点提供 ", decimal_text(models.len() as u64).as_str());
            note.append(" 个模型，点击添加到下方列表：");
            ChoiceSection { buttons, note: Some(note), alarming: false }
        },
    }
}

/// Nothing is offered that is not known to be there: without an answer there are no buttons, and
/// the form says why.
pub proof fn nothing_is_made_up(view: DshEffortView, current: Seq<char>)
    requires
        !(view is Choices),
    ensures
        effort_section(view, current).buttons.len() == 0,
        effort_section(view, current).note is Some,
{
}

/// A setting that a model does not offer never goes unnoticed: a button is marked, or the form
/// asks for attention.
pub proof fn stale_efforts_are_called_out(
    efforts: Vec<Choice>,
    default_effort: Option<String>,
    current: Seq<char>,
)
    requires
        current.len() > 0,
    ensures
        ({
            let section = effort_section(
                DshEffortView::Choices { efforts, default_effort },
                current,
            );
            section.alarming || exists|i: int|
                0 <= i < section.buttons.len() && (#[trigger] section.buttons[i]).marked
        }),
{
    let section = effort_section(DshEffortView::Choices { efforts, default_effort }, current);
    if offers(efforts@, current) {
        let i = choose|i: int| 0 <= i < efforts@.len() && (#[trigger] efforts@[i]).id@ == current;
        assert(section.buttons[i].marked);
    }
}

} // verus!
