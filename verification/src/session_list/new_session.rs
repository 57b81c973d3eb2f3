//! The menu behind the plus beside a project: what can be started in it.

use vstd::prelude::*;

use crate::session_list::conversation;
use crate::session_list::conversation::{conversation_launch, AgentHost, ConversationLaunch};
use crate::session_list::row;
use crate::session_list::row::{acp_provider_icon, provider_icon, RowIcon};
use crate::settings::launch;
use crate::settings::launch::{
    agent_from_command_prefix, agent_from_id, AgentView, EntryView, LaunchEntry, TerminalAgent,
};
use crate::text;
use crate::text::{concat, same_text};

verus! {

/// What an entry of the menu starts.
#[derive(Debug, PartialEq, Eq)]
pub enum NewSessionTarget {
    Conversation { agent_option_id: String, agent_kind: String },
    Terminal { command: String, provider: Option<String> },
    BlankTerminal,
}

/// Whether an entry of the menu starts a terminal or a conversation.
#[derive(Clone, Copy, Debug, PartialEq, Eq, Structural)]
pub enum NewSessionKind {
    Terminal,
    Conversation,
}

/// The kind of an entry in words.
pub open spec fn kind_text(kind: NewSessionKind) -> Seq<char> {
    match kind {
        NewSessionKind::Terminal => "终端"@,
        NewSessionKind::Conversation => "对话"@,
    }
}

impl NewSessionKind {
    /// The kind of an entry in words.
    pub fn label(self) -> (r: &'static str)
        ensures
            r@ == kind_text(self),
    {
        match self {
            NewSessionKind::Terminal => "终端",
            NewSessionKind::Conversation => "对话",
        }
    }
}

/// An entry of the menu.
#[derive(Debug, PartialEq, Eq)]
pub struct NewSessionAction {
    pub key: String,
    pub label: String,
    pub kind: NewSessionKind,
    pub target: NewSessionTarget,
    pub pinned: bool,
}

/// What an entry of the menu starts, as characters.
pub enum TargetView {
    Conversation { agent_option_id: Seq<char>, agent_kind: Seq<char> },
    Terminal { command: Seq<char>, provider: Option<Seq<char>> },
    BlankTerminal,
}

/// An entry of the menu, as characters.
pub struct ActionView {
    pub key: Seq<char>,
    pub label: Seq<char>,
    pub kind: NewSessionKind,
    pub target: TargetView,
    pub pinned: bool,
}

impl NewSessionTarget {
    /// What an entry starts, as characters.
    pub open spec fn view(&self) -> TargetView {
        match *self {
            NewSessionTarget::Conversation { agent_option_id, agent_kind } => {
                TargetView::Conversation {
                    agent_option_id: agent_option_id@,
                    agent_kind: agent_kind@,
                }
            },
            NewSessionTarget::Terminal { command, provider } => TargetView::Terminal {
                command: command@,
                provider: match provider {
                    Some(id) => Some(id@),
                    None => None,
                },
            },
            NewSessionTarget::BlankTerminal => TargetView::BlankTerminal,
        }
    }
}

impl NewSessionAction {
    /// The entry, as characters.
    pub open spec fn view(&self) -> ActionView {
        ActionView {
            key: self.key@,
            label: self.label@,
            kind: self.kind,
            target: self.target.view(),
            pinned: self.pinned,
        }
    }
}

/// Entries, as characters.
pub open spec fn action_views(actions: Seq<NewSessionAction>) -> Seq<ActionView> {
    actions.map_values(|action: NewSessionAction| action.view())
}

/// The entries of sections, as characters.
pub open spec fn section_views(sections: Seq<Vec<NewSessionAction>>) -> Seq<Seq<ActionView>> {
    sections.map_values(|section: Vec<NewSessionAction>| action_views(section@))
}

fn same_target(a: &NewSessionTarget, b: &NewSessionTarget) -> (r: bool)
    ensures
        r == (a.view() == b.view()),
{
    match (a, b) {
        (
            NewSessionTarget::Conversation { agent_option_id, agent_kind },
            NewSessionTarget::Conversation {
                agent_option_id: other_option,
                agent_kind: other_kind,
            },
        ) => same_text(agent_option_id.as_str(), other_option.as_str()) && same_text(
            agent_kind.as_str(),
            other_kind.as_str(),
        ),
        (
            NewSessionTarget::Terminal { command, provider },
            NewSessionTarget::Terminal { command: other_command, provider: other_provider },
        ) => same_text(command.as_str(), other_command.as_str()) && match (
            provider,
            other_provider,
        ) {
            (Some(id), Some(other)) => same_text(id.as_str(), other.as_str()),
            (None, None) => true,
            _ => false,
        },
        (NewSessionTarget::BlankTerminal, NewSessionTarget::BlankTerminal) => true,
        _ => false,
    }
}

fn same_actions(a: &Vec<NewSessionAction>, b: &Vec<NewSessionAction>) -> (r: bool)
    ensures
        r == (action_views(a@) == action_views(b@)),
{
    let ghost one = action_views(a@);
    let ghost two = action_views(b@);
    if a.len() != b.len() {
        assert(one.len() != two.len());
        return false;
    }
    let mut i: usize = 0;
    while i < a.len()
        invariant
            a@.len() == b@.len(),
            one == action_views(a@),
            two == action_views(b@),
            i <= a.len(),
            forall|k: int| 0 <= k < i ==> #[trigger] one[k] == two[k],
        decreases a.len() - i,
    {
        let same: bool = same_text(a[i].key.as_str(), b[i].key.as_str()) && same_text(
            a[i].label.as_str(),
            b[i].label.as_str(),
        ) && a[i].kind == b[i].kind && same_target(&a[i].target, &b[i].target) && a[i].pinned
            == b[i].pinned;
        if !same {
            assert(one[i as int] != two[i as int]);
            return false;
        }
        i = i + 1;
    }
    assert(one =~= two);
    true
}

fn same_sections(a: &Vec<Vec<NewSessionAction>>, b: &Vec<Vec<NewSessionAction>>) -> (r: bool)
    ensures
        r == (section_views(a@) == section_views(b@)),
{
    let ghost one = section_views(a@);
    let ghost two = section_views(b@);
    if a.len() != b.len() {
        assert(one.len() != two.len());
        return false;
    }
    let mut i: usize = 0;
    while i < a.len()
        invariant
            a@.len() == b@.len(),
            one == section_views(a@),
            two == section_views(b@),
            i <= a.len(),
            forall|k: int| 0 <= k < i ==> #[trigger] one[k] == two[k],
        decreases a.len() - i,
    {
        if !same_actions(&a[i], &b[i]) {
            assert(one[i as int] != two[i as int]);
            return false;
        }
        assert(one[i as int] == two[i as int]);
        i = i + 1;
    }
    assert(one =~= two);
    true
}

/// The place of an entry: its section, and its row in the section.
#[derive(Clone, Copy, Debug, PartialEq, Eq, Structural)]
pub struct IndexPath {
    pub section: usize,
    pub row: usize,
}

/// The menu: what can be started, its sections, and the entry that is selected.
#[derive(Debug, PartialEq, Eq)]
pub struct NewSessionPickerState {
    pub cwd: Option<String>,
    pub source_actions: Vec<NewSessionAction>,
    pub sections: Vec<Vec<NewSessionAction>>,
    pub selected_index: Option<IndexPath>,
}

/// An entry stands at the place.
pub open spec fn is_place(sections: Seq<Vec<NewSessionAction>>, at: IndexPath) -> bool {
    at.section < sections.len() && at.row < sections[at.section as int]@.len()
}

/// The places of the entries of one section.
pub open spec fn section_places(section: usize, rows: nat) -> Seq<IndexPath> {
    Seq::new(rows, |row: int| IndexPath { section, row: row as usize })
}

/// The places of all entries, in the order in which they stand below each other.
pub open spec fn places(sections: Seq<Vec<NewSessionAction>>) -> Seq<IndexPath>
    decreases sections.len(),
{
    if sections.len() == 0 {
        seq![]
    } else {
        places(sections.drop_last()) + section_places(
            (sections.len() - 1) as usize,
            sections.last()@.len(),
        )
    }
}

/// The position of a place among the places, the first one where it occurs.
pub open spec fn position(all: Seq<IndexPath>, at: IndexPath, from: int) -> Option<int>
    decreases all.len() - from,
{
    if from >= all.len() {
        None
    } else if all[from] == at {
        Some(from)
    } else {
        position(all, at, from + 1)
    }
}

/// The position of the selection among the places.
pub open spec fn selected_position(all: Seq<IndexPath>, selected: Option<IndexPath>) -> Option<
    int,
> {
    match selected {
        Some(at) => position(all, at, 0),
        None => None,
    }
}

/// The selection one further down. Behind the last entry comes the first; without a selection
/// the first is taken.
pub open spec fn next(all: Seq<IndexPath>, selected: Option<IndexPath>) -> Option<IndexPath> {
    if all.len() == 0 {
        None
    } else {
        match selected_position(all, selected) {
            Some(at) => Some(all[if at + 1 < all.len() {
                at + 1
            } else {
                0
            }]),
            None => Some(all[0]),
        }
    }
}

/// The selection one further up. In front of the first entry comes the last; without a selection
/// the first is taken.
pub open spec fn previous(all: Seq<IndexPath>, selected: Option<IndexPath>) -> Option<IndexPath> {
    if all.len() == 0 {
        None
    } else {
        match selected_position(all, selected) {
            Some(at) => Some(all[if at > 0 {
                at - 1
            } else {
                all.len() - 1
            }]),
            None => Some(all[0]),
        }
    }
}

/// The first place, in the order of the places, at which the entry has the key.
pub open spec fn place_of(
    sections: Seq<Vec<NewSessionAction>>,
    key: Seq<char>,
    section: int,
    row: int,
) -> Option<IndexPath>
    decreases sections.len() - section, (if section < sections.len() {
        sections[section]@.len() - row
    } else {
        0
    }),
{
    if section < 0 || row < 0 || section >= sections.len() {
        None
    } else if row >= sections[section]@.len() {
        place_of(sections, key, section + 1, 0)
    } else if sections[section]@[row].key@ == key {
        Some(IndexPath { section: section as usize, row: row as usize })
    } else {
        place_of(sections, key, section, row + 1)
    }
}

/// The place of the first entry of the first section that has any.
pub open spec fn first_place(sections: Seq<Vec<NewSessionAction>>, section: int) -> Option<
    IndexPath,
>
    decreases sections.len() - section,
{
    if section >= sections.len() {
        None
    } else if sections[section]@.len() > 0 {
        Some(IndexPath { section: section as usize, row: 0 })
    } else {
        first_place(sections, section + 1)
    }
}

/// The key of the entry that is selected.
pub open spec fn selected_key(
    sections: Seq<Vec<NewSessionAction>>,
    selected: Option<IndexPath>,
) -> Option<Seq<char>> {
    match selected {
        Some(at) => if is_place(sections, at) {
            Some(sections[at.section as int]@[at.row as int].key@)
        } else {
            None
        },
        None => None,
    }
}

/// The entry that is selected.
pub open spec fn selected_action(
    sections: Seq<Vec<NewSessionAction>>,
    selected: Option<IndexPath>,
) -> Option<NewSessionAction> {
    match selected {
        Some(at) => if is_place(sections, at) {
            Some(sections[at.section as int]@[at.row as int])
        } else {
            None
        },
        None => None,
    }
}

/// A session to start: a conversation, a terminal that runs an entry, or a plain terminal.
#[derive(Debug, PartialEq, Eq)]
pub enum NewSessionRequest {
    Conversation { launch: ConversationLaunch, cwd: Option<String> },
    Terminal { cwd: Option<String>, entry: LaunchEntry },
    Blank { cwd: Option<String> },
}

/// A session to start, as characters.
pub enum RequestView {
    Conversation { launch: ConversationLaunch, cwd: Option<Seq<char>> },
    Terminal { cwd: Option<Seq<char>>, entry: EntryView },
    Blank { cwd: Option<Seq<char>> },
}

/// A text that may be missing, by its characters.
pub open spec fn maybe_text(content: Option<String>) -> Option<Seq<char>> {
    match content {
        Some(found) => Some(found@),
        None => None,
    }
}

impl NewSessionRequest {
    /// The session to start, as characters.
    pub open spec fn view(&self) -> RequestView {
        match *self {
            NewSessionRequest::Conversation { launch, cwd } => RequestView::Conversation {
                launch,
                cwd: maybe_text(cwd),
            },
            NewSessionRequest::Terminal { cwd, entry } => RequestView::Terminal {
                cwd: maybe_text(cwd),
                entry: entry.view(),
            },
            NewSessionRequest::Blank { cwd } => RequestView::Blank { cwd: maybe_text(cwd) },
        }
    }
}

/// A session to start, if any, as characters.
pub open spec fn maybe_request(request: Option<NewSessionRequest>) -> Option<RequestView> {
    match request {
        Some(found) => Some(found.view()),
        None => None,
    }
}

/// The session that an entry starts in a directory. A conversation whose agent is gone starts
/// nothing.
pub open spec fn request_of(
    target: TargetView,
    cwd: Option<Seq<char>>,
    host: AgentHost,
) -> Option<RequestView> {
    match target {
        TargetView::Conversation { agent_option_id, .. } => match conversation::launch_of(
            agent_option_id,
            host,
        ) {
            Some(launch) => Some(RequestView::Conversation { launch, cwd }),
            None => None,
        },
        TargetView::Terminal { command, provider } => Some(
            RequestView::Terminal {
                cwd,
                entry: EntryView { label: seq![], command, provider },
            },
        ),
        TargetView::BlankTerminal => Some(RequestView::Blank { cwd }),
    }
}

/// A session is only ever started in the directory of the menu that it was chosen from.
pub proof fn sessions_start_where_they_were_chosen(
    target: TargetView,
    cwd: Option<Seq<char>>,
    host: AgentHost,
)
    ensures
        match request_of(target, cwd, host) {
            Some(RequestView::Conversation { cwd: place, .. }) => place == cwd,
            Some(RequestView::Terminal { cwd: place, .. }) => place == cwd,
            Some(RequestView::Blank { cwd: place }) => place == cwd,
            None => target is Conversation,
        },
{
}

/// A row of the menu.
#[derive(Debug, PartialEq, Eq)]
pub enum PickerRow {
    /// The heading of a section.
    Heading(String),
    /// An entry, whether it is selected, whether its star is filled, and what the star does.
    Entry {
        index: IndexPath,
        key: String,
        label: String,
        selected: bool,
        starred: bool,
        tip: String,
    },
    /// That there is nothing to start.
    Empty(String),
}

/// A row of the menu, as characters.
pub enum PickerRowView {
    Heading(Seq<char>),
    Entry {
        index: IndexPath,
        key: Seq<char>,
        label: Seq<char>,
        selected: bool,
        starred: bool,
        tip: Seq<char>,
    },
    Empty(Seq<char>),
}

impl PickerRow {
    /// The row, as characters.
    pub open spec fn view(&self) -> PickerRowView {
        match *self {
            PickerRow::Heading(label) => PickerRowView::Heading(label@),
            PickerRow::Entry { index, key, label, selected, starred, tip } => {
                PickerRowView::Entry {
                    index,
                    key: key@,
                    label: label@,
                    selected,
                    starred,
                    tip: tip@,
                }
            },
            PickerRow::Empty(message) => PickerRowView::Empty(message@),
        }
    }
}

/// Rows of the menu, as characters.
pub open spec fn row_views(rows: Seq<PickerRow>) -> Seq<PickerRowView> {
    rows.map_values(|row: PickerRow| row.view())
}

/// What an entry is called in the menu.
pub open spec fn row_label(label: Seq<char>, kind: NewSessionKind) -> Seq<char> {
    label + " · "@ + kind_text(kind)
}

/// What the star beside an entry does.
pub open spec fn pin_tip(pinned: bool) -> Seq<char> {
    if pinned {
        "取消常用"@
    } else {
        "加入常用"@
    }
}

/// The rows for the entries of a section.
pub open spec fn entry_rows(
    section: usize,
    items: Seq<NewSessionAction>,
    selected: Option<IndexPath>,
) -> Seq<PickerRowView> {
    Seq::new(
        items.len(),
        |row: int|
            PickerRowView::Entry {
                index: IndexPath { section, row: row as usize },
                key: items[row].key@,
                label: row_label(items[row].label@, items[row].kind),
                selected: selected == Some(IndexPath { section, row: row as usize }),
                starred: items[row].pinned,
                tip: pin_tip(items[row].pinned),
            },
    )
}

/// The rows for sections with their headings. A section without entries does not show, nor does
/// one without a heading.
pub open spec fn section_rows(
    sections: Seq<Vec<NewSessionAction>>,
    labels: Seq<Seq<char>>,
    selected: Option<IndexPath>,
) -> Seq<PickerRowView>
    decreases sections.len(),
{
    if sections.len() == 0 {
        seq![]
    } else {
        let before = section_rows(sections.drop_last(), labels, selected);
        let at = sections.len() - 1;
        let items = sections.last()@;
        if items.len() == 0 || at >= labels.len() {
            before
        } else {
            before + seq![PickerRowView::Heading(labels[at])] + entry_rows(
                at as usize,
                items,
                selected,
            )
        }
    }
}

/// The rows of the menu. Where there is no entry at all, the menu says so.
pub open spec fn rows_of(
    sections: Seq<Vec<NewSessionAction>>,
    labels: Seq<Seq<char>>,
    selected: Option<IndexPath>,
) -> Seq<PickerRowView> {
    let rows = section_rows(sections, labels, selected);
    if places(sections).len() == 0 {
        rows.push(PickerRowView::Empty(PICKER_EMPTY_TEXT@))
    } else {
        rows
    }
}

fn copy_text(content: &Option<String>) -> (r: Option<String>)
    ensures
        maybe_text(r) == maybe_text(*content),
{
    match content {
        Some(found) => Some(found.clone()),
        None => None,
    }
}

/// Where the selection goes when the sections change: with its entry, or to the first one where
/// the entry is gone.
pub open spec fn kept_selection(
    before: Seq<Vec<NewSessionAction>>,
    selected: Option<IndexPath>,
    after: Seq<Vec<NewSessionAction>>,
) -> Option<IndexPath> {
    let kept = match selected_key(before, selected) {
        Some(key) => place_of(after, key, 0, 0),
        None => None,
    };
    if kept is Some {
        kept
    } else {
        first_place(after, 0)
    }
}

proof fn lemma_places(sections: Seq<Vec<NewSessionAction>>, i: int)
    requires
        0 <= i < places(sections).len(),
        sections.len() <= usize::MAX,
    ensures
        is_place(sections, places(sections)[i]),
        forall|j: int| 0 <= j < i ==> places(sections)[j] != places(sections)[i],
    decreases sections.len(),
{
    if sections.len() > 0 {
        let init = sections.drop_last();
        let last = section_places((sections.len() - 1) as usize, sections.last()@.len());
        let all = places(sections);
        if i < places(init).len() {
            lemma_places(init, i);
            assert(all[i] == places(init)[i]);
            assert(init[all[i].section as int] == sections[all[i].section as int]);
            assert forall|j: int| 0 <= j < i implies all[j] != all[i] by {
                assert(all[j] == places(init)[j]);
            }
        } else {
            let row = i - places(init).len();
            assert(sections.last().len() == sections.last()@.len());
            assert(all[i] == last[row]);
            assert forall|j: int| 0 <= j < i implies all[j] != all[i] by {
                if j < places(init).len() {
                    lemma_places(init, j);
                    assert(all[j] == places(init)[j]);
                } else {
                    assert(all[j] == last[j - places(init).len()]);
                }
            }
        }
    }
}

proof fn lemma_position(all: Seq<IndexPath>, at: int, from: int)
    requires
        0 <= from <= at < all.len(),
        forall|j: int| from <= j < at ==> all[j] != all[at],
    ensures
        position(all, all[at], from) == Some(at),
    decreases at - from,
{
    if from < at {
        lemma_position(all, at, from + 1);
    }
}

proof fn lemma_position_found(all: Seq<IndexPath>, at: IndexPath, from: int)
    requires
        0 <= from <= all.len(),
    ensures
        position(all, at, from) matches Some(found) ==> from <= found < all.len() && all[found]
            == at,
        position(all, at, from) is None ==> forall|j: int| from <= j < all.len() ==> all[j] != at,
    decreases all.len() - from,
{
    if from < all.len() && all[from] != at {
        lemma_position_found(all, at, from + 1);
    }
}

fn find_position(all: &Vec<IndexPath>, selected: Option<IndexPath>) -> (r: Option<usize>)
    ensures
        match r {
            Some(at) => selected_position(all@, selected) == Some(at as int) && at < all@.len(),
            None => selected_position(all@, selected) is None,
        },
{
    let at: IndexPath = match selected {
        Some(at) => at,
        None => {
            return None;
        },
    };
    let mut i: usize = 0;
    while i < all.len()
        invariant
            i <= all.len(),
            selected == Some(at),
            position(all@, at, 0) == position(all@, at, i as int),
        decreases all.len() - i,
    {
        if all[i] == at {
            return Some(i);
        }
        i = i + 1;
    }
    None
}

impl NewSessionPickerState {
    /// A menu of three sections without entries, for a project with a directory of its own or without one.
    pub fn new(cwd: String) -> (r: Self)
        ensures
            r.cwd == if cwd@.len() == 0 {
                None
            } else {
                Some(cwd)
            },
            r.source_actions@.len() == 0,
            section_views(r.sections@) == seq![
                Seq::<ActionView>::empty(),
                Seq::<ActionView>::empty(),
                Seq::<ActionView>::empty(),
            ],
            r.selected_index is None,
    {
        proof {
            reveal_strlit("");
        }
        let empty: bool = same_text(cwd.as_str(), "");
        if empty {
            assert(cwd@.len() == 0);
        } else {
            assert(cwd@.len() == 0 ==> cwd@ =~= ""@);
        }
        let first: Vec<NewSessionAction> = Vec::new();
        let second: Vec<NewSessionAction> = Vec::new();
        let third: Vec<NewSessionAction> = Vec::new();
        let sections: Vec<Vec<NewSessionAction>> = vec![first, second, third];
        proof {
            let none = Seq::<ActionView>::empty();
            assert(action_views(first@) =~= none);
            assert(action_views(second@) =~= none);
            assert(action_views(third@) =~= none);
            assert(section_views(sections@) =~= seq![none, none, none]);
        }
        NewSessionPickerState {
            cwd: if empty {
                None
            } else {
                Some(cwd)
            },
            source_actions: Vec::new(),
            sections,
            selected_index: None,
        }
    }

    /// The entry at a place.
    pub fn item_at(&self, index: IndexPath) -> (r: Option<&NewSessionAction>)
        ensures
            match r {
                Some(item) => is_place(self.sections@, index) && *item
                    == self.sections@[index.section as int]@[index.row as int],
                None => !is_place(self.sections@, index),
            },
    {
        if index.section < self.sections.len() && index.row < self.sections[index.section].len() {
            Some(&self.sections[index.section][index.row])
        } else {
            None
        }
    }

    /// The place of the first entry.
    pub fn first_index(&self) -> (r: Option<IndexPath>)
        ensures
            r == first_place(self.sections@, 0),
    {
        let mut i: usize = 0;
        while i < self.sections.len()
            invariant
                i <= self.sections.len(),
                first_place(self.sections@, 0) == first_place(self.sections@, i as int),
            decreases self.sections.len() - i,
        {
            if self.sections[i].len() > 0 {
                return Some(IndexPath { section: i, row: 0 });
            }
            i = i + 1;
        }
        None
    }

    /// The place of the entry with the given key.
    pub fn index_for_key(&self, key: &str) -> (r: Option<IndexPath>)
        ensures
            r == place_of(self.sections@, key@, 0, 0),
    {
        let mut section: usize = 0;
        while section < self.sections.len()
            invariant
                section <= self.sections.len(),
                place_of(self.sections@, key@, 0, 0) == place_of(
                    self.sections@,
                    key@,
                    section as int,
                    0,
                ),
            decreases self.sections.len() - section,
        {
            let mut row: usize = 0;
            while row < self.sections[section].len()
                invariant
                    section < self.sections.len(),
                    row <= self.sections@[section as int]@.len(),
                    place_of(self.sections@, key@, 0, 0) == place_of(
                        self.sections@,
                        key@,
                        section as int,
                        row as int,
                    ),
                decreases self.sections@[section as int]@.len() - row,
            {
                if same_text(self.sections[section][row].key.as_str(), key) {
                    return Some(IndexPath { section, row });
                }
                row = row + 1;
            }
            section = section + 1;
        }
        None
    }

    /// The places of all entries.
    pub fn indices(&self) -> (r: Vec<IndexPath>)
        ensures
            r@ == places(self.sections@),
    {
        let mut out: Vec<IndexPath> = Vec::new();
        let mut section: usize = 0;
        while section < self.sections.len()
            invariant
                section <= self.sections.len(),
                out@ == places(self.sections@.take(section as int)),
            decreases self.sections.len() - section,
        {
            let ghost before = out@;
            let ghost rows = self.sections@[section as int]@.len();
            let ghost here = section_places(section, rows);
            let mut row: usize = 0;
            assert(out@ =~= before + here.take(0));
            while row < self.sections[section].len()
                invariant
                    section < self.sections.len(),
                    rows == self.sections@[section as int]@.len(),
                    here == section_places(section, rows),
                    row <= rows,
                    out@ == before + here.take(row as int),
                decreases rows - row,
            {
                out.push(IndexPath { section, row });
                row = row + 1;
                assert(out@ =~= before + here.take(row as int));
            }
            assert(here.take(row as int) =~= here);
            assert(self.sections@.take(section + 1).drop_last() =~= self.sections@.take(
                section as int,
            ));
            section = section + 1;
        }
        assert(self.sections@.take(section as int) =~= self.sections@);
        out
    }

    /// Selects an entry. Says whether that changes anything.
    pub fn set_selected_index(&mut self, index: Option<IndexPath>) -> (r: bool)
        ensures
            *final(self) == (NewSessionPickerState { selected_index: index, ..*old(self) }),
            r == (old(self).selected_index != index),
    {
        let same: bool = match (self.selected_index, index) {
            (Some(old_index), Some(new_index)) => old_index == new_index,
            (None, None) => true,
            _ => false,
        };
        self.selected_index = index;
        !same
    }

    /// Selects the next entry.
    pub fn select_next(&mut self)
        ensures
            *final(self) == (NewSessionPickerState {
                selected_index: next(places(old(self).sections@), old(self).selected_index),
                ..*old(self)
            }),
    {
        let all: Vec<IndexPath> = self.indices();
        if all.len() == 0 {
            self.selected_index = None;
            return;
        }
        let at: usize = match find_position(&all, self.selected_index) {
            Some(at) => if at + 1 < all.len() {
                at + 1
            } else {
                0
            },
            None => 0,
        };
        self.selected_index = Some(all[at]);
    }

    /// Selects the previous entry.
    pub fn select_previous(&mut self)
        ensures
            *final(self) == (NewSessionPickerState {
                selected_index: previous(places(old(self).sections@), old(self).selected_index),
                ..*old(self)
            }),
    {
        let all: Vec<IndexPath> = self.indices();
        if all.len() == 0 {
            self.selected_index = None;
            return;
        }
        let at: usize = match find_position(&all, self.selected_index) {
            Some(at) => if at > 0 {
                at - 1
            } else {
                all.len() - 1
            },
            None => 0,
        };
        self.selected_index = Some(all[at]);
    }

    /// Takes new sections in, after an entry was pinned or when the menu opens. The selection
    /// stays with its entry.
    pub fn sync_sections(&mut self, sections: Vec<Vec<NewSessionAction>>)
        ensures
            final(self).sections == sections,
            final(self).cwd == old(self).cwd,
            final(self).source_actions == old(self).source_actions,
            final(self).selected_index == kept_selection(
                old(self).sections@,
                old(self).selected_index,
                sections@,
            ),
    {
        let key: Option<String> = match self.selected_index {
            Some(at) => match self.item_at(at) {
                Some(item) => Some(item.key.clone()),
                None => None,
            },
            None => None,
        };
        self.sections = sections;
        let kept: Option<IndexPath> = match key {
            Some(key) => self.index_for_key(key.as_str()),
            None => None,
        };
        self.selected_index = match kept {
            Some(at) => Some(at),
            None => self.first_index(),
        };
    }

    /// Takes in what can be started and the sections made of it, when the menu is drawn. Says
    /// whether that changes what the menu shows.
    pub fn sync_picker_state(
        &mut self,
        actions: Vec<NewSessionAction>,
        sections: Vec<Vec<NewSessionAction>>,
    ) -> (r: bool)
        ensures
            final(self).source_actions == actions,
            final(self).sections == sections,
            final(self).cwd == old(self).cwd,
            final(self).selected_index == kept_selection(
                old(self).sections@,
                old(self).selected_index,
                sections@,
            ),
            r == (final(self).selected_index != old(self).selected_index || action_views(
                actions@,
            ) != action_views(old(self).source_actions@) || section_views(sections@)
                != section_views(old(self).sections@)),
    {
        let same_source: bool = same_actions(&self.source_actions, &actions);
        let same_shown: bool = same_sections(&self.sections, &sections);
        let before: Option<IndexPath> = self.selected_index;
        self.sync_sections(sections);
        self.source_actions = actions;
        let same_selection: bool = match (before, self.selected_index) {
            (Some(old_index), Some(new_index)) => old_index == new_index,
            (None, None) => true,
            _ => false,
        };
        !same_selection || !same_source || !same_shown
    }

    /// The session to start where the selection is confirmed, in the directory of the menu.
    /// Where the agent of a conversation is gone, nothing is started.
    pub fn confirm(&self, host: &AgentHost) -> (r: Option<NewSessionRequest>)
        ensures
            maybe_request(r) == (match selected_action(self.sections@, self.selected_index) {
                Some(action) => request_of(action.target.view(), maybe_text(self.cwd), *host),
                None => None,
            }),
    {
        let at: IndexPath = match self.selected_index {
            Some(at) => at,
            None => {
                return None;
            },
        };
        let item: &NewSessionAction = match self.item_at(at) {
            Some(item) => item,
            None => {
                return None;
            },
        };
        let cwd: Option<String> = copy_text(&self.cwd);
        match &item.target {
            NewSessionTarget::Conversation { agent_option_id, .. } => {
                match conversation_launch(agent_option_id.as_str(), host) {
                    Some(launch) => Some(NewSessionRequest::Conversation { launch, cwd }),
                    None => None,
                }
            },
            NewSessionTarget::Terminal { command, provider } => {
                let entry: LaunchEntry = LaunchEntry {
                    label: String::new(),
                    command: command.clone(),
                    provider: copy_text(provider),
                };
                Some(NewSessionRequest::Terminal { cwd, entry })
            },
            NewSessionTarget::BlankTerminal => Some(NewSessionRequest::Blank { cwd }),
        }
    }

    /// Whether the menu closes where the selection is confirmed: wherever an entry is selected,
    /// also where it starts nothing.
    pub fn confirming_closes(&self) -> (r: bool)
        ensures
            r == (selected_action(self.sections@, self.selected_index) is Some),
    {
        match self.selected_index {
            Some(at) => self.item_at(at).is_some(),
            None => false,
        }
    }

    /// The rows of the menu, under the given headings of its sections.
    pub fn picker_rows(&self, labels: &Vec<String>) -> (r: Vec<PickerRow>)
        ensures
            row_views(r@) == rows_of(self.sections@, text::texts(labels@), self.selected_index),
    {
        let ghost heads = text::texts(labels@);
        let mut out: Vec<PickerRow> = Vec::new();
        let mut section: usize = 0;
        let mut found: bool = false;
        assert(row_views(out@) =~= section_rows(
            self.sections@.take(0),
            heads,
            self.selected_index,
        ));
        assert(places(self.sections@.take(0)).len() == 0);
        while section < self.sections.len()
            invariant
                heads == text::texts(labels@),
                section <= self.sections.len(),
                row_views(out@) == section_rows(
                    self.sections@.take(section as int),
                    heads,
                    self.selected_index,
                ),
                found == (places(self.sections@.take(section as int)).len() > 0),
            decreases self.sections.len() - section,
        {
            let ghost before = row_views(out@);
            let ghost items = self.sections@[section as int]@;
            proof {
                let longer = self.sections@.take(section + 1);
                assert(longer.drop_last() =~= self.sections@.take(section as int));
                assert(longer.last() == self.sections@[section as int]);
            }
            if self.sections[section].len() > 0 {
                found = true;
            }
            if self.sections[section].len() > 0 && section < labels.len() {
                let ghost shown = out@;
                out.push(PickerRow::Heading(labels[section].clone()));
                assert(row_views(out@) =~= row_views(shown).push(
                    PickerRowView::Heading(heads[section as int]),
                ));
                let ghost here = entry_rows(section, items, self.selected_index);
                let ghost headed = row_views(out@);
                let mut row: usize = 0;
                assert(row_views(out@) =~= headed + here.take(0));
                while row < self.sections[section].len()
                    invariant
                        section < self.sections.len(),
                        items == self.sections@[section as int]@,
                        here == entry_rows(section, items, self.selected_index),
                        row <= items.len(),
                        row_views(out@) == headed + here.take(row as int),
                    decreases items.len() - row,
                {
                    let item: &NewSessionAction = &self.sections[section][row];
                    let index: IndexPath = IndexPath { section, row };
                    let selected: bool = match self.selected_index {
                        Some(at) => at == index,
                        None => false,
                    };
                    let ghost so_far = out@;
                    let entry: PickerRow = PickerRow::Entry {
                        index,
                        key: item.key.clone(),
                        label: picker_row_label(item),
                        selected,
                        starred: item.pinned,
                        tip: picker_pin_tip(item.pinned).to_owned(),
                    };
                    out.push(entry);
                    assert(row_views(out@) =~= row_views(so_far).push(entry.view()));
                    assert(entry.view() == here[row as int]);
                    row = row + 1;
                    assert(row_views(out@) =~= headed + here.take(row as int));
                }
                assert(here.take(row as int) =~= here);
                assert(row_views(out@) =~= before + seq![
                    PickerRowView::Heading(heads[section as int]),
                ] + here);
            }
            section = section + 1;
        }
        assert(self.sections@.take(section as int) =~= self.sections@);
        let ghost shown = out@;
        if !found {
            out.push(PickerRow::Empty(PICKER_EMPTY_TEXT.to_owned()));
            assert(row_views(out@) =~= row_views(shown).push(
                PickerRowView::Empty(PICKER_EMPTY_TEXT@),
            ));
        }
        out
    }

    /// How high the menu is: as high as its entries and headings, for seven entries at most.
    pub fn list_height(&self) -> (r: u128)
        ensures
            r == height(places(self.sections@).len() as int, filled(self.sections@)),
    {
        let count: usize = self.indices().len();
        let mut headings: u128 = 0;
        let mut i: usize = 0;
        while i < self.sections.len()
            invariant
                i <= self.sections.len(),
                headings == filled(self.sections@.take(i as int)),
                headings <= i,
            decreases self.sections.len() - i,
        {
            assert(self.sections@.take(i + 1).drop_last() =~= self.sections@.take(i as int));
            if self.sections[i].len() > 0 {
                headings = headings + 1;
            }
            i = i + 1;
        }
        assert(self.sections@.take(i as int) =~= self.sections@);
        if count == 0 {
            return PICKER_EMPTY_HEIGHT as u128;
        }
        assert(headings * PICKER_SECTION_HEIGHT <= 0xffff_ffff_ffff_ffff * 21) by (nonlinear_arith)
            requires
                headings <= 0xffff_ffff_ffff_ffff,
                PICKER_SECTION_HEIGHT == 21,
        ;
        let shown: u128 = if count < PICKER_MAX_VISIBLE_ROWS {
            count as u128
        } else {
            PICKER_MAX_VISIBLE_ROWS as u128
        };
        assert(shown * PICKER_ROW_HEIGHT <= 7 * 32) by (nonlinear_arith)
            requires
                shown <= 7,
                PICKER_ROW_HEIGHT == 32,
        ;
        shown * PICKER_ROW_HEIGHT as u128 + headings * PICKER_SECTION_HEIGHT as u128
    }
}

pub const PICKER_ROW_HEIGHT: u64 = 32;

pub const PICKER_SECTION_HEIGHT: u64 = 21;

pub const PICKER_EMPTY_HEIGHT: u64 = 56;

pub const PICKER_MAX_VISIBLE_ROWS: usize = 7;

/// How many sections have entries.
pub open spec fn filled(sections: Seq<Vec<NewSessionAction>>) -> int
    decreases sections.len(),
{
    if sections.len() == 0 {
        0
    } else {
        filled(sections.drop_last()) + if sections.last()@.len() > 0 {
            1int
        } else {
            0
        }
    }
}

/// How high a menu with so many entries and headings is.
pub open spec fn height(entries: int, headings: int) -> int {
    if entries == 0 {
        PICKER_EMPTY_HEIGHT as int
    } else {
        (if entries < PICKER_MAX_VISIBLE_ROWS {
            entries
        } else {
            PICKER_MAX_VISIBLE_ROWS as int
        }) * PICKER_ROW_HEIGHT + headings * PICKER_SECTION_HEIGHT
    }
}

/// The name of the state of a menu. It follows the directory, not the position of the project in
/// the list, so that a menu does not start sessions elsewhere after the list is reordered.
pub fn picker_key(cwd: &Option<String>) -> (r: String)
    ensures
        r@ == "new-session-picker:"@ + match *cwd {
            Some(cwd) => cwd@,
            None => "default"@,
        },
{
    match cwd {
        Some(cwd) => concat("new-session-picker:", cwd.as_str()),
        None => concat("new-session-picker:", "default"),
    }
}

/// What an entry is called in the menu.
pub fn picker_row_label(item: &NewSessionAction) -> (r: String)
    ensures
        r@ == row_label(item.label@, item.kind),
{
    let mut out: String = concat(item.label.as_str(), " · ");
    out.append(item.kind.label());
    out
}

/// What the star beside an entry does.
pub fn picker_pin_tip(pinned: bool) -> (r: &'static str)
    ensures
        r@ == pin_tip(pinned),
{
    if pinned {
        "取消常用"
    } else {
        "加入常用"
    }
}

/// What the menu says where there is nothing to start.
pub const PICKER_EMPTY_TEXT: &'static str = "没有可用的启动项";

/// Which keys the menu listens to.
pub const PICKER_FOOTER_TEXT: &'static str = "↑↓ 选择 · Enter 创建 · Esc 关闭";

/// The agent in the terminal that an entry starts: by its id, else by how the command begins.
pub open spec fn terminal_agent(
    agents: Seq<AgentView>,
    command: Seq<char>,
    provider: Option<String>,
) -> Option<AgentView> {
    match provider {
        Some(id) => match launch::agent_with_id(agents, id@) {
            Some(agent) => Some(agent),
            None => launch::agent_of_command(agents, command),
        },
        None => launch::agent_of_command(agents, command),
    }
}

/// The picture of an entry. `known` says whether the agent of a conversation is a known one.
pub fn picker_item_icon(
    agents: &Vec<TerminalAgent>,
    target: &NewSessionTarget,
    known: bool,
) -> (r: RowIcon)
    ensures
        match *target {
            NewSessionTarget::Conversation { agent_kind, .. } => if known {
                row::is_asset(r, row::agent_asset(agent_kind@))
            } else {
                r is Bot
            },
            NewSessionTarget::Terminal { command, provider } => match terminal_agent(
                launch::agent_views(agents@),
                command@,
                provider,
            ) {
                Some(agent) => row::is_asset(r, row::agent_asset(agent.id)),
                None => r is SquareTerminal,
            },
            NewSessionTarget::BlankTerminal => r is SquareTerminal,
        },
{
    match target {
        NewSessionTarget::Conversation { agent_kind, .. } => if known {
            acp_provider_icon(agent_kind.as_str())
        } else {
            RowIcon::Bot
        },
        NewSessionTarget::Terminal { command, provider } => {
            let by_id: Option<&TerminalAgent> = match provider {
                Some(id) => agent_from_id(agents, id.as_str()),
                None => None,
            };
            let agent: Option<&TerminalAgent> = match by_id {
                Some(agent) => Some(agent),
                None => agent_from_command_prefix(agents, command.as_str()),
            };
            match agent {
                Some(agent) => provider_icon(Some(agent.id.as_str())),
                None => provider_icon(None),
            }
        },
        NewSessionTarget::BlankTerminal => RowIcon::SquareTerminal,
    }
}

/// The selection always stands on an entry, unless there is none.
pub proof fn moving_selects_an_entry(
    sections: Seq<Vec<NewSessionAction>>,
    selected: Option<IndexPath>,
)
    requires
        sections.len() <= usize::MAX,
    ensures
        next(places(sections), selected) matches Some(at) ==> is_place(sections, at),
        previous(places(sections), selected) matches Some(at) ==> is_place(sections, at),
        next(places(sections), selected) is None <==> places(sections).len() == 0,
        previous(places(sections), selected) is None <==> places(sections).len() == 0,
{
    let all = places(sections);
    if all.len() > 0 {
        if let Some(at) = selected {
            lemma_position_found(all, at, 0);
        }
        assert forall|i: int| 0 <= i < all.len() implies is_place(sections, all[i]) by {
            lemma_places(sections, i);
        }
    }
}

/// Going down and then up leads back to the entry that was selected, and so does going up and
/// then down.
pub proof fn up_undoes_down(sections: Seq<Vec<NewSessionAction>>, i: int)
    requires
        sections.len() <= usize::MAX,
        0 <= i < places(sections).len(),
    ensures
        ({
            let all = places(sections);
            &&& previous(all, next(all, Some(all[i]))) == Some(all[i])
            &&& next(all, previous(all, Some(all[i]))) == Some(all[i])
        }),
{
    let all = places(sections);
    assert forall|k: int| 0 <= k < all.len() implies position(all, all[k], 0) == Some(k) by {
        lemma_places(sections, k);
        lemma_position(all, k, 0);
    }
    let down = if i + 1 < all.len() {
        i + 1
    } else {
        0
    };
    let up = if i > 0 {
        i - 1
    } else {
        all.len() - 1
    };
    assert(position(all, all[i], 0) == Some(i));
    assert(position(all, all[down], 0) == Some(down));
    assert(position(all, all[up], 0) == Some(up));
}

proof fn lemma_place_of(
    sections: Seq<Vec<NewSessionAction>>,
    key: Seq<char>,
    section: int,
    row: int,
    at: IndexPath,
)
    requires
        sections.len() <= usize::MAX,
        0 <= section,
        0 <= row,
        is_place(sections, at),
        sections[at.section as int]@[at.row as int].key@ == key,
        at.section > section || (at.section == section && at.row >= row),
    ensures
        place_of(sections, key, section, row) matches Some(found) && is_place(sections, found)
            && sections[found.section as int]@[found.row as int].key@ == key,
    decreases sections.len() - section, (if section < sections.len() {
        sections[section]@.len() - row
    } else {
        0
    }),
{
    assert(sections[section].len() == sections[section]@.len());
    if row >= sections[section]@.len() {
        lemma_place_of(sections, key, section + 1, 0, at);
    } else if sections[section]@[row].key@ != key {
        lemma_place_of(sections, key, section, row + 1, at);
    }
}

/// The selection stays on its entry when the sections change, as long as the entry is still
/// there.
pub proof fn selections_follow_their_entry(
    before: Seq<Vec<NewSessionAction>>,
    selected: Option<IndexPath>,
    after: Seq<Vec<NewSessionAction>>,
    at: IndexPath,
)
    requires
        after.len() <= usize::MAX,
        is_place(after, at),
        selected_key(before, selected) == Some(after[at.section as int]@[at.row as int].key@),
    ensures
        selected_key(after, kept_selection(before, selected, after)) == selected_key(
            before,
            selected,
        ),
{
    lemma_place_of(after, after[at.section as int]@[at.row as int].key@, 0, 0, at);
}

} // verus!
