//! The hooks of the first agent, of Grok, which has a directory of its own for them, and of Codex.

use vstd::prelude::*;

use crate::agent_hooks::document;
use crate::agent_hooks::document::{HookFile, HookFileView};
use crate::agent_hooks::events;
use crate::agent_hooks::events::{codex_hook_events, smelt_hook_events};
use crate::agent_hooks::hook_file;
use crate::agent_hooks::hook_file::{
    hook_file_installed, install_hook_file, uninstall_hook_file,
};
use crate::json;
use crate::shell;
use crate::shell::provider_hook_command;
use crate::text;
use crate::text::concat;

verus! {

/// A file to write.
pub struct FileEdit {
    pub path: String,
    pub content: String,
}

/// Files to write, in order, and how the operation ends once they are written.
pub struct HookPlan {
    pub edits: Vec<FileEdit>,
    pub outcome: Result<(), String>,
}

/// A plan, by its characters: paths with their contents, and the failure at the end.
pub struct PlanView {
    pub edits: Seq<(Seq<char>, Seq<char>)>,
    pub failure: Option<Seq<char>>,
}

impl HookPlan {
    /// The plan, by its characters.
    pub open spec fn view(&self) -> PlanView {
        PlanView {
            edits: self.edits@.map_values(|edit: FileEdit| (edit.path@, edit.content@)),
            failure: document::failure(self.outcome),
        }
    }
}

/// The plan that does nothing and ends with `failure`.
pub open spec fn just(failure: Option<Seq<char>>) -> PlanView {
    PlanView { edits: seq![], failure }
}

/// The plan that writes a file and goes on with another plan.
pub open spec fn first_write(path: Seq<char>, content: Seq<char>, rest: PlanView) -> PlanView {
    PlanView { edits: seq![(path, content)] + rest.edits, failure: rest.failure }
}

/// The plan that writes a file, or fails.
pub open spec fn write_or_fail(path: Seq<char>, content: Result<Seq<char>, Seq<char>>) -> PlanView {
    match content {
        Ok(written) => first_write(path, written, just(None)),
        Err(message) => just(Some(message)),
    }
}

/// Installs in the first agent's file, under its `name`, then in Grok's. A failure at the first
/// leaves the second alone.
pub open spec fn claude_installation(
    name: Seq<char>,
    notify: Seq<char>,
    available: bool,
    paths: Option<(Seq<char>, Seq<char>)>,
    claude: HookFileView,
    grok: HookFileView,
) -> PlanView {
    match paths {
        None => just(Some(document::no_home())),
        Some(places) => match hook_file::installation(
            notify,
            available,
            places.0,
            claude,
            events::smelt_events(),
            name,
        ) {
            Err(message) => just(Some(message)),
            Ok(written) => first_write(
                places.0,
                written,
                write_or_fail(
                    places.1,
                    hook_file::installation(
                        notify,
                        available,
                        places.1,
                        grok,
                        events::smelt_events(),
                        "grok"@,
                    ),
                ),
            ),
        },
    }
}

/// The plan that writes a file, if it has to change, and goes on with another plan, or fails.
pub open spec fn change_then(
    path: Seq<char>,
    content: Result<Option<Seq<char>>, Seq<char>>,
    rest: PlanView,
) -> PlanView {
    match content {
        Ok(Some(written)) => first_write(path, written, rest),
        Ok(None) => rest,
        Err(message) => just(Some(message)),
    }
}

/// Removes from the first agent's file, then from Grok's. A failure at the first leaves the
/// second alone.
pub open spec fn claude_removal(
    paths: Option<(Seq<char>, Seq<char>)>,
    claude: HookFileView,
    grok: HookFileView,
) -> PlanView {
    match paths {
        None => just(None),
        Some(places) => change_then(
            places.0,
            hook_file::removal(claude, events::smelt_events()),
            change_then(
                places.1,
                hook_file::removal(grok, events::smelt_events()),
                just(None),
            ),
        ),
    }
}

/// The text of the file at `path` once the edits were made, where it has any; `before` is its
/// text before them.
pub open spec fn text_at(
    edits: Seq<(Seq<char>, Seq<char>)>,
    path: Seq<char>,
    before: Option<Seq<char>>,
) -> Option<Seq<char>>
    decreases edits.len(),
{
    if edits.len() == 0 {
        before
    } else if edits.last().0 == path {
        Some(edits.last().1)
    } else {
        text_at(edits.drop_last(), path, before)
    }
}

/// The text reads as the document of a file with Smelt's hooks added.
pub open spec fn holds_hooks(
    content: Seq<char>,
    path: Seq<char>,
    file: HookFileView,
    names: Seq<Seq<char>>,
    notify: Seq<char>,
    provider: Seq<char>,
) -> bool {
    document::document_in(file, document::invalid_json(path)) matches Ok(root)
        && hook_file::merged(root, path, names, notify, provider, false).1 is None
        && json::reads_as(
        content,
        hook_file::merged(root, path, names, notify, provider, false).0,
    )
}

/// The first agent's and Grok's file, once a plan was carried out, have Smelt's hooks for every
/// event: each by itself.
pub open spec fn installed_after(
    available: bool,
    plan: PlanView,
    places: (Seq<char>, Seq<char>),
    claude: HookFileView,
    grok: HookFileView,
) -> (bool, bool) {
    (
        hook_file::file_installed(
            available,
            text_at(plan.edits, places.0, document::text_in(claude)),
            events::smelt_events(),
        ),
        hook_file::file_installed(
            available,
            text_at(plan.edits, places.1, document::text_in(grok)),
            events::smelt_events(),
        ),
    )
}

/// Two paths that may be missing, by their characters.
pub open spec fn maybe_paths(paths: Option<(&str, &str)>) -> Option<(Seq<char>, Seq<char>)> {
    match paths {
        Some(places) => Some((places.0@, places.1@)),
        None => None,
    }
}

fn failed_plan(message: String) -> (r: HookPlan)
    ensures
        r.view() == just(Some(message@)),
{
    let plan = HookPlan { edits: Vec::new(), outcome: Err(message) };
    assert(plan.view().edits =~= seq![]);
    plan
}

fn empty_plan() -> (r: HookPlan)
    ensures
        r.view() == just(None),
{
    let plan = HookPlan { edits: Vec::new(), outcome: Ok(()) };
    assert(plan.view().edits =~= seq![]);
    plan
}

fn prefix_plan(path: &str, content: String, rest: HookPlan) -> (r: HookPlan)
    ensures
        r.view() == first_write(path@, content@, rest.view()),
{
    let mut edits: Vec<FileEdit> = Vec::new();
    edits.push(FileEdit { path: path.to_owned(), content });
    let mut others: Vec<FileEdit> = rest.edits;
    let ghost before = rest.view();
    edits.append(&mut others);
    let plan = HookPlan { edits, outcome: rest.outcome };
    assert(plan.view().edits =~= seq![(path@, content@)] + before.edits);
    plan
}

proof fn lemma_text_of_one(
    edit: (Seq<char>, Seq<char>),
    path: Seq<char>,
    before: Option<Seq<char>>,
)
    ensures
        text_at(seq![edit], path, before) == if edit.0 == path {
            Some(edit.1)
        } else {
            before
        },
{
    assert(seq![edit].drop_last() =~= seq![]);
    assert(text_at(seq![edit].drop_last(), path, before) == before);
}

proof fn lemma_text_of_two(
    first: (Seq<char>, Seq<char>),
    second: (Seq<char>, Seq<char>),
    one: Option<Seq<char>>,
    other: Option<Seq<char>>,
)
    ensures
        first.0 != second.0 ==> text_at(seq![first, second], first.0, one) == Some(first.1),
        text_at(seq![first, second], second.0, other) == Some(second.1),
        seq![first] + seq![second] == seq![first, second],
        seq![second] + Seq::<(Seq<char>, Seq<char>)>::empty() == seq![second],
{
    assert(seq![first, second].drop_last() =~= seq![first]);
    assert(seq![first] + seq![second] =~= seq![first, second]);
    assert(seq![second] + Seq::<(Seq<char>, Seq<char>)>::empty() =~= seq![second]);
    lemma_text_of_one(first, first.0, one);
}

proof fn lemma_removal_after(
    places: (Seq<char>, Seq<char>),
    first: Option<Seq<char>>,
    second: Option<Seq<char>>,
    claude: HookFileView,
    grok: HookFileView,
)
    requires
        places.0 != places.1,
    ensures
        ({
            let plan = change_then(
                places.0,
                Ok(first),
                change_then(places.1, Ok(second), just(None)),
            );
            &&& text_at(plan.edits, places.0, document::text_in(claude)) == document::text_after(
                claude,
                first,
            )
            &&& text_at(plan.edits, places.1, document::text_in(grok)) == document::text_after(
                grok,
                second,
            )
        }),
{
    let one = document::text_in(claude);
    let other = document::text_in(grok);
    let nothing = Seq::<(Seq<char>, Seq<char>)>::empty();
    if let (Some(written), Some(rest)) = (first, second) {
        lemma_text_of_two((places.0, written), (places.1, rest), one, other);
    }
    if let Some(written) = first {
        lemma_text_of_one((places.0, written), places.0, one);
        lemma_text_of_one((places.0, written), places.1, other);
        assert(seq![(places.0, written)] + nothing =~= seq![(places.0, written)]);
    }
    if let Some(rest) = second {
        lemma_text_of_one((places.1, rest), places.1, other);
        lemma_text_of_one((places.1, rest), places.0, one);
        assert(seq![(places.1, rest)] + nothing =~= seq![(places.1, rest)]);
    }
}

/// Whether the first agent's and Grok's files, given by their texts where they could be read,
/// have Smelt's hooks for every event.
pub fn claude_hooks_installed(
    notify_available: bool,
    claude: Option<&str>,
    grok: Option<&str>,
) -> (r: bool)
    ensures
        r == (hook_file::file_installed(
            notify_available,
            document::maybe_text(claude),
            events::smelt_events(),
        ) && hook_file::file_installed(
            notify_available,
            document::maybe_text(grok),
            events::smelt_events(),
        )),
{
    let names: Vec<String> = smelt_hook_events();
    hook_file_installed(notify_available, claude, &names) && hook_file_installed(
        notify_available,
        grok,
        &names,
    )
}

/// What to write so that the first agent's and Grok's files have Smelt's hooks. `name` is what
/// the hooks call the first agent; `paths` names the files where there is a home directory.
pub fn install_claude_hooks(
    name: &str,
    notify: &str,
    notify_available: bool,
    paths: Option<(&str, &str)>,
    claude: &HookFile,
    grok: &HookFile,
) -> (r: HookPlan)
    ensures
        r.view() == claude_installation(
            name@,
            notify@,
            notify_available,
            maybe_paths(paths),
            claude.view(),
            grok.view(),
        ),
        maybe_paths(paths) matches Some(places) ==> (r.outcome is Ok && places.0 != places.1
            && shell::names_notify(notify@) && shell::all_plain(name@) ==> installed_after(
            notify_available,
            r.view(),
            places,
            claude.view(),
            grok.view(),
        ) == (true, true)),
        maybe_paths(paths) matches Some(places) ==> (r.outcome is Ok ==> {
            &&& r.edits@.len() == 2
            &&& r.edits@[0].path@ == places.0
            &&& r.edits@[1].path@ == places.1
            &&& holds_hooks(
                r.edits@[0].content@,
                places.0,
                claude.view(),
                events::smelt_events(),
                notify@,
                name@,
            )
            &&& holds_hooks(
                r.edits@[1].content@,
                places.1,
                grok.view(),
                events::smelt_events(),
                notify@,
                "grok"@,
            )
        }),
{
    match paths {
        None => failed_plan("无 home 目录".to_owned()),
        Some((claude_path, grok_path)) => {
            proof {
                events::lemma_smelt_events();
            }
            let names: Vec<String> = smelt_hook_events();
            match install_hook_file(
                notify,
                notify_available,
                claude_path,
                claude,
                &names,
                name,
            ) {
                Err(message) => failed_plan(message),
                Ok(written) => {
                    proof {
                        reveal_strlit("grok");
                        assert(shell::all_plain("grok"@));
                    }
                    match install_hook_file(
                        notify,
                        notify_available,
                        grok_path,
                        grok,
                        &names,
                        "grok",
                    ) {
                        Err(message) => {
                            let rest: HookPlan = failed_plan(message);
                            prefix_plan(claude_path, written, rest)
                        },
                        Ok(other) => {
                            let rest: HookPlan = prefix_plan(grok_path, other, empty_plan());
                            let plan: HookPlan = prefix_plan(claude_path, written, rest);
                            proof {
                                lemma_text_of_two(
                                    (claude_path@, written@),
                                    (grok_path@, other@),
                                    document::text_in(claude.view()),
                                    document::text_in(grok.view()),
                                );
                                assert(plan.view().edits =~= seq![
                                    (claude_path@, written@),
                                    (grok_path@, other@),
                                ]);
                                assert(plan.view().edits.len() == plan.edits@.len());
                                assert(plan.view().edits[0] == (claude_path@, written@));
                                assert(plan.view().edits[1] == (grok_path@, other@));
                            }
                            plan
                        },
                    }
                },
            }
        },
    }
}

/// What to write so that the first agent's and Grok's files have none of Smelt's hooks.
pub fn uninstall_claude_hooks(
    paths: Option<(&str, &str)>,
    claude: &HookFile,
    grok: &HookFile,
) -> (r: HookPlan)
    ensures
        r.view() == claude_removal(maybe_paths(paths), claude.view(), grok.view()),
        maybe_paths(paths) matches Some(places) ==> (r.outcome is Ok && places.0 != places.1
            ==> installed_after(true, r.view(), places, claude.view(), grok.view()) == (
            false,
            false,
        )),
{
    match paths {
        None => empty_plan(),
        Some((claude_path, grok_path)) => {
            proof {
                events::lemma_smelt_events();
            }
            let names: Vec<String> = smelt_hook_events();
            let first: Option<String> = match uninstall_hook_file(claude, &names) {
                Err(message) => {
                    return failed_plan(message);
                },
                Ok(change) => change,
            };
            let second: Result<Option<String>, String> = uninstall_hook_file(grok, &names);
            proof {
                let all = events::smelt_events();
                if claude_path@ != grok_path@ {
                    lemma_removal_after(
                        (claude_path@, grok_path@),
                        hook_file::removal(claude.view(), all)->Ok_0,
                        hook_file::removal(grok.view(), all)->Ok_0,
                        claude.view(),
                        grok.view(),
                    );
                }
            }
            let rest: HookPlan = match second {
                Err(message) => failed_plan(message),
                Ok(Some(written)) => prefix_plan(grok_path, written, empty_plan()),
                Ok(None) => empty_plan(),
            };
            match first {
                Some(written) => prefix_plan(claude_path, written, rest),
                None => rest,
            }
        },
    }
}

/// What installing Codex's hooks takes: the text of its file, and the commands that Codex has
/// to be asked to trust once it is written.
pub struct CodexInstallation {
    pub content: String,
    pub commands: Vec<String>,
}

/// How asking Codex to trust the hooks ended.
pub enum TrustAttempt {
    /// The hooks are trusted.
    Granted,
    /// There is no working directory to ask from, for the given reason.
    NoDirectory(String),
    /// Codex did not trust the hooks, for the given reason.
    Refused(String),
}

/// The commands of the given events.
pub open spec fn codex_commands(notify: Seq<char>, names: Seq<Seq<char>>) -> Seq<Seq<char>> {
    names.map_values(|event: Seq<char>| shell::hook_command(notify, "codex"@, event))
}

/// The text of Codex's file, or why it cannot have Smelt's hooks.
pub open spec fn codex_installation(
    notify: Seq<char>,
    available: bool,
    path: Option<Seq<char>>,
    file: HookFileView,
) -> Result<Seq<char>, Seq<char>> {
    match path {
        None => Err(document::no_home()),
        Some(place) => hook_file::installation(
            notify,
            available,
            place,
            file,
            events::codex_events(),
            "codex"@,
        ),
    }
}

/// Whether Codex's file, given by its text where it could be read, has Smelt's hooks for
/// every event.
pub fn codex_hooks_installed(notify_available: bool, content: Option<&str>) -> (r: bool)
    ensures
        r == hook_file::file_installed(
            notify_available,
            document::maybe_text(content),
            events::codex_events(),
        ),
{
    let names: Vec<String> = codex_hook_events();
    hook_file_installed(notify_available, content, &names)
}

/// What installing Codex's hooks takes.
pub fn install_codex_hooks(
    notify: &str,
    notify_available: bool,
    path: Option<&str>,
    file: &HookFile,
) -> (r: Result<CodexInstallation, String>)
    ensures
        match r {
            Ok(installation) => codex_installation(
                notify@,
                notify_available,
                document::maybe_text(path),
                file.view(),
            ) == Ok::<Seq<char>, Seq<char>>(installation.content@) && text::texts(
                installation.commands@,
            ) == codex_commands(notify@, events::codex_events()),
            Err(message) => codex_installation(
                notify@,
                notify_available,
                document::maybe_text(path),
                file.view(),
            ) == Err::<Seq<char>, Seq<char>>(message@),
        },
        r matches Ok(installation) ==> (shell::names_notify(notify@) ==> hook_file::file_installed(
            notify_available,
            Some(installation.content@),
            events::codex_events(),
        )),
        r matches Ok(installation) ==> (document::maybe_text(path) matches Some(place)
            && holds_hooks(
            installation.content@,
            place,
            file.view(),
            events::codex_events(),
            notify@,
            "codex"@,
        )),
{
    match path {
        None => Err("无 home 目录".to_owned()),
        Some(place) => {
            proof {
                events::lemma_codex_events();
                reveal_strlit("codex");
                assert(shell::all_plain("codex"@));
            }
            let names: Vec<String> = codex_hook_events();
            match install_hook_file(notify, notify_available, place, file, &names, "codex") {
                Err(message) => Err(message),
                Ok(content) => {
                    let ghost all = text::texts(names@);
                    let mut commands: Vec<String> = Vec::new();
                    let mut i: usize = 0;
                    while i < names.len()
                        invariant
                            all == text::texts(names@),
                            i <= names.len(),
                            commands@.len() == i,
                            forall|k: int|
                                0 <= k < i ==> (#[trigger] commands@[k])@ == shell::hook_command(
                                    notify@,
                                    "codex"@,
                                    all[k],
                                ),
                        decreases names.len() - i,
                    {
                        let command: String = provider_hook_command(
                            notify,
                            "codex",
                            names[i].as_str(),
                        );
                        commands.push(command);
                        i = i + 1;
                    }
                    assert(text::texts(commands@) =~= codex_commands(notify@, all));
                    Ok(CodexInstallation { content, commands })
                },
            }
        },
    }
}

/// How installing Codex's hooks ends once its file is written.
pub fn codex_trust_outcome(attempt: TrustAttempt) -> (r: Result<(), String>)
    ensures
        document::failure(r) == match attempt {
            TrustAttempt::Granted => None,
            TrustAttempt::NoDirectory(reason) => Some("读取当前目录失败："@ + reason@),
            TrustAttempt::Refused(reason) => Some(
                "Codex hooks 已安装，但自动信任失败："@ + reason@,
            ),
        },
{
    match attempt {
        TrustAttempt::Granted => Ok(()),
        TrustAttempt::NoDirectory(reason) => Err(
            concat("读取当前目录失败：", reason.as_str()),
        ),
        TrustAttempt::Refused(reason) => Err(
            concat("Codex hooks 已安装，但自动信任失败：", reason.as_str()),
        ),
    }
}

/// The text to write so that Codex's file has none of Smelt's hooks, if it has to change.
pub fn uninstall_codex_hooks(file: &HookFile) -> (r: Result<Option<String>, String>)
    ensures
        document::edit(r) == hook_file::removal(file.view(), events::codex_events()),
        document::edit(r) matches Ok(change) ==> !hook_file::file_installed(
            true,
            document::text_after(file.view(), change),
            events::codex_events(),
        ),
{
    proof {
        events::lemma_codex_events();
    }
    let names: Vec<String> = codex_hook_events();
    uninstall_hook_file(file, &names)
}

} // verus!
