//! Shell commands of agent hooks: how they are written and how they are recognised.

use vstd::prelude::*;

use crate::text;
use crate::text::{chars_of, contains, same_text};

verus! {

/// The words that `shell_words::split` finds in a line; nothing where a quote stays open.
pub uninterp spec fn split_outcome(line: Seq<char>) -> Option<Seq<Seq<char>>>;

/// `shell_words::quote` of a word.
pub uninterp spec fn quoted(word: Seq<char>) -> Seq<char>;

/// A character that stands for itself anywhere in a line.
pub open spec fn is_plain(c: char) -> bool {
    c != ' ' && c != '\t' && c != '\n' && c != '\'' && c != '"' && c != '\\' && c != '#'
}

/// A text of plain characters.
pub open spec fn all_plain(text: Seq<char>) -> bool {
    forall|i: int| 0 <= i < text.len() ==> is_plain(#[trigger] text[i])
}

/// Three pieces with one space between neighbours.
pub open spec fn spaced(a: Seq<char>, b: Seq<char>, c: Seq<char>) -> Seq<char> {
    a + seq![' '] + b + seq![' '] + c
}

/// `shell_words::split`: the words of a line, or nothing where a quote stays open. The
/// words depend on the line alone.
#[verifier::external_body]
fn split_words(line: &str) -> (r: Option<Vec<String>>)
    ensures
        match r {
            Some(words) => split_outcome(line@) == Some(text::texts(words@)),
            None => split_outcome(line@) is None,
        },
{
    shell_words::split(line).ok()
}

/// `shell_words::quote`: the quoted word depends on the word alone. Behind two words of
/// plain characters, `shell_words::split` gives the word back as it was.
#[verifier::external_body]
fn quote_word(word: &str) -> (r: String)
    ensures
        r@ == quoted(word@),
        forall|a: Seq<char>, b: Seq<char>|
            a.len() > 0 && b.len() > 0 && all_plain(a) && all_plain(b) ==> #[trigger] split_outcome(
                spaced(a, b, r@),
            ) == Some(seq![a, b, word@]),
{
    shell_words::quote(word).into_owned()
}

/// A character of a variable's name.
pub open spec fn is_name_char(c: char) -> bool {
    c == '_' || ('0' <= c <= '9') || ('a' <= c <= 'z') || ('A' <= c <= 'Z')
}

/// `word` assigns a variable: a name, then `=`.
pub open spec fn is_assignment(word: Seq<char>) -> bool {
    exists|at: int| assigns_at(word, at)
}

/// The name of an assignment ends at `at`.
pub open spec fn assigns_at(word: Seq<char>, at: int) -> bool {
    &&& 0 < at < word.len()
    &&& word[at] == '='
    &&& forall|i: int| 0 <= i < at ==> is_name_char(#[trigger] word[i])
}

/// The program that a line of words runs: the first that is no assignment.
pub open spec fn program(words: Seq<Seq<char>>) -> Option<Seq<char>>
    decreases words.len(),
{
    if words.len() == 0 {
        None
    } else if is_assignment(words[0]) {
        program(words.drop_first())
    } else {
        Some(words[0])
    }
}

/// Where the last component of `path` begins.
pub open spec fn component_start(path: Seq<char>) -> int
    decreases path.len(),
{
    if path.len() == 0 || path.last() == '/' {
        path.len() as int
    } else {
        component_start(path.drop_last())
    }
}

/// The last component of `path` that names something. Empty components and `.` do not
/// count, and a path that ends in `..` has none.
pub open spec fn file_name(path: Seq<char>) -> Option<Seq<char>>
    decreases path.len(),
{
    let start = component_start(path);
    let component = path.skip(start);
    if component.len() == 0 || component == seq!['.'] {
        if 0 < start <= path.len() {
            file_name(path.take(start - 1))
        } else {
            None
        }
    } else if component == seq!['.', '.'] {
        None
    } else {
        Some(component)
    }
}

/// A path that, as the program of a command, runs `smelt-notify`.
pub open spec fn names_notify(path: Seq<char>) -> bool {
    !is_assignment(path) && file_name(path) == Some("smelt-notify"@)
}

/// The words run `smelt-notify`.
pub open spec fn words_run_notify(words: Seq<Seq<char>>) -> bool {
    program(words) matches Some(word) && file_name(word) == Some("smelt-notify"@)
}

/// The command runs `smelt-notify`.
pub open spec fn runs_notify(command: Seq<char>) -> bool {
    split_outcome(command) matches Some(words) && words_run_notify(words)
}

/// The command runs `smelt-notify` for `event`.
pub open spec fn runs_notify_for(command: Seq<char>, event: Seq<char>) -> bool {
    runs_notify(command) && text::contains_text(command, event_setting(event))
}

/// The assignment that tells `smelt-notify` the event.
pub open spec fn event_setting(event: Seq<char>) -> Seq<char> {
    "SMELT_HOOK_EVENT="@ + event
}

/// The assignment that tells `smelt-notify` the agent.
pub open spec fn provider_setting(provider: Seq<char>) -> Seq<char> {
    "SMELT_HOOK_PROVIDER="@ + provider
}

/// The command that reports `event` of `provider` through the helper at `notify`.
pub open spec fn hook_command(notify: Seq<char>, provider: Seq<char>, event: Seq<char>) -> Seq<char> {
    spaced(provider_setting(provider), event_setting(event), quoted(notify))
}

proof fn lemma_component_start(path: Seq<char>)
    ensures
        0 <= component_start(path) <= path.len(),
    decreases path.len(),
{
    if path.len() > 0 && path.last() != '/' {
        lemma_component_start(path.drop_last());
    }
}

fn is_name_text_char(c: char) -> (r: bool)
    ensures
        r == is_name_char(c),
{
    c == '_' || ('0' <= c && c <= '9') || ('a' <= c && c <= 'z') || ('A' <= c && c <= 'Z')
}

fn word_is_assignment(word: &str) -> (r: bool)
    ensures
        r == is_assignment(word@),
{
    let w: Vec<char> = chars_of(word);
    let mut i: usize = 0;
    while i < w.len() && is_name_text_char(w[i])
        invariant
            w@ == word@,
            i <= w.len(),
            forall|k: int| 0 <= k < i ==> is_name_char(#[trigger] w@[k]),
        decreases w.len() - i,
    {
        i = i + 1;
    }
    proof {
        if i < w.len() && i > 0 && w@[i as int] == '=' {
            assert(assigns_at(word@, i as int));
        } else if is_assignment(word@) {
            let at = choose|at: int| assigns_at(word@, at);
            if at > i {
                assert(is_name_char(word@[i as int]));
            }
            assert(false);
        }
    }
    i > 0 && i < w.len() && w[i] == '='
}

/// The last component of `path` that names something.
pub fn path_file_name(path: &str) -> (r: Option<String>)
    ensures
        match r {
            Some(name) => file_name(path@) == Some(name@),
            None => file_name(path@) is None,
        },
{
    let p: Vec<char> = chars_of(path);
    let mut end: usize = p.len();
    assert(p@.take(end as int) =~= p@);
    loop
        invariant
            p@ == path@,
            end <= p.len(),
            file_name(path@) == file_name(p@.take(end as int)),
        decreases end,
    {
        let ghost prefix = p@.take(end as int);
        let mut start: usize = end;
        assert(p@.take(start as int) =~= prefix);
        while start > 0 && p[start - 1] != '/'
            invariant
                start <= end <= p.len(),
                component_start(p@.take(end as int)) == component_start(p@.take(start as int)),
            decreases start,
        {
            assert(p@.take(start as int).drop_last() =~= p@.take(start - 1));
            start = start - 1;
        }
        assert(component_start(prefix) == start);
        assert(prefix.skip(start as int) =~= p@.subrange(start as int, end as int));
        let ghost component = prefix.skip(start as int);
        let size: usize = end - start;
        if size == 0 || (size == 1 && p[start] == '.') {
            assert(component.len() == 0 || component =~= seq!['.']);
            if start == 0 {
                return None;
            }
            assert(prefix.take(start - 1) =~= p@.take(start - 1));
            end = start - 1;
        } else if size == 2 && p[start] == '.' && p[start + 1] == '.' {
            assert(component =~= seq!['.', '.']);
            return None;
        } else {
            assert(size == 1 ==> component[0] != '.');
            assert(size == 2 ==> component[0] != '.' || component[1] != '.');
            return Some(path.substring_char(start, end).to_owned());
        }
    }
}

/// Whether a line of words runs `smelt-notify`. Leading assignments are passed over.
pub fn words_use_smelt_notify(words: &Vec<String>) -> (r: bool)
    ensures
        r == words_run_notify(text::texts(words@)),
{
    let ghost all = text::texts(words@);
    let mut i: usize = 0;
    assert(all.skip(0) =~= all);
    while i < words.len() && word_is_assignment(words[i].as_str())
        invariant
            all == text::texts(words@),
            i <= words.len(),
            program(all) == program(all.skip(i as int)),
        decreases words.len() - i,
    {
        assert(all.skip(i as int).drop_first() =~= all.skip(i + 1));
        i = i + 1;
    }
    if i == words.len() {
        return false;
    }
    assert(program(all) == Some(words@[i as int]@));
    match path_file_name(words[i].as_str()) {
        Some(name) => same_text(name.as_str(), "smelt-notify"),
        None => false,
    }
}

/// Whether a command runs `smelt-notify`, and so belongs to Smelt.
pub fn command_uses_smelt_notify(command: &str) -> (r: bool)
    ensures
        r == runs_notify(command@),
{
    match split_words(command) {
        Some(words) => words_use_smelt_notify(&words),
        None => false,
    }
}

/// Whether a command is Smelt's and reports `event`.
pub fn command_uses_current_smelt_hook(command: &str, event: &str) -> (r: bool)
    ensures
        r == runs_notify_for(command@, event@),
{
    let mut setting: String = "SMELT_HOOK_EVENT=".to_owned();
    setting.append(event);
    command_uses_smelt_notify(command) && contains(command, setting.as_str())
}

/// The command that reports `event` of `provider` through the helper at `notify`.
///
/// It is recognised as Smelt's own, for this event, where the helper bears its name.
pub fn provider_hook_command(notify: &str, provider: &str, event: &str) -> (r: String)
    ensures
        r@ == hook_command(notify@, provider@, event@),
        names_notify(notify@) && all_plain(provider@) && all_plain(event@) ==> runs_notify_for(
            r@,
            event@,
        ),
{
    let mut command: String = "SMELT_HOOK_PROVIDER=".to_owned();
    command.append(provider);
    command.append(" SMELT_HOOK_EVENT=");
    command.append(event);
    command.append(" ");
    let word: String = quote_word(notify);
    command.append(word.as_str());
    proof {
        reveal_strlit(" ");
        reveal_strlit(" SMELT_HOOK_EVENT=");
        reveal_strlit("SMELT_HOOK_EVENT=");
        reveal_strlit("SMELT_HOOK_PROVIDER=");
        assert(command@ =~= hook_command(notify@, provider@, event@));
        if names_notify(notify@) && all_plain(provider@) && all_plain(event@) {
            lemma_own_command(notify@, provider@, event@);
        }
    }
    command
}

proof fn lemma_own_command(notify: Seq<char>, provider: Seq<char>, event: Seq<char>)
    requires
        names_notify(notify),
        all_plain(provider),
        all_plain(event),
        forall|a: Seq<char>, b: Seq<char>|
            a.len() > 0 && b.len() > 0 && all_plain(a) && all_plain(b) ==> #[trigger] split_outcome(
                spaced(a, b, quoted(notify)),
            ) == Some(seq![a, b, notify]),
    ensures
        runs_notify_for(hook_command(notify, provider, event), event),
{
    let a = provider_setting(provider);
    let b = event_setting(event);
    let line = hook_command(notify, provider, event);
    reveal_strlit("SMELT_HOOK_EVENT=");
    reveal_strlit("SMELT_HOOK_PROVIDER=");
    assert forall|i: int| 0 <= i < a.len() implies is_plain(#[trigger] a[i]) by {
        if i >= 20 {
            assert(a[i] == provider[i - 20]);
        }
    }
    assert forall|i: int| 0 <= i < b.len() implies is_plain(#[trigger] b[i]) by {
        if i >= 17 {
            assert(b[i] == event[i - 17]);
        }
    }
    assert(assigns_at(a, 19));
    assert(assigns_at(b, 16));
    let words = seq![a, b, notify];
    assert(words.drop_first() =~= seq![b, notify]);
    assert(words.drop_first().drop_first() =~= seq![notify]);
    reveal_with_fuel(program, 4);
    assert(split_outcome(line) == Some(words));
    let at = a.len() as int + 1;
    assert(line.subrange(at, at + b.len()) =~= b);
    assert(text::stands_at(line, b, at));
}

} // verus!
