//! What texts, commands and paths promise.

use vstd::prelude::*;

use crate::shell;
use crate::shell::{
    command_uses_current_smelt_hook, command_uses_smelt_notify, path_file_name,
    provider_hook_command, words_use_smelt_notify,
};
use crate::text;
use crate::text::{
    chars_of, concat, contains, decimal_text, is_text_before, join, same_text, starts_with, trim,
};

verus! {

/// The character is white space.
pub open spec fn is_white(c: char) -> bool {
    let n = c as u32;
    ||| 9 <= n <= 13
    ||| n == 32
    ||| n == 133
    ||| n == 160
    ||| n == 5760
    ||| 8192 <= n <= 8202
    ||| n == 8232
    ||| n == 8233
    ||| n == 8239
    ||| n == 8287
    ||| n == 12288
}

/// The text is white space and nothing else.
pub open spec fn all_white(content: Seq<char>) -> bool {
    forall|i: int| 0 <= i < content.len() ==> is_white(#[trigger] content[i])
}

proof fn lemma_white(c: char)
    ensures
        text::is_space(c) <==> is_white(c),
{
}

proof fn lemma_trimmed(content: Seq<char>) -> (around: (Seq<char>, Seq<char>))
    ensures
        content == around.0 + text::trimmed(content) + around.1,
        all_white(around.0),
        all_white(around.1),
        text::trimmed(content).len() > 0 ==> !is_white(text::trimmed(content).first())
            && !is_white(text::trimmed(content).last()),
    decreases content.len(),
{
    let none = Seq::<char>::empty();
    if content.len() == 0 {
        assert(content =~= none + text::trimmed(content) + none);
        (none, none)
    } else if text::is_space(content.first()) {
        let around = lemma_trimmed(content.drop_first());
        let front = seq![content.first()] + around.0;
        assert(content =~= seq![content.first()] + content.drop_first());
        assert(content =~= front + text::trimmed(content) + around.1);
        (front, around.1)
    } else if text::is_space(content.last()) {
        let around = lemma_trimmed(content.drop_last());
        let back = around.1.push(content.last());
        assert(content =~= content.drop_last().push(content.last()));
        assert(content =~= around.0 + text::trimmed(content) + back);
        (around.0, back)
    } else {
        lemma_white(content.first());
        lemma_white(content.last());
        assert(text::trimmed(content) == content);
        assert(content =~= none + text::trimmed(content) + none);
        (none, none)
    }
}

/// The text is the other one with white space around it.
pub open spec fn surrounds(content: Seq<char>, core: Seq<char>) -> bool {
    exists|before: Seq<char>, after: Seq<char>|
        #[trigger] (before + core + after) == content && all_white(before) && all_white(after)
}

/// Trimming takes away white space at both ends, all of it, and nothing else.
pub proof fn trimming_takes_white_space(content: &str, r: String)
    requires
        call_ensures(trim, (content,), r),
    ensures
        surrounds(content@, r@),
        r@.len() > 0 ==> !is_white(r@.first()) && !is_white(r@.last()),
{
    let around = lemma_trimmed(content@);
    assert(around.0 + r@ + around.1 == content@);
}

/// A text contains another where it is that one with something before and behind it; it starts
/// with it where nothing is before.
pub proof fn contained_texts_are_part(
    content: &str,
    needle: &str,
    holds: bool,
    leads: bool,
    before: Seq<char>,
    after: Seq<char>,
)
    requires
        call_ensures(contains, (content, needle), holds),
        call_ensures(starts_with, (content, needle), leads),
    ensures
        content@ == before + needle@ + after ==> holds,
        content@ == needle@ + after ==> leads,
        holds ==> exists|a: Seq<char>, b: Seq<char>| #[trigger] (a + needle@ + b) == content@,
        leads ==> exists|b: Seq<char>| #[trigger] (needle@ + b) == content@,
{
    if content@ == before + needle@ + after {
        let at = before.len() as int;
        assert(content@.subrange(at, at + needle@.len()) =~= needle@);
        assert(text::stands_at(content@, needle@, at));
    }
    if content@ == needle@ + after {
        assert(content@.take(needle@.len() as int) =~= needle@);
    }
    if holds {
        let at = choose|at: int| text::stands_at(content@, needle@, at);
        let a = content@.take(at);
        let b = content@.skip(at + needle@.len());
        assert(a + needle@ + b =~= content@);
    }
    if leads {
        let b = content@.skip(needle@.len() as int);
        assert(needle@ + b =~= content@);
    }
}

/// Texts are the same where they have the same letters; put together, one follows the other.
pub proof fn texts_are_their_letters(
    a: &str,
    b: &str,
    same: bool,
    both: String,
    letters: Vec<char>,
)
    requires
        call_ensures(same_text, (a, b), same),
        call_ensures(concat, (a, b), both),
        call_ensures(chars_of, (a,), letters),
    ensures
        same <==> a@ =~= b@,
        both@.len() == a@.len() + b@.len(),
        both@.subrange(0, a@.len() as int) == a@,
        both@.subrange(a@.len() as int, both@.len() as int) == b@,
        letters@ == a@,
{
    assert(both@.subrange(0, a@.len() as int) =~= a@);
    assert(both@.subrange(a@.len() as int, both@.len() as int) =~= b@);
}

/// One text comes before another at the first place where they differ: by its letter there, or by
/// ending there.
pub open spec fn precedes(a: Seq<char>, b: Seq<char>) -> bool {
    exists|k: int|
        0 <= k <= a.len() && k < b.len() && #[trigger] a.take(k) == b.take(k) && (k == a.len()
            || a[k] < b[k])
}

proof fn lemma_text_before(a: Seq<char>, b: Seq<char>)
    ensures
        text::text_before(a, b) <==> precedes(a, b),
    decreases a.len(),
{
    if b.len() == 0 {
    } else if a.len() == 0 {
        assert(a.take(0) =~= b.take(0));
    } else if a[0] < b[0] {
        assert(a.take(0) =~= b.take(0));
        assert(precedes(a, b));
    } else {
        let (s, t) = (a.drop_first(), b.drop_first());
        lemma_text_before(s, t);
        if a[0] == b[0] {
            if precedes(s, t) {
                let k = choose|k: int|
                    0 <= k <= s.len() && k < t.len() && #[trigger] s.take(k) == t.take(k) && (k
                        == s.len() || s[k] < t[k]);
                assert(a.take(k + 1) =~= seq![a[0]] + s.take(k));
                assert(b.take(k + 1) =~= seq![b[0]] + t.take(k));
                assert(a.take(k + 1) == b.take(k + 1));
                assert(precedes(a, b));
            }
            if precedes(a, b) {
                let k = choose|k: int|
                    0 <= k <= a.len() && k < b.len() && #[trigger] a.take(k) == b.take(k) && (k
                        == a.len() || a[k] < b[k]);
                assert(k > 0);
                assert(a.take(k).drop_first() =~= s.take(k - 1));
                assert(b.take(k).drop_first() =~= t.take(k - 1));
                assert(s.take(k - 1) == t.take(k - 1));
                assert(precedes(s, t));
            }
        } else {
            if precedes(a, b) {
                let k = choose|k: int|
                    0 <= k <= a.len() && k < b.len() && #[trigger] a.take(k) == b.take(k) && (k
                        == a.len() || a[k] < b[k]);
                if k > 0 {
                    assert(a.take(k)[0] == a[0]);
                    assert(b.take(k)[0] == b[0]);
                }
            }
        }
    }
}

/// Texts are ordered letter by letter, and the shorter first where one begins the other.
pub proof fn texts_are_ordered_by_letters(a: &str, b: &str, r: bool)
    requires
        call_ensures(is_text_before, (a, b), r),
    ensures
        r <==> precedes(a@, b@),
{
    lemma_text_before(a@, b@);
}

/// The number that digits stand for.
pub open spec fn value(digits: Seq<char>) -> int
    decreases digits.len(),
{
    if digits.len() == 0 {
        0
    } else {
        value(digits.drop_last()) * 10 + (digits.last() as int - 48)
    }
}

proof fn lemma_decimal(n: nat)
    ensures
        value(text::decimal(n)) == n,
        text::decimal(n).len() > 0,
        forall|i: int|
            0 <= i < text::decimal(n).len() ==> '0' <= #[trigger] text::decimal(n)[i] <= '9',
        n > 0 ==> text::decimal(n)[0] != '0',
    decreases n,
{
    if n < 10 {
        let digits = text::decimal(n);
        assert(digits.drop_last() =~= Seq::<char>::empty());
        assert(value(digits.drop_last()) == 0);
    } else {
        lemma_decimal(n / 10);
        let digits = text::decimal(n);
        assert(digits.drop_last() =~= text::decimal(n / 10));
    }
}

/// A number is written in digits that stand for it, without zeros in front.
pub proof fn numbers_are_written_in_digits(n: u64, r: String, i: int)
    requires
        call_ensures(decimal_text, (n,), r),
    ensures
        value(r@) == n,
        r@.len() > 0,
        0 <= i < r@.len() ==> '0' <= r@[i] <= '9',
        n > 0 ==> r@[0] != '0',
{
    lemma_decimal(n as nat);
}

/// Joined texts follow each other with the separator between them, and only between them.
pub proof fn separators_stand_between(
    items: &Vec<String>,
    more: &Vec<String>,
    separator: &str,
    shorter: String,
    longer: String,
)
    requires
        call_ensures(join, (items, separator), shorter),
        call_ensures(join, (more, separator), longer),
        more@.len() == items@.len() + 1,
        more@.drop_last() == items@,
    ensures
        items@.len() == 0 ==> shorter@.len() == 0 && longer@ == more@.last()@,
        items@.len() > 0 ==> longer@ == shorter@ + separator@ + more@.last()@,
{
    let all = text::texts(more@);
    assert(all.drop_last() =~= text::texts(items@));
    assert(all.last() == more@.last()@);
}

proof fn lemma_component(dir: Seq<char>, name: Seq<char>)
    requires
        forall|i: int| 0 <= i < name.len() ==> #[trigger] name[i] != '/',
        dir.len() == 0 || dir.last() == '/',
    ensures
        shell::component_start(dir + name) == dir.len(),
    decreases name.len(),
{
    let path = dir + name;
    if name.len() == 0 {
        assert(path =~= dir);
    } else {
        assert(path.last() == name.last());
        assert(path.drop_last() =~= dir + name.drop_last());
        lemma_component(dir, name.drop_last());
    }
}

/// The name of a file is what follows the last slash; slashes at the end do not count, and the
/// parent of a directory has no name.
pub proof fn names_follow_the_last_slash(
    path: &str,
    r: Option<String>,
    dir: Seq<char>,
    name: Seq<char>,
)
    requires
        call_ensures(path_file_name, (path,), r),
        path@ == dir + name,
        dir.len() == 0 || dir.last() == '/',
        forall|i: int| 0 <= i < name.len() ==> #[trigger] name[i] != '/',
    ensures
        name.len() > 0 && name != seq!['.'] && name != seq!['.', '.'] ==> r is Some && (r->0)@
            == name,
        name == seq!['.', '.'] ==> r is None,
        path@.len() == 0 ==> r is None,
{
    lemma_component(dir, name);
    assert(path@.skip(dir.len() as int) =~= name);
    if path@.len() == 0 {
        assert(name =~= Seq::<char>::empty());
    }
}

/// A slash or a dot behind a slash at the end changes no name.
pub proof fn trailing_slashes_do_not_count(
    path: &str,
    longer: &str,
    r: Option<String>,
    other: Option<String>,
)
    requires
        call_ensures(path_file_name, (path,), r),
        call_ensures(path_file_name, (longer,), other),
        longer@ == path@ + seq!['/'] || longer@ == path@ + seq!['/', '.'],
    ensures
        r is Some <==> other is Some,
        r is Some ==> (r->0)@ == (other->0)@,
{
    let full = longer@;
    let none = Seq::<char>::empty();
    if full == path@ + seq!['/'] {
        lemma_component(full, none);
        assert(full + none =~= full);
        assert(full.skip(full.len() as int) =~= none);
        assert(full.take(full.len() - 1) =~= path@);
    } else {
        let dir = path@ + seq!['/'];
        lemma_component(dir, seq!['.']);
        assert(full =~= dir + seq!['.']);
        assert(full.skip(dir.len() as int) =~= seq!['.']);
        assert(full.take(dir.len() - 1) =~= path@);
    }
}

/// The word sets a variable: letters, digits and lines, and then an equals sign.
pub open spec fn sets_variable(word: Seq<char>) -> bool {
    exists|at: int|
        0 < at < word.len() && #[trigger] word[at] == '=' && forall|i: int|
            0 <= i < at ==> (word[i] == '_' || '0' <= #[trigger] word[i] <= '9' || 'a' <= word[i]
                <= 'z' || 'A' <= word[i] <= 'Z')
}

proof fn lemma_assignment(word: Seq<char>)
    ensures
        shell::is_assignment(word) <==> sets_variable(word),
{
    if shell::is_assignment(word) {
        let at = choose|at: int| shell::assigns_at(word, at);
        assert(word[at] == '=');
        assert forall|i: int| 0 <= i < at implies (word[i] == '_' || '0' <= #[trigger] word[i] <= '9'
            || 'a' <= word[i] <= 'z' || 'A' <= word[i] <= 'Z') by {
            assert(shell::is_name_char(word[i]));
        }
    }
    if sets_variable(word) {
        let at = choose|at: int|
            0 < at < word.len() && #[trigger] word[at] == '=' && forall|i: int|
                0 <= i < at ==> (word[i] == '_' || '0' <= #[trigger] word[i] <= '9' || 'a' <= word[i]
                    <= 'z' || 'A' <= word[i] <= 'Z');
        assert(shell::assigns_at(word, at));
    }
}

proof fn lemma_program(words: Seq<Seq<char>>, k: int)
    requires
        0 <= k <= words.len(),
        forall|i: int| 0 <= i < k ==> sets_variable(#[trigger] words[i]),
        k < words.len() ==> !sets_variable(words[k]),
    ensures
        shell::program(words) == if k < words.len() {
            Some(words[k])
        } else {
            None
        },
    decreases words.len(),
{
    if words.len() > 0 {
        lemma_assignment(words[0]);
        if k > 0 {
            assert(sets_variable(words[0]));
            let rest = words.drop_first();
            assert forall|i: int| 0 <= i < k - 1 implies sets_variable(#[trigger] rest[i]) by {
                assert(rest[i] == words[i + 1]);
            }
            lemma_program(rest, k - 1);
        }
    }
}

/// A command is Smelt's where the first word that sets no variable is the path of its helper, and
/// only there.
pub proof fn commands_are_smelts_by_their_program(
    words: &Vec<String>,
    r: bool,
    k: int,
    path: &str,
    name: Option<String>,
)
    requires
        call_ensures(words_use_smelt_notify, (words,), r),
        call_ensures(path_file_name, (path,), name),
        0 <= k <= words@.len(),
        forall|i: int| 0 <= i < k ==> sets_variable((#[trigger] words@[i])@),
        k < words@.len() ==> !sets_variable(words@[k]@) && words@[k]@ == path@,
    ensures
        k == words@.len() ==> !r,
        k < words@.len() ==> (r <==> name is Some && (name->0)@ == "smelt-notify"@),
{
    let all = text::texts(words@);
    assert forall|i: int| 0 <= i < k implies sets_variable(#[trigger] all[i]) by {
        assert(all[i] == words@[i]@);
    }
    if k < words@.len() {
        assert(all[k] == words@[k]@);
    }
    assert(all.len() == words@.len());
    lemma_program(all, k);
}

/// A command is judged by its words, and one that cannot be split into words is not Smelt's; it is
/// the one for an event where it also names the event.
pub proof fn commands_are_judged_by_their_words(
    command: &str,
    event: &str,
    r: bool,
    current: bool,
    words: &Vec<String>,
    judged: bool,
)
    requires
        call_ensures(command_uses_smelt_notify, (command,), r),
        call_ensures(command_uses_current_smelt_hook, (command, event), current),
        call_ensures(words_use_smelt_notify, (words,), judged),
    ensures
        shell::split_outcome(command@) is None ==> !r,
        shell::split_outcome(command@) == Some(text::texts(words@)) ==> r == judged,
        current <==> r && exists|a: Seq<char>, b: Seq<char>|
            #[trigger] (a + ("SMELT_HOOK_EVENT="@ + event@) + b) == command@,
{
    let needle = "SMELT_HOOK_EVENT="@ + event@;
    if text::contains_text(command@, needle) {
        let at = choose|at: int| text::stands_at(command@, needle, at);
        let a = command@.take(at);
        let b = command@.skip(at + needle.len());
        assert(a + needle + b =~= command@);
    }
    if exists|a: Seq<char>, b: Seq<char>| #[trigger] (a + needle + b) == command@ {
        let (a, b) = choose|a: Seq<char>, b: Seq<char>| #[trigger] (a + needle + b) == command@;
        let at = a.len() as int;
        assert(command@.subrange(at, at + needle.len()) =~= needle);
        assert(text::stands_at(command@, needle, at));
    }
}

/// The command of a hook sets the provider and the event, and runs the helper.
pub proof fn hook_commands_name_provider_and_event(
    notify: &str,
    provider: &str,
    event: &str,
    r: String,
)
    requires
        call_ensures(provider_hook_command, (notify, provider, event), r),
    ensures
        r@ == "SMELT_HOOK_PROVIDER="@ + provider@ + " SMELT_HOOK_EVENT="@ + event@ + " "@
            + shell::quoted(notify@),
{
    reveal_strlit("SMELT_HOOK_EVENT=");
    reveal_strlit(" SMELT_HOOK_EVENT=");
    reveal_strlit(" ");
    assert(" SMELT_HOOK_EVENT="@ =~= seq![' '] + "SMELT_HOOK_EVENT="@);
    assert(" "@ =~= seq![' ']);
    assert(r@ =~= "SMELT_HOOK_PROVIDER="@ + provider@ + " SMELT_HOOK_EVENT="@ + event@ + " "@
        + shell::quoted(notify@));
}

} // verus!
