//! Matching what users type against titles and keywords.

use vstd::prelude::*;

use crate::text;
use crate::text::{chars_of, contains, join};

verus! {

/// `str::to_lowercase` of a text.
pub uninterp spec fn lowercase(content: Seq<char>) -> Seq<char>;

/// `char::is_alphanumeric` of a character.
pub uninterp spec fn is_letter(c: char) -> bool;

/// `str::to_lowercase`: the lower-case text depends on the text alone.
#[verifier::external_body]
fn to_lowercase(content: &str) -> (r: String)
    ensures
        r@ == lowercase(content@),
{
    content.to_lowercase()
}

/// `char::is_alphanumeric`: the answer depends on the character alone.
#[verifier::external_body]
fn is_alphanumeric(c: char) -> (r: bool)
    ensures
        r == is_letter(c),
{
    c.is_alphanumeric()
}

/// Which characters of a text are letters or digits.
pub open spec fn letters(content: Seq<char>) -> Seq<bool> {
    content.map_values(|c: char| is_letter(c))
}

/// The characters that are marked.
pub open spec fn marked(content: Seq<char>, marks: Seq<bool>) -> Seq<char>
    decreases content.len(),
{
    if content.len() == 0 {
        seq![]
    } else {
        let before = marked(content.drop_last(), marks);
        if marks[content.len() - 1] {
            before.push(content.last())
        } else {
            before
        }
    }
}

/// The runs of marked characters that end before `end`, and the one that goes on there.
pub open spec fn runs_before(content: Seq<char>, marks: Seq<bool>, end: int) -> (
    Seq<Seq<char>>,
    Seq<char>,
)
    decreases end,
{
    if end <= 0 {
        (seq![], seq![])
    } else {
        let (ended, open_run) = runs_before(content, marks, end - 1);
        if marks[end - 1] {
            (ended, open_run.push(content[end - 1]))
        } else {
            (with_run(ended, open_run), seq![])
        }
    }
}

/// The runs, with one more unless it is empty.
pub open spec fn with_run(ended: Seq<Seq<char>>, run: Seq<char>) -> Seq<Seq<char>> {
    if run.len() > 0 {
        ended.push(run)
    } else {
        ended
    }
}

/// The longest runs of marked characters, in order.
pub open spec fn runs(content: Seq<char>, marks: Seq<bool>) -> Seq<Seq<char>> {
    let (ended, open_run) = runs_before(content, marks, content.len() as int);
    with_run(ended, open_run)
}

/// The letters and digits of a text.
pub open spec fn compact(content: Seq<char>) -> Seq<char> {
    marked(content, letters(content))
}

/// The words of a query that are looked for, from the query in lower case. One without
/// letters and digits is looked for as it is.
pub open spec fn terms_of(lowered: Seq<char>, marks: Seq<bool>) -> Seq<Seq<char>> {
    if runs(lowered, marks).len() == 0 {
        seq![lowered]
    } else {
        runs(lowered, marks)
    }
}

/// The words of a query that are looked for.
pub open spec fn terms(query: Seq<char>) -> Seq<Seq<char>> {
    terms_of(lowercase(query), letters(lowercase(query)))
}

/// A text to search in or for: in lower case, and its letters and digits alone.
#[derive(Debug, PartialEq, Eq)]
pub struct SearchText {
    pub folded: String,
    pub compact: String,
}

/// `term` is found in `haystack`, as it is or, where it has letters or digits, by those alone.
pub open spec fn found_in(
    haystack: Seq<char>,
    compact_haystack: Seq<char>,
    term: Seq<char>,
    compact_term: Seq<char>,
) -> bool {
    text::contains_text(haystack, term) || (compact_term.len() > 0 && text::contains_text(
        compact_haystack,
        compact_term,
    ))
}

/// What is searched: all values in lower case, with spaces between them.
pub open spec fn haystack(values: Seq<Seq<char>>) -> Seq<char> {
    text::joined(values.map_values(|value: Seq<char>| lowercase(value)), " "@)
}

/// `term` is found among the values.
pub open spec fn term_found(values: Seq<Seq<char>>, term: Seq<char>) -> bool {
    found_in(haystack(values), compact(haystack(values)), term, compact(term))
}

/// Every term is found among the values.
pub open spec fn query_found(values: Seq<Seq<char>>, words: Seq<Seq<char>>) -> bool {
    forall|i: int| 0 <= i < words.len() ==> term_found(values, #[trigger] words[i])
}

/// Some term is found among the values.
pub open spec fn any_found(values: Seq<Seq<char>>, words: Seq<Seq<char>>) -> bool {
    exists|i: int| 0 <= i < words.len() && term_found(values, #[trigger] words[i])
}

fn letter_marks(content: &str) -> (r: Vec<bool>)
    ensures
        r@ == letters(content@),
{
    let all: Vec<char> = chars_of(content);
    let mut out: Vec<bool> = Vec::new();
    let mut i: usize = 0;
    while i < all.len()
        invariant
            all@ == content@,
            i <= all.len(),
            out@ == letters(content@).take(i as int),
        decreases all.len() - i,
    {
        out.push(is_alphanumeric(all[i]));
        assert(out@ =~= letters(content@).take(i + 1));
        i = i + 1;
    }
    assert(letters(content@).take(i as int) =~= letters(content@));
    out
}

/// The characters of `content` that are marked.
pub fn marked_text(content: &str, marks: &Vec<bool>) -> (r: String)
    requires
        marks@.len() == content@.len(),
    ensures
        r@ == marked(content@, marks@),
{
    let mut out: String = String::new();
    let mut i: usize = 0;
    assert(content@.take(0) =~= seq![]);
    while i < marks.len()
        invariant
            marks@.len() == content@.len(),
            i <= marks.len(),
            out@ == marked(content@.take(i as int), marks@),
        decreases marks.len() - i,
    {
        assert(content@.take(i + 1).drop_last() =~= content@.take(i as int));
        if marks[i] {
            let piece: &str = content.substring_char(i, i + 1);
            out.append(piece);
            assert(out@ =~= marked(content@.take(i + 1), marks@));
        }
        i = i + 1;
    }
    assert(content@.take(i as int) =~= content@);
    out
}

/// The longest runs of marked characters, in order.
pub fn marked_runs(content: &str, marks: &Vec<bool>) -> (r: Vec<String>)
    requires
        marks@.len() == content@.len(),
    ensures
        text::texts(r@) == runs(content@, marks@),
{
    let mut ended: Vec<String> = Vec::new();
    let mut open_run: String = String::new();
    let mut i: usize = 0;
    assert(text::texts(ended@) =~= seq![]);
    while i < marks.len()
        invariant
            marks@.len() == content@.len(),
            i <= marks.len(),
            (text::texts(ended@), open_run@) == runs_before(content@, marks@, i as int),
        decreases marks.len() - i,
    {
        if marks[i] {
            let piece: &str = content.substring_char(i, i + 1);
            let ghost before = open_run@;
            open_run.append(piece);
            assert(open_run@ =~= before.push(content@[i as int]));
        } else {
            let ghost before = ended@;
            let run: String = open_run;
            open_run = String::new();
            if !run.as_str().is_empty() {
                ended.push(run);
                assert(text::texts(ended@) =~= text::texts(before).push(run@));
            }
        }
        i = i + 1;
    }
    if !open_run.as_str().is_empty() {
        let ghost before = ended@;
        ended.push(open_run);
        assert(text::texts(ended@) =~= text::texts(before).push(open_run@));
    }
    ended
}

/// The words of a query that are looked for, from the query in lower case and the marks of
/// its letters and digits.
pub fn split_terms(lowered: String, marks: &Vec<bool>) -> (r: Vec<String>)
    requires
        marks@.len() == lowered@.len(),
    ensures
        text::texts(r@) == terms_of(lowered@, marks@),
{
    let found: Vec<String> = marked_runs(lowered.as_str(), marks);
    assert(text::texts(found@).len() == found@.len());
    if found.len() == 0 {
        let mut whole: Vec<String> = Vec::new();
        whole.push(lowered);
        assert(text::texts(whole@) =~= seq![lowered@]);
        whole
    } else {
        found
    }
}

/// The words of a query that are looked for.
pub fn query_terms(query: &str) -> (r: Vec<String>)
    ensures
        text::texts(r@) == terms(query@),
{
    let lowered: String = to_lowercase(query);
    let marks: Vec<bool> = letter_marks(lowered.as_str());
    split_terms(lowered, &marks)
}

/// `content` in lower case.
pub fn folded(content: &str) -> (r: String)
    ensures
        r@ == lowercase(content@),
{
    to_lowercase(content)
}

fn search_text(content: String) -> (r: SearchText)
    ensures
        r.folded@ == content@,
        r.compact@ == compact(content@),
{
    let marks: Vec<bool> = letter_marks(content.as_str());
    let short: String = marked_text(content.as_str(), &marks);
    SearchText { folded: content, compact: short }
}

/// Whether `term` is found in `haystack`.
pub fn is_found(haystack: &SearchText, term: &SearchText) -> (r: bool)
    ensures
        r == found_in(haystack.folded@, haystack.compact@, term.folded@, term.compact@),
{
    contains(haystack.folded.as_str(), term.folded.as_str()) || (!term.compact.as_str().is_empty()
        && contains(haystack.compact.as_str(), term.compact.as_str()))
}

fn search_values(values: &Vec<String>) -> (r: SearchText)
    ensures
        r.folded@ == haystack(text::texts(values@)),
        r.compact@ == compact(haystack(text::texts(values@))),
{
    let ghost all = text::texts(values@);
    let ghost fold = |value: Seq<char>| lowercase(value);
    let mut lowered: Vec<String> = Vec::new();
    let mut i: usize = 0;
    while i < values.len()
        invariant
            all == text::texts(values@),
            fold == (|value: Seq<char>| lowercase(value)),
            i <= values.len(),
            lowered@.len() == i,
            forall|k: int| 0 <= k < i ==> (#[trigger] lowered@[k])@ == lowercase(all[k]),
        decreases values.len() - i,
    {
        lowered.push(to_lowercase(values[i].as_str()));
        i = i + 1;
    }
    assert(text::texts(lowered@) =~= all.map_values(fold));
    search_text(join(&lowered, " "))
}

/// Whether every term is found among the values.
pub fn matches_query(values: &Vec<String>, terms: &Vec<String>) -> (r: bool)
    ensures
        r == query_found(text::texts(values@), text::texts(terms@)),
{
    let searched: SearchText = search_values(values);
    let ghost words = text::texts(terms@);
    let ghost all = text::texts(values@);
    let mut i: usize = 0;
    while i < terms.len()
        invariant
            words == text::texts(terms@),
            all == text::texts(values@),
            searched.folded@ == haystack(all),
            searched.compact@ == compact(haystack(all)),
            i <= terms.len(),
            forall|k: int| 0 <= k < i ==> term_found(all, #[trigger] words[k]),
        decreases terms.len() - i,
    {
        let term: SearchText = search_text(terms[i].clone());
        if !is_found(&searched, &term) {
            assert(!term_found(all, words[i as int]));
            return false;
        }
        i = i + 1;
    }
    true
}

/// Whether some term is found among the values.
pub fn matches_any_term(values: &Vec<String>, terms: &Vec<String>) -> (r: bool)
    ensures
        r == any_found(text::texts(values@), text::texts(terms@)),
{
    let ghost words = text::texts(terms@);
    let ghost all = text::texts(values@);
    let mut i: usize = 0;
    while i < terms.len()
        invariant
            words == text::texts(terms@),
            all == text::texts(values@),
            i <= terms.len(),
            forall|k: int| 0 <= k < i ==> !term_found(all, #[trigger] words[k]),
        decreases terms.len() - i,
    {
        let mut one: Vec<String> = Vec::new();
        one.push(terms[i].clone());
        let found: bool = matches_query(values, &one);
        assert(text::texts(one@)[0] == words[i as int]);
        assert(text::texts(one@).len() == 1);
        if found {
            assert(term_found(all, words[i as int]));
            return true;
        }
        i = i + 1;
    }
    false
}

} // verus!
