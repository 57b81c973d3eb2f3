//! What the sidebar of the settings promises.

use vstd::prelude::*;

use crate::promises::lists;
use crate::settings::nav;
use crate::settings::nav::{
    filter_settings_nav, CategoryView, LeafView, SettingsCategoryId, SettingsNavCategory,
    SettingsNavLeaf,
};
use crate::settings::search;
use crate::settings::search::{
    folded, is_found, marked_runs, marked_text, matches_any_term, matches_query, query_terms,
    split_terms, SearchText,
};
use crate::text;

verus! {

/// The title or a keyword of the category is the text, whatever the case of their letters.
pub open spec fn is_called(category: SettingsNavCategory, name: Seq<char>) -> bool {
    ||| search::lowercase(category.title@) == search::lowercase(name)
    ||| exists|k: int|
        0 <= k < category.keywords@.len() && search::lowercase(
            (#[trigger] category.keywords@[k])@,
        ) == search::lowercase(name)
}

/// A category that is called what was searched for is found whole.
pub proof fn named_categories_are_found_whole(
    nav: &Vec<SettingsNavCategory>,
    query: &str,
    r: Vec<SettingsNavCategory>,
    c: int,
)
    requires
        call_ensures(filter_settings_nav, (nav, query), r),
        0 <= c < nav@.len(),
        nav@[c].children@.len() > 0,
        text::trimmed(query@).len() > 0,
        is_called(nav@[c], text::trimmed(query@)),
    ensures
        exists|k: int| 0 <= k < r@.len() && (#[trigger] r@[k]).view() == nav@[c].view(),
{
    let views = nav::nav_views(nav@);
    let wanted = text::trimmed(query@);
    let narrow_all = views.map_values(
        |category: CategoryView| nav::narrowed(category, text::trimmed(query@)),
    );
    let keep = |category: CategoryView| category.children.len() > 0;
    assert(nav::filtered(views, query@) == narrow_all.filter(keep));
    let category = nav@[c].view();
    assert(views[c] == category);
    assert(nav::names_category(category, wanted)) by {
        if search::lowercase(nav@[c].title@) != search::lowercase(wanted) {
            let k = choose|k: int|
                0 <= k < nav@[c].keywords@.len() && search::lowercase(
                    (#[trigger] nav@[c].keywords@[k])@,
                ) == search::lowercase(wanted);
            assert(category.keywords[k] == nav@[c].keywords@[k]@);
        }
    }
    let found = |leaf: LeafView| nav::leaf_found(category, leaf, wanted);
    lists::all_passing_items_stay(category.children, found);
    assert(nav::narrowed(category, wanted) == category);
    assert(category.children.len() == nav@[c].children@.len());
    assert(narrow_all[c] == category);
    lists::passing_items_are_picked(narrow_all, keep, c);
    let out = nav::nav_views(r@);
    let k = choose|k: int| 0 <= k < out.len() && out[k] == category;
    assert(out[k] == r@[k].view());
}

/// A search for nothing finds everything.
pub proof fn blank_searches_find_everything(
    nav: &Vec<SettingsNavCategory>,
    query: &str,
    r: Vec<SettingsNavCategory>,
    c: int,
)
    requires
        call_ensures(filter_settings_nav, (nav, query), r),
        text::trimmed(query@).len() == 0,
    ensures
        r@.len() == nav@.len(),
        0 <= c < r@.len() ==> r@[c].view() == nav@[c].view(),
{
    let out = nav::nav_views(r@);
    assert(out == nav::nav_views(nav@));
    assert(out.len() == r@.len());
    if 0 <= c < r@.len() {
        assert(out[c] == r@[c].view());
    }
}

proof fn lemma_part_of_part(outer: Seq<char>, middle: Seq<char>, inner: Seq<char>)
    requires
        text::contains_text(outer, middle),
        text::contains_text(middle, inner),
    ensures
        text::contains_text(outer, inner),
{
    let a = choose|a: int| text::stands_at(outer, middle, a);
    let b = choose|b: int| text::stands_at(middle, inner, b);
    let here = outer.subrange(a + b, a + b + inner.len());
    let there = middle.subrange(b, b + inner.len());
    assert(outer.subrange(a, a + middle.len()) == middle);
    assert forall|k: int| 0 <= k < inner.len() implies #[trigger] here[k] == there[k] by {
        assert(outer.subrange(a, a + middle.len())[b + k] == middle[b + k]);
    }
    assert(here =~= there);
    assert(text::stands_at(outer, inner, a + b));
}

proof fn lemma_joined_part(items: Seq<Seq<char>>, separator: Seq<char>, i: int)
    requires
        0 <= i < items.len(),
    ensures
        text::contains_text(text::joined(items, separator), items[i]),
    decreases items.len(),
{
    let all = text::joined(items, separator);
    if items.len() == 1 {
        assert(all.subrange(0, items[0].len() as int) =~= items[0]);
        assert(text::stands_at(all, items[i], 0));
    } else {
        let front = text::joined(items.drop_last(), separator);
        if i < items.len() - 1 {
            lemma_joined_part(items.drop_last(), separator, i);
            assert(all.subrange(0, front.len() as int) =~= front);
            assert(text::stands_at(all, front, 0));
            lemma_part_of_part(all, front, items[i]);
        } else {
            let at = (front + separator).len() as int;
            assert(all.subrange(at, at + items[i].len()) =~= items[i]);
            assert(text::stands_at(all, items[i], at));
        }
    }
}

proof fn lemma_runs_before(content: Seq<char>, marks: Seq<bool>, end: int)
    requires
        0 <= end <= content.len(),
    ensures
        ({
            let (ended, run) = search::runs_before(content, marks, end);
            &&& run.len() <= end
            &&& run == content.subrange(end - run.len(), end)
            &&& forall|i: int|
                0 <= i < ended.len() ==> (#[trigger] ended[i]).len() > 0 && text::contains_text(
                    content,
                    ended[i],
                )
        }),
    decreases end,
{
    if end > 0 {
        lemma_runs_before(content, marks, end - 1);
        let (ended, run) = search::runs_before(content, marks, end - 1);
        if marks[end - 1] {
            let more = run.push(content[end - 1]);
            assert(more =~= content.subrange(end - more.len(), end));
        } else {
            assert(text::stands_at(content, run, end - 1 - run.len()));
            assert(Seq::<char>::empty() =~= content.subrange(end, end));
        }
    } else {
        assert(Seq::<char>::empty() =~= content.subrange(0, 0));
    }
}

proof fn lemma_terms(lowered: Seq<char>, marks: Seq<bool>, i: int)
    requires
        0 <= i < search::terms_of(lowered, marks).len(),
    ensures
        text::contains_text(lowered, search::terms_of(lowered, marks)[i]),
{
    lemma_runs_before(lowered, marks, lowered.len() as int);
    let (ended, run) = search::runs_before(lowered, marks, lowered.len() as int);
    assert(text::stands_at(lowered, run, lowered.len() - run.len()));
    assert(lowered.subrange(0, lowered.len() as int) =~= lowered);
    assert(text::stands_at(lowered, lowered, 0));
    let all = search::runs(lowered, marks);
    if all.len() > 0 {
        if i < ended.len() {
            assert(all[i] == ended[i]);
        } else {
            assert(all[i] == run);
        }
    }
}

/// One of the texts contains the query, whatever the case of their letters.
pub open spec fn mentions(values: Seq<Seq<char>>, query: Seq<char>) -> bool {
    exists|i: int|
        0 <= i < values.len() && text::contains_text(
            search::lowercase(#[trigger] values[i]),
            search::lowercase(query),
        )
}

proof fn lemma_mentioned(values: Seq<Seq<char>>, query: Seq<char>, t: int)
    requires
        mentions(values, query),
        0 <= t < search::terms(query).len(),
    ensures
        search::term_found(values, search::terms(query)[t]),
{
    let i = choose|i: int|
        0 <= i < values.len() && text::contains_text(
            search::lowercase(#[trigger] values[i]),
            search::lowercase(query),
        );
    let lowered = search::lowercase(query);
    lemma_terms(lowered, search::letters(lowered), t);
    let all = values.map_values(|value: Seq<char>| search::lowercase(value));
    assert(all[i] == search::lowercase(values[i]));
    lemma_joined_part(all, " "@, i);
    lemma_part_of_part(search::haystack(values), all[i], lowered);
    lemma_part_of_part(search::haystack(values), lowered, search::terms(query)[t]);
}

/// A text that contains the whole query, whatever the case of their letters, is found by it.
pub proof fn whole_queries_are_found(
    values: &Vec<String>,
    query: &str,
    terms: Vec<String>,
    all: bool,
    any: bool,
)
    requires
        call_ensures(query_terms, (query,), terms),
        call_ensures(matches_query, (values, &terms), all),
        call_ensures(matches_any_term, (values, &terms), any),
        mentions(text::texts(values@), query@),
    ensures
        all,
        any,
{
    let words = search::terms(query@);
    assert(text::texts(terms@) == words);
    assert forall|t: int| 0 <= t < words.len() implies search::term_found(
        text::texts(values@),
        #[trigger] words[t],
    ) by {
        lemma_mentioned(text::texts(values@), query@, t);
    }
    assert(words.len() > 0);
    assert(search::term_found(text::texts(values@), words[0]));
}

/// The page's title or one of its keywords contains the query, whatever the case of their letters.
pub open spec fn page_mentions(leaf: SettingsNavLeaf, query: Seq<char>) -> bool {
    ||| text::contains_text(search::lowercase(leaf.title@), search::lowercase(query))
    ||| exists|k: int|
        0 <= k < leaf.keywords@.len() && text::contains_text(
            search::lowercase((#[trigger] leaf.keywords@[k])@),
            search::lowercase(query),
        )
}

proof fn lemma_page_mentions(category: CategoryView, leaf: SettingsNavLeaf, query: Seq<char>)
    requires
        page_mentions(leaf, query),
    ensures
        nav::leaf_found(category, leaf.view(), query),
{
    let own = nav::leaf_values(leaf.view());
    let both = nav::category_values(category) + own;
    let at: int = if text::contains_text(
        search::lowercase(leaf.title@),
        search::lowercase(query),
    ) {
        0
    } else {
        1 + choose|k: int|
            0 <= k < leaf.keywords@.len() && text::contains_text(
                search::lowercase((#[trigger] leaf.keywords@[k])@),
                search::lowercase(query),
            )
    };
    assert(leaf.view().keywords.len() == leaf.keywords@.len());
    if at > 0 {
        assert(leaf.view().keywords[at - 1] == leaf.keywords@[at - 1]@);
    }
    assert(text::contains_text(search::lowercase(own[at]), search::lowercase(query)));
    let far = nav::category_values(category).len() + at;
    assert(both[far] == own[at]);
    assert(mentions(own, query));
    assert(mentions(both, query));
    let words = search::terms(query);
    assert forall|t: int| 0 <= t < words.len() implies search::term_found(
        both,
        #[trigger] words[t],
    ) by {
        lemma_mentioned(both, query, t);
    }
    assert(words.len() > 0);
    lemma_mentioned(own, query, 0);
}

/// One of the categories is this one, with this page in it.
pub open spec fn lists_page(
    nav: Seq<SettingsNavCategory>,
    id: SettingsCategoryId,
    title: Seq<char>,
    leaf: LeafView,
) -> bool {
    exists|k: int, j: int|
        0 <= k < nav.len() && 0 <= j < nav[k].children@.len() && nav[k].id == id && nav[k].title@
            == title && (#[trigger] nav[k].children@[j]).view() == leaf
}

/// A page whose title or one of whose keywords contains what was searched for is found, in its
/// category.
pub proof fn pages_are_found_by_their_words(
    nav: &Vec<SettingsNavCategory>,
    query: &str,
    r: Vec<SettingsNavCategory>,
    c: int,
    l: int,
)
    requires
        call_ensures(filter_settings_nav, (nav, query), r),
        0 <= c < nav@.len(),
        0 <= l < nav@[c].children@.len(),
        text::trimmed(query@).len() > 0,
        page_mentions(nav@[c].children@[l], text::trimmed(query@)),
    ensures
        lists_page(r@, nav@[c].id, nav@[c].title@, nav@[c].children@[l].view()),
{
    let views = nav::nav_views(nav@);
    let wanted = text::trimmed(query@);
    let narrow_all = views.map_values(
        |category: CategoryView| nav::narrowed(category, text::trimmed(query@)),
    );
    let keep = |category: CategoryView| category.children.len() > 0;
    assert(nav::filtered(views, query@) == narrow_all.filter(keep));
    let category = nav@[c].view();
    assert(views[c] == category);
    let leaf = nav@[c].children@[l].view();
    assert(category.children[l] == leaf);
    lemma_page_mentions(category, nav@[c].children@[l], wanted);
    let found = |leaf: LeafView| nav::leaf_found(category, leaf, wanted);
    lists::passing_items_are_picked(category.children, found, l);
    let narrow = nav::narrowed(category, wanted);
    assert(narrow.children == category.children.filter(found));
    assert(narrow_all[c] == narrow);
    assert(narrow.children.contains(leaf));
    lists::passing_items_are_picked(narrow_all, keep, c);
    let out = nav::nav_views(r@);
    let k = choose|k: int| 0 <= k < out.len() && out[k] == narrow;
    assert(out[k] == r@[k].view());
    let j = choose|j: int| 0 <= j < narrow.children.len() && narrow.children[j] == leaf;
    assert(r@[k].view().children == nav::leaf_views(r@[k].children@));
    assert(nav::leaf_views(r@[k].children@)[j] == r@[k].children@[j].view());
    assert(r@[k].children@[j].view() == leaf);
}

/// The word occurs in the texts, put together with spaces, whatever the case of their letters, or
/// once all that is no letter is left out of both.
pub open spec fn word_occurs(values: Seq<Seq<char>>, word: Seq<char>) -> bool {
    let all = text::joined(
        values.map_values(|value: Seq<char>| search::lowercase(value)),
        " "@,
    );
    text::contains_text(all, word) || (only_letters(word).len() > 0 && text::contains_text(
        only_letters(all),
        only_letters(word),
    ))
}

/// The letters and digits of a text, without all else.
pub open spec fn only_letters(content: Seq<char>) -> Seq<char> {
    content.filter(|c: char| search::is_letter(c))
}

proof fn lemma_only_letters(content: Seq<char>, marks: Seq<bool>)
    requires
        content.len() <= marks.len(),
        forall|i: int|
            0 <= i < content.len() ==> #[trigger] marks[i] == search::is_letter(content[i]),
    ensures
        search::marked(content, marks) == only_letters(content),
    decreases content.len(),
{
    reveal(Seq::filter);
    if content.len() > 0 {
        let init = content.drop_last();
        assert forall|i: int| 0 <= i < init.len() implies #[trigger] marks[i] == search::is_letter(
            init[i],
        ) by {
            assert(init[i] == content[i]);
        }
        lemma_only_letters(init, marks);
        assert(marks[content.len() - 1] == search::is_letter(content.last()));
    }
}

proof fn lemma_compact(content: Seq<char>)
    ensures
        search::compact(content) == only_letters(content),
{
    lemma_only_letters(content, search::letters(content));
}

/// The words of a query are those of its letters, whatever their case.
pub proof fn queries_are_split_at_all_but_letters(
    query: &str,
    words: Vec<String>,
    lowered: String,
    marks: &Vec<bool>,
    split: Vec<String>,
)
    requires
        call_ensures(query_terms, (query,), words),
        lowered@ == search::lowercase(query@),
        marks@.len() == lowered@.len(),
        forall|i: int|
            0 <= i < marks@.len() ==> #[trigger] marks@[i] == search::is_letter(lowered@[i]),
        call_ensures(split_terms, (lowered, marks), split),
    ensures
        text::texts(words@) == text::texts(split@),
{
    assert(marks@ =~= search::letters(lowered@));
}

/// The title and the keywords of a category.
pub open spec fn category_words(category: SettingsNavCategory) -> Seq<Seq<char>> {
    seq![category.title@] + text::texts(category.keywords@)
}

/// The title and the keywords of a page.
pub open spec fn page_words(leaf: SettingsNavLeaf) -> Seq<Seq<char>> {
    seq![leaf.title@] + text::texts(leaf.keywords@)
}

/// One of the words of the query occurs in the page, and every one in the page or its category.
pub open spec fn page_answers(
    category: SettingsNavCategory,
    leaf: SettingsNavLeaf,
    query: Seq<char>,
) -> bool {
    let words = search::terms(query);
    &&& exists|t: int| 0 <= t < words.len() && word_occurs(page_words(leaf), #[trigger] words[t])
    &&& forall|t: int|
        0 <= t < words.len() ==> word_occurs(
            category_words(category) + page_words(leaf),
            #[trigger] words[t],
        )
}

proof fn lemma_page_answers(
    category: SettingsNavCategory,
    leaf: SettingsNavLeaf,
    query: Seq<char>,
)
    ensures
        nav::leaf_found(category.view(), leaf.view(), query) <==> is_called(category, query)
            || page_answers(category, leaf, query),
{
    let words = search::terms(query);
    let own = page_words(leaf);
    let both = category_words(category) + own;
    assert(nav::leaf_values(leaf.view()) == own);
    assert(nav::category_values(category.view()) == category_words(category));
    assert forall|t: int| 0 <= t < words.len() implies (search::term_found(
        own,
        #[trigger] words[t],
    ) <==> word_occurs(own, words[t])) && (search::term_found(both, words[t]) <==> word_occurs(
        both,
        words[t],
    )) by {
        lemma_compact(words[t]);
        lemma_compact(search::haystack(own));
        lemma_compact(search::haystack(both));
    }
    if search::any_found(own, words) {
        let t = choose|t: int| 0 <= t < words.len() && search::term_found(
            own,
            #[trigger] words[t],
        );
        assert(word_occurs(own, words[t]));
    }
    if exists|t: int| 0 <= t < words.len() && word_occurs(own, #[trigger] words[t]) {
        let t = choose|t: int| 0 <= t < words.len() && word_occurs(own, #[trigger] words[t]);
        assert(search::term_found(own, words[t]));
    }
    if search::query_found(both, words) {
        assert forall|t: int| 0 <= t < words.len() implies word_occurs(both, #[trigger] words[t]) by {
            assert(search::term_found(both, words[t]));
        }
    }
    if forall|t: int| 0 <= t < words.len() ==> word_occurs(both, #[trigger] words[t]) {
        assert forall|t: int| 0 <= t < words.len() implies search::term_found(
            both,
            #[trigger] words[t],
        ) by {
            assert(word_occurs(both, words[t]));
        }
    }
    let view = category.view();
    assert(view.keywords.len() == category.keywords@.len());
    if nav::names_category(view, query) && search::lowercase(category.title@) != search::lowercase(
        query,
    ) {
        let w = choose|w: int|
            0 <= w < view.keywords.len() && search::lowercase(#[trigger] view.keywords[w])
                == search::lowercase(query);
        assert(view.keywords[w] == category.keywords@[w]@);
    }
    if is_called(category, query) && search::lowercase(category.title@) != search::lowercase(
        query,
    ) {
        let w = choose|w: int|
            0 <= w < category.keywords@.len() && search::lowercase(
                (#[trigger] category.keywords@[w])@,
            ) == search::lowercase(query);
        assert(view.keywords[w] == category.keywords@[w]@);
    }
}

/// A page is found where its category is called what was searched for, or where one of the words
/// occurs in it while the others occur in it or in its category.
pub proof fn pages_that_answer_are_found(
    nav: &Vec<SettingsNavCategory>,
    query: &str,
    r: Vec<SettingsNavCategory>,
    c: int,
    l: int,
)
    requires
        call_ensures(filter_settings_nav, (nav, query), r),
        0 <= c < nav@.len(),
        0 <= l < nav@[c].children@.len(),
        text::trimmed(query@).len() > 0,
        is_called(nav@[c], text::trimmed(query@)) || page_answers(
            nav@[c],
            nav@[c].children@[l],
            text::trimmed(query@),
        ),
    ensures
        lists_page(r@, nav@[c].id, nav@[c].title@, nav@[c].children@[l].view()),
{
    let views = nav::nav_views(nav@);
    let wanted = text::trimmed(query@);
    let narrow_all = views.map_values(
        |category: CategoryView| nav::narrowed(category, text::trimmed(query@)),
    );
    let keep = |category: CategoryView| category.children.len() > 0;
    assert(nav::filtered(views, query@) == narrow_all.filter(keep));
    let category = nav@[c].view();
    assert(views[c] == category);
    let leaf = nav@[c].children@[l].view();
    assert(category.children[l] == leaf);
    lemma_page_answers(nav@[c], nav@[c].children@[l], wanted);
    let found = |leaf: LeafView| nav::leaf_found(category, leaf, wanted);
    lists::passing_items_are_picked(category.children, found, l);
    let narrow = nav::narrowed(category, wanted);
    assert(narrow.children == category.children.filter(found));
    assert(narrow_all[c] == narrow);
    assert(narrow.children.contains(leaf));
    lists::passing_items_are_picked(narrow_all, keep, c);
    let out = nav::nav_views(r@);
    let k = choose|k: int| 0 <= k < out.len() && out[k] == narrow;
    assert(out[k] == r@[k].view());
    let j = choose|j: int| 0 <= j < narrow.children.len() && narrow.children[j] == leaf;
    assert(r@[k].view().children == nav::leaf_views(r@[k].children@));
    assert(nav::leaf_views(r@[k].children@)[j] == r@[k].children@[j].view());
    assert(r@[k].children@[j].view() == leaf);
}

/// A search finds only pages that were there, in their categories, each for one of these reasons;
/// categories and pages keep their words, and no category is found without pages.
pub proof fn searches_find_nothing_else(
    nav: &Vec<SettingsNavCategory>,
    query: &str,
    r: Vec<SettingsNavCategory>,
    k: int,
    j: int,
)
    requires
        call_ensures(filter_settings_nav, (nav, query), r),
        0 <= k < r@.len(),
        text::trimmed(query@).len() > 0,
    ensures
        r@[k].children@.len() > 0,
        0 <= j < r@[k].children@.len() ==> exists|c: int, l: int|
            0 <= c < nav@.len() && 0 <= l < nav@[c].children@.len() && nav@[c].id == r@[k].id
                && category_words(nav@[c]) == category_words(r@[k]) && nav@[c].default_open
                == r@[k].default_open && (#[trigger] nav@[c].children@[l]).view()
                == r@[k].children@[j].view() && (is_called(nav@[c], text::trimmed(query@))
                || page_answers(nav@[c], nav@[c].children@[l], text::trimmed(query@))),
{
    let views = nav::nav_views(nav@);
    let wanted = text::trimmed(query@);
    let narrow_all = views.map_values(
        |category: CategoryView| nav::narrowed(category, text::trimmed(query@)),
    );
    let keep = |category: CategoryView| category.children.len() > 0;
    assert(nav::filtered(views, query@) == narrow_all.filter(keep));
    let out = nav::nav_views(r@);
    assert(out.len() == r@.len());
    assert(out[k] == r@[k].view());
    lists::picked_items_pass(narrow_all, keep, k);
    let c = choose|c: int| 0 <= c < narrow_all.len() && narrow_all[c] == out[k];
    let category = nav@[c].view();
    assert(views[c] == category);
    assert(narrow_all[c] == nav::narrowed(category, wanted));
    let found = |leaf: LeafView| nav::leaf_found(category, leaf, wanted);
    assert(r@[k].view().children == nav::leaf_views(r@[k].children@));
    assert(nav::leaf_views(r@[k].children@).len() == r@[k].children@.len());
    if 0 <= j < r@[k].children@.len() {
        assert(nav::leaf_views(r@[k].children@)[j] == r@[k].children@[j].view());
        assert(category.children.filter(found)[j] == r@[k].children@[j].view());
        lists::picked_items_pass(category.children, found, j);
        let l = choose|l: int|
            0 <= l < category.children.len() && category.children[l] == r@[k].children@[j].view();
        assert(category.children[l] == nav@[c].children@[l].view());
        lemma_page_answers(nav@[c], nav@[c].children@[l], wanted);
        assert(text::texts(nav@[c].keywords@) == category.keywords);
        assert(text::texts(r@[k].keywords@) == r@[k].view().keywords);
        assert(nav@[c].children@[l].view() == r@[k].children@[j].view());
    }
}

/// Categories and pages keep their order.
pub proof fn searches_keep_the_order(
    nav: &Vec<SettingsNavCategory>,
    query: &str,
    r: Vec<SettingsNavCategory>,
    i: int,
    j: int,
)
    requires
        call_ensures(filter_settings_nav, (nav, query), r),
        0 <= i < j < r@.len(),
        text::trimmed(query@).len() > 0,
    ensures
        exists|a: int, b: int|
            0 <= a < b < nav@.len() && (#[trigger] nav@[a]).id == r@[i].id && nav@[a].title@
                == r@[i].title@ && (#[trigger] nav@[b]).id == r@[j].id && nav@[b].title@
                == r@[j].title@,
{
    let views = nav::nav_views(nav@);
    let narrow_all = views.map_values(
        |category: CategoryView| nav::narrowed(category, text::trimmed(query@)),
    );
    let keep = |category: CategoryView| category.children.len() > 0;
    let out = nav::nav_views(r@);
    assert(out == narrow_all.filter(keep));
    assert(out[i] == r@[i].view() && out[j] == r@[j].view());
    lists::picked_items_keep_their_order(narrow_all, keep, i, j);
    let (a, b) = choose|a: int, b: int|
        0 <= a < b < narrow_all.len() && #[trigger] narrow_all[a] == out[i]
            && #[trigger] narrow_all[b] == out[j];
    assert(views[a] == nav@[a].view() && views[b] == nav@[b].view());
    assert(nav@[a].id == r@[i].id && nav@[b].id == r@[j].id);
}

/// A word is found in a text that contains it, or where both without anything but letters do; a
/// word without letters is found only as it is.
pub proof fn words_are_found_as_they_are_or_compact(
    place: &SearchText,
    term: &SearchText,
    r: bool,
    plain: &str,
    lowered: String,
)
    requires
        call_ensures(is_found, (place, term), r),
        call_ensures(folded, (plain,), lowered),
    ensures
        text::contains_text(place.folded@, term.folded@) ==> r,
        term.compact@.len() > 0 && text::contains_text(place.compact@, term.compact@) ==> r,
        r ==> text::contains_text(place.folded@, term.folded@) || text::contains_text(
            place.compact@,
            term.compact@,
        ),
        r && term.compact@.len() == 0 ==> text::contains_text(place.folded@, term.folded@),
        lowered@ == search::lowercase(plain@),
{
}

/// Every word has to be found, and one that is found is enough, as the question is.
pub proof fn every_word_or_one(
    values: &Vec<String>,
    terms: &Vec<String>,
    one: &Vec<String>,
    all: bool,
    any: bool,
    single: bool,
    i: int,
)
    requires
        call_ensures(matches_query, (values, terms), all),
        call_ensures(matches_any_term, (values, terms), any),
        call_ensures(matches_query, (values, one), single),
        0 <= i < terms@.len(),
        one@.len() == 1,
        one@[0]@ == terms@[i]@,
    ensures
        all ==> single,
        single ==> any,
        all ==> any,
        terms@.len() == 1 ==> all == single && any == single,
{
    let words = text::texts(terms@);
    let lone = text::texts(one@);
    let found = text::texts(values@);
    assert(words[i] == terms@[i]@);
    assert(lone[0] == one@[0]@);
    assert(lone.len() == 1);
    assert(single <==> search::term_found(found, lone[0]));
    if terms@.len() == 1 {
        assert(words.len() == 1);
    }
}

proof fn lemma_marked(content: Seq<char>, marks: Seq<bool>)
    ensures
        search::marked(content, marks).len() <= content.len(),
        (forall|i: int| 0 <= i < content.len() ==> #[trigger] marks[i]) ==> search::marked(
            content,
            marks,
        ) == content,
        (forall|i: int| 0 <= i < content.len() ==> !(#[trigger] marks[i])) ==> search::marked(
            content,
            marks,
        ).len() == 0,
    decreases content.len(),
{
    if content.len() > 0 {
        lemma_marked(content.drop_last(), marks);
        if forall|i: int| 0 <= i < content.len() ==> #[trigger] marks[i] {
            assert(content.drop_last().push(content.last()) =~= content);
        }
    }
}

/// What is marked is kept: everything where all is, nothing where nothing is; a letter more that
/// is marked is kept behind the others.
pub proof fn marked_letters_are_kept(
    content: &str,
    marks: &Vec<bool>,
    r: String,
    longer: &str,
    more: &Vec<bool>,
    other: String,
)
    requires
        marks@.len() == content@.len(),
        call_ensures(marked_text, (content, marks), r),
        more@.len() == longer@.len(),
        call_ensures(marked_text, (longer, more), other),
        longer@.len() == content@.len() + 1,
        longer@.drop_last() == content@,
        more@.drop_last() == marks@,
    ensures
        (forall|i: int| 0 <= i < content@.len() ==> #[trigger] marks@[i]) ==> r@ == content@,
        (forall|i: int| 0 <= i < content@.len() ==> !(#[trigger] marks@[i])) ==> r@.len() == 0,
        other@ == if more@.last() {
            r@.push(longer@.last())
        } else {
            r@
        },
{
    lemma_marked(content@, marks@);
    lemma_marked_prefix(content@, marks@, more@);
}

proof fn lemma_marked_prefix(content: Seq<char>, marks: Seq<bool>, more: Seq<bool>)
    requires
        content.len() <= marks.len(),
        marks.len() <= more.len(),
        forall|i: int| 0 <= i < marks.len() ==> #[trigger] more[i] == marks[i],
    ensures
        search::marked(content, marks) == search::marked(content, more),
    decreases content.len(),
{
    if content.len() > 0 {
        lemma_marked_prefix(content.drop_last(), marks, more);
        assert(more[content.len() - 1] == marks[content.len() - 1]);
    }
}

proof fn lemma_runs_cover(content: Seq<char>, marks: Seq<bool>, end: int)
    requires
        0 <= end <= content.len() == marks.len(),
    ensures
        ({
            let (ended, run) = search::runs_before(content, marks, end);
            text::joined(ended, Seq::<char>::empty()) + run == search::marked(
                content.take(end),
                marks,
            )
        }),
    decreases end,
{
    let none = Seq::<char>::empty();
    if end > 0 {
        lemma_runs_cover(content, marks, end - 1);
        let (ended, run) = search::runs_before(content, marks, end - 1);
        let before = search::marked(content.take(end - 1), marks);
        assert(content.take(end).drop_last() =~= content.take(end - 1));
        assert(content.take(end).last() == content[end - 1]);
        if marks[end - 1] {
            assert(text::joined(ended, none) + run.push(content[end - 1]) =~= before.push(
                content[end - 1],
            ));
        } else {
            let next = search::with_run(ended, run);
            if run.len() > 0 {
                assert(next.drop_last() =~= ended);
                assert(next.last() == run);
                if ended.len() == 0 {
                    assert(text::joined(ended, none) =~= none);
                    assert(none + run =~= run);
                } else {
                    assert(text::joined(ended, none) + none + run =~= text::joined(ended, none)
                        + run);
                }
                assert(text::joined(next, none) =~= text::joined(ended, none) + run);
            } else {
                assert(text::joined(ended, none) + run =~= text::joined(ended, none));
            }
            assert(text::joined(next, none) + none =~= text::joined(next, none));
        }
    } else {
        assert(content.take(0) =~= none);
        assert(none + none =~= none);
    }
}

/// The runs of a text are never empty, and put together they are what is marked in it; words of a
/// query are such runs, and the whole query where it has none.
pub proof fn runs_are_what_is_marked(
    content: &str,
    marks: &Vec<bool>,
    runs: Vec<String>,
    kept: String,
    lowered: String,
    terms: Vec<String>,
    i: int,
)
    requires
        marks@.len() == content@.len(),
        call_ensures(marked_runs, (content, marks), runs),
        call_ensures(marked_text, (content, marks), kept),
        lowered@ == content@,
        call_ensures(split_terms, (lowered, marks), terms),
    ensures
        text::joined(text::texts(runs@), Seq::<char>::empty()) == kept@,
        0 <= i < runs@.len() ==> runs@[i]@.len() > 0 && text::contains_text(content@, runs@[i]@),
        runs@.len() > 0 ==> text::texts(terms@) == text::texts(runs@),
        runs@.len() == 0 ==> terms@.len() == 1 && terms@[0]@ == content@,
{
    let none = Seq::<char>::empty();
    let end = content@.len() as int;
    lemma_runs_cover(content@, marks@, end);
    lemma_runs_before(content@, marks@, end);
    let (ended, run) = search::runs_before(content@, marks@, end);
    assert(content@.take(end) =~= content@);
    let all = search::runs(content@, marks@);
    assert(text::texts(runs@) == all);
    assert(all.len() == runs@.len());
    if run.len() > 0 {
        assert(all.drop_last() =~= ended);
        assert(all.last() == run);
        if ended.len() == 0 {
            assert(text::joined(ended, none) =~= none);
            assert(none + run =~= run);
        } else {
            assert(text::joined(ended, none) + none + run =~= text::joined(ended, none) + run);
        }
    } else {
        assert(text::joined(ended, none) + run =~= text::joined(ended, none));
    }
    if 0 <= i < runs@.len() {
        assert(all[i] == runs@[i]@);
        assert(text::stands_at(content@, run, end - run.len()));
        if i < ended.len() {
            assert(all[i] == ended[i]);
        } else {
            assert(all[i] == run);
        }
    }
    assert(text::texts(terms@).len() == terms@.len());
    if runs@.len() == 0 {
        assert(text::texts(terms@)[0] == terms@[0]@);
    }
}

/// Texts answer a query where every word occurs in them, and have a word where one does.
pub proof fn texts_answer_word_by_word(
    values: &Vec<String>,
    terms: &Vec<String>,
    all: bool,
    any: bool,
)
    requires
        call_ensures(matches_query, (values, terms), all),
        call_ensures(matches_any_term, (values, terms), any),
    ensures
        all <==> (forall|t: int|
            0 <= t < terms@.len() ==> word_occurs(text::texts(values@), (#[trigger] terms@[t])@)),
        any <==> (exists|t: int|
            0 <= t < terms@.len() && word_occurs(text::texts(values@), (#[trigger] terms@[t])@)),
{
    let words = text::texts(terms@);
    let found = text::texts(values@);
    assert(words.len() == terms@.len());
    assert(all == search::query_found(found, words));
    assert(any == search::any_found(found, words));
    assert forall|t: int| 0 <= t < terms@.len() implies (search::term_found(found, words[t])
        <==> word_occurs(found, (#[trigger] terms@[t])@)) by {
        assert(words[t] == terms@[t]@);
        lemma_compact(words[t]);
        lemma_compact(search::haystack(found));
    }
    if all {
        assert forall|t: int| 0 <= t < terms@.len() implies word_occurs(
            found,
            (#[trigger] terms@[t])@,
        ) by {
            assert(search::term_found(found, words[t]));
        }
    }
    if forall|t: int| 0 <= t < terms@.len() ==> word_occurs(found, (#[trigger] terms@[t])@) {
        assert forall|t: int| 0 <= t < words.len() implies search::term_found(
            found,
            #[trigger] words[t],
        ) by {
            assert(words[t] == terms@[t]@);
        }
    }
    if any {
        let t = choose|t: int| 0 <= t < words.len() && search::term_found(
            found,
            #[trigger] words[t],
        );
        assert(word_occurs(found, terms@[t]@));
    }
    if exists|t: int| 0 <= t < terms@.len() && word_occurs(found, (#[trigger] terms@[t])@) {
        let t = choose|t: int| 0 <= t < terms@.len() && word_occurs(
            found,
            (#[trigger] terms@[t])@,
        );
        assert(search::term_found(found, words[t]));
    }
}

} // verus!
