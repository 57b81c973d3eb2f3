//! JSON documents as plain values, and the bridge to `serde_json`.

use vstd::prelude::*;

use crate::text;
use crate::text::same_text;

verus! {

/// What a JSON document says. Objects have no order and numbers are their text.
pub enum JsonView {
    Null,
    Bool(bool),
    Number(Seq<char>),
    String(Seq<char>),
    Array(Seq<JsonView>),
    Object(Map<Seq<char>, JsonView>),
}

/// A JSON document.
pub enum Json {
    Null,
    Bool(bool),
    Number(serde_json::Number),
    String(String),
    Array(Vec<Json>),
    Object(JsonObject),
}

/// A JSON object: entries under pairwise different keys.
pub struct JsonObject {
    entries: Vec<(String, Json)>,
}

/// A JSON number of `serde_json`, carried through unread.
#[verifier::external_type_specification]
#[verifier::external_body]
pub struct ExNumber(serde_json::Number);

/// A JSON value of `serde_json`.
#[verifier::external_type_specification]
#[verifier::external_body]
pub struct ExValue(serde_json::Value);

/// The text that `serde_json` writes for a number.
pub uninterp spec fn number_text(number: serde_json::Number) -> Seq<char>;

/// The document that a `serde_json` value holds.
pub uninterp spec fn value_content(value: serde_json::Value) -> JsonView;

/// What `serde_json::from_str` makes of a text: a document, or the message of its error.
pub uninterp spec fn parse_outcome(text: Seq<char>) -> Result<JsonView, Seq<char>>;

/// The text that `serde_json::to_string_pretty` writes for a document.
pub uninterp spec fn pretty_text(document: JsonView) -> Seq<char>;

/// The text of an integer of 64 bits.
pub open spec fn is_whole(number: Seq<char>) -> bool {
    ||| exists|n: u64| number == #[trigger] text::decimal(n as nat)
    ||| exists|n: u64|
        0 < n <= 0x8000_0000_0000_0000 && number == seq!['-'] + #[trigger] text::decimal(n as nat)
}

/// The arrays and objects of the document are at most `depth` deep in one another.
pub open spec fn fits(document: JsonView, depth: nat) -> bool
    decreases depth,
{
    match document {
        JsonView::Array(items) => depth > 0 && forall|i: int|
            0 <= i < items.len() ==> fits(#[trigger] items[i], (depth - 1) as nat),
        JsonView::Object(entries) => depth > 0 && forall|key: Seq<char>|
            #![trigger entries[key]]
            entries.contains_key(key) ==> fits(entries[key], (depth - 1) as nat),
        _ => true,
    }
}

/// The document is not nested too deep to be read again once it is written.
pub open spec fn readable(document: JsonView) -> bool {
    fits(document, 127)
}

/// Two documents, at most `depth` deep, that differ at most in numbers that are not whole.
pub open spec fn alike(one: JsonView, other: JsonView, depth: nat) -> bool
    decreases depth,
{
    match (one, other) {
        (JsonView::Number(a), JsonView::Number(b)) => a == b || (!is_whole(a) && !is_whole(b)),
        (JsonView::Array(a), JsonView::Array(b)) => depth > 0 && a.len() == b.len() && forall|i: int|
            0 <= i < a.len() ==> alike(#[trigger] a[i], b[i], (depth - 1) as nat),
        (JsonView::Object(a), JsonView::Object(b)) => {
            &&& depth > 0
            &&& forall|key: Seq<char>| a.contains_key(key) <==> #[trigger] b.contains_key(key)
            &&& forall|key: Seq<char>|
                #![trigger a[key]]
                #![trigger b[key]]
                a.contains_key(key) ==> alike(a[key], b[key], (depth - 1) as nat)
        },
        _ => one == other,
    }
}

/// Reading `content` gives `document`, but for the rounding of numbers that are not whole.
pub open spec fn reads_as(content: Seq<char>, document: JsonView) -> bool {
    parse_outcome(content) matches Ok(back) && alike(document, back, 127)
}

/// The documents in a sequence.
pub open spec fn documents(items: Seq<Json>) -> Seq<JsonView>
    decreases items,
{
    Seq::new(
        items.len(),
        |i: int|
            if 0 <= i < items.len() {
                items[i].view()
            } else {
                JsonView::Null
            },
    )
}

/// The map that a list of entries stands for.
pub open spec fn entry_map(entries: Seq<(String, Json)>) -> Map<Seq<char>, JsonView>
    decreases entries,
{
    if entries.len() == 0 {
        Map::empty()
    } else {
        let init = entries.take(entries.len() - 1);
        let last = entries[entries.len() - 1];
        entry_map(init).insert(last.0@, last.1.view())
    }
}

impl Json {
    /// What the document says.
    pub open spec fn view(&self) -> JsonView
        decreases self,
    {
        match *self {
            Json::Null => JsonView::Null,
            Json::Bool(b) => JsonView::Bool(b),
            Json::Number(n) => JsonView::Number(number_text(n)),
            Json::String(s) => JsonView::String(s@),
            Json::Array(items) => JsonView::Array(documents(items@)),
            Json::Object(object) => JsonView::Object(object.view()),
        }
    }
}

impl JsonObject {
    /// The entries as a map.
    pub closed spec fn view(&self) -> Map<Seq<char>, JsonView>
        decreases self,
    {
        entry_map(self.entries@)
    }
}

impl JsonObject {
    #[verifier::type_invariant]
    spec fn keys_differ(self) -> bool {
        distinct_keys(self.entries@)
    }
}

spec fn distinct_keys(entries: Seq<(String, Json)>) -> bool {
    forall|i: int, j: int| 0 <= i < j < entries.len() ==> entries[i].0@ != entries[j].0@
}

/// Reads a text with `serde_json::from_str`: the value holds the document that the text
/// stands for, and an error comes as its message. The outcome depends on the text alone. A text
/// that is nested deeper than the parser's limit is an error.
#[verifier::external_body]
fn parse_value(text: &str) -> (r: Result<serde_json::Value, String>)
    ensures
        match r {
            Ok(value) => parse_outcome(text@) == Ok::<JsonView, Seq<char>>(value_content(value))
                && readable(value_content(value)),
            Err(message) => parse_outcome(text@) == Err::<JsonView, Seq<char>>(message@),
        },
{
    serde_json::from_str(text).map_err(|error: serde_json::Error| error.to_string())
}

/// Writes a value with `serde_json::to_string_pretty`, which does not fail on a value: the text
/// depends on the document that the value holds alone. A document that is not nested too deep
/// for `serde_json::from_str` can be read again from the text with a line break at the end, and
/// comes back as it was but for numbers with a fraction or an exponent, which reading may round.
#[verifier::external_body]
fn pretty_value(value: &serde_json::Value) -> (r: Result<String, String>)
    ensures
        r is Ok,
        r->Ok_0@ == pretty_text(value_content(*value)),
        readable(value_content(*value)) ==> reads_as(r->Ok_0@ + "\n"@, value_content(*value)),
{
    serde_json::to_string_pretty(value).map_err(|error: serde_json::Error| error.to_string())
}

/// Takes a `serde_json::Value` apart, variant by variant: the result is the document that
/// the value holds.
#[verifier::external_body]
fn document_of(value: serde_json::Value) -> (r: Json)
    ensures
        r.view() == value_content(value),
{
    match value {
        serde_json::Value::Null => Json::Null,
        serde_json::Value::Bool(b) => Json::Bool(b),
        serde_json::Value::Number(n) => Json::Number(n),
        serde_json::Value::String(s) => Json::String(s),
        serde_json::Value::Array(a) => Json::Array(a.into_iter().map(document_of).collect()),
        serde_json::Value::Object(o) => Json::Object(JsonObject {
            entries: o.into_iter().map(|(key, inner)| (key, document_of(inner))).collect(),
        }),
    }
}

/// Builds a `serde_json::Value`, variant by variant: it holds the given document.
#[verifier::external_body]
fn value_of(document: &Json) -> (r: serde_json::Value)
    ensures
        value_content(r) == document.view(),
{
    match document {
        Json::Null => serde_json::Value::Null,
        Json::Bool(b) => serde_json::Value::Bool(*b),
        Json::Number(n) => serde_json::Value::Number(n.clone()),
        Json::String(s) => serde_json::Value::String(s.clone()),
        Json::Array(items) => serde_json::Value::Array(items.iter().map(value_of).collect()),
        Json::Object(o) => serde_json::Value::Object(
            o.entries.iter().map(|entry| (entry.0.clone(), value_of(&entry.1))).collect(),
        ),
    }
}

/// `serde_json::Number::from` on an unsigned integer: its text is the integer in decimal.
#[verifier::external_body]
fn number_of(n: u64) -> (r: serde_json::Number)
    ensures
        number_text(r) == text::decimal(n as nat),
{
    serde_json::Number::from(n)
}

impl Json {
    /// Reads a document. The error is the message of the parser.
    pub fn parse(text: &str) -> (r: Result<Json, String>)
        ensures
            match r {
                Ok(document) => parse_outcome(text@) == Ok::<JsonView, Seq<char>>(document.view())
                    && readable(document.view()),
                Err(message) => parse_outcome(text@) == Err::<JsonView, Seq<char>>(message@),
            },
    {
        match parse_value(text) {
            Ok(value) => Ok(document_of(value)),
            Err(message) => Err(message),
        }
    }

    /// Writes the document with indentation.
    pub fn pretty(&self) -> (r: Result<String, String>)
        ensures
            r matches Ok(text) && text@ == pretty_text(self.view()) && (readable(self.view())
                ==> reads_as(text@ + "\n"@, self.view())),
    {
        let value = value_of(self);
        pretty_value(&value)
    }

    /// The number `n`.
    pub fn integer(n: u64) -> (r: Json)
        ensures
            r.view() == JsonView::Number(text::decimal(n as nat)),
    {
        Json::Number(number_of(n))
    }
}

/// Nothing stands under any key but this one.
pub open spec fn no_other_key(entries: Map<Seq<char>, JsonView>, key: Seq<char>) -> bool {
    forall|k: Seq<char>| #[trigger] entries.contains_key(k) ==> k == key
}

/// The value under `key`, where `document` is an object that has it.
pub open spec fn member(document: JsonView, key: Seq<char>) -> Option<JsonView> {
    match document {
        JsonView::Object(entries) => if entries.contains_key(key) {
            Some(entries[key])
        } else {
            None
        },
        _ => None,
    }
}

/// The array under `key`.
pub open spec fn list_under(document: JsonView, key: Seq<char>) -> Option<Seq<JsonView>> {
    match member(document, key) {
        Some(JsonView::Array(items)) => Some(items),
        _ => None,
    }
}

/// The string under `key`.
pub open spec fn text_under(document: JsonView, key: Seq<char>) -> Option<Seq<char>> {
    match member(document, key) {
        Some(JsonView::String(text)) => Some(text),
        _ => None,
    }
}

/// The truth value under `key`.
pub open spec fn flag_under(document: JsonView, key: Seq<char>) -> Option<bool> {
    match member(document, key) {
        Some(JsonView::Bool(flag)) => Some(flag),
        _ => None,
    }
}

impl Json {
    /// The value under `key`, where the document is an object that has it.
    pub fn get(&self, key: &str) -> (r: Option<&Json>)
        ensures
            match r {
                Some(value) => member(self.view(), key@) == Some(value.view()),
                None => member(self.view(), key@) is None,
            },
    {
        match self {
            Json::Object(object) => object.get(key),
            _ => None,
        }
    }

    /// The array under `key`.
    pub fn list_at(&self, key: &str) -> (r: Option<&Vec<Json>>)
        ensures
            match r {
                Some(items) => list_under(self.view(), key@) == Some(documents(items@)),
                None => list_under(self.view(), key@) is None,
            },
    {
        match self.get(key) {
            Some(Json::Array(items)) => Some(items),
            _ => None,
        }
    }

    /// The string under `key`.
    pub fn text_at(&self, key: &str) -> (r: Option<&String>)
        ensures
            match r {
                Some(text) => text_under(self.view(), key@) == Some(text@),
                None => text_under(self.view(), key@) is None,
            },
    {
        match self.get(key) {
            Some(Json::String(text)) => Some(text),
            _ => None,
        }
    }

    /// The truth value under `key`.
    pub fn flag_at(&self, key: &str) -> (r: Option<bool>)
        ensures
            r == flag_under(self.view(), key@),
    {
        match self.get(key) {
            Some(Json::Bool(flag)) => Some(*flag),
            _ => None,
        }
    }
}

proof fn lemma_entry_map(entries: Seq<(String, Json)>)
    requires
        distinct_keys(entries),
    ensures
        forall|i: int|
            0 <= i < entries.len() ==> entry_map(entries).contains_key(#[trigger] entries[i].0@)
                && entry_map(entries)[entries[i].0@] == entries[i].1.view(),
        forall|k: Seq<char>| #[trigger]
            entry_map(entries).contains_key(k) ==> exists|i: int|
                0 <= i < entries.len() && #[trigger] entries[i].0@ == k,
    decreases entries.len(),
{
    if entries.len() > 0 {
        let init = entries.take(entries.len() - 1);
        lemma_entry_map(init);
        assert forall|i: int| 0 <= i < entries.len() implies entry_map(entries).contains_key(
            #[trigger] entries[i].0@,
        ) && entry_map(entries)[entries[i].0@] == entries[i].1.view() by {
            if i < init.len() {
                assert(init[i] == entries[i]);
            }
        }
        assert forall|k: Seq<char>| #[trigger] entry_map(entries).contains_key(k) implies exists|
            i: int,
        |
            0 <= i < entries.len() && #[trigger] entries[i].0@ == k by {
            let last = entries[entries.len() - 1];
            if last.0@ == k {
            } else {
                assert(entry_map(init).contains_key(k));
                let i = choose|i: int| 0 <= i < init.len() && #[trigger] init[i].0@ == k;
                assert(entries[i].0@ == k);
            }
        }
    }
}

impl JsonObject {
    /// The object without entries.
    pub fn new() -> (r: JsonObject)
        ensures
            r.view() == Map::<Seq<char>, JsonView>::empty(),
    {
        JsonObject { entries: Vec::new() }
    }

    fn position(&self, key: &str) -> (r: Option<usize>)
        ensures
            match r {
                Some(i) => i < self.entries@.len() && self.entries@[i as int].0@ == key@
                    && self.view().contains_key(key@) && self.view()[key@]
                    == self.entries@[i as int].1.view(),
                None => !self.view().contains_key(key@),
            },
    {
        proof {
            use_type_invariant(self);
            lemma_entry_map(self.entries@);
        }
        let mut i: usize = 0;
        while i < self.entries.len()
            invariant
                i <= self.entries@.len(),
                forall|k: int| 0 <= k < i ==> #[trigger] self.entries@[k].0@ != key@,
            decreases self.entries@.len() - i,
        {
            if same_text(self.entries[i].0.as_str(), key) {
                proof {
                    use_type_invariant(self);
                    lemma_entry_map(self.entries@);
                }
                return Some(i);
            }
            i = i + 1;
        }
        None
    }

    /// The value under `key`.
    pub fn get(&self, key: &str) -> (r: Option<&Json>)
        ensures
            match r {
                Some(value) => self.view().contains_key(key@) && self.view()[key@] == value.view(),
                None => !self.view().contains_key(key@),
            },
    {
        match self.position(key) {
            Some(i) => Some(&self.entries[i].1),
            None => None,
        }
    }

    /// Takes the value under `key` out.
    pub fn take(self, key: &str) -> (r: (JsonObject, Option<Json>))
        ensures
            r.0.view() == self.view().remove(key@),
            match r.1 {
                Some(value) => self.view().contains_key(key@) && self.view()[key@] == value.view(),
                None => !self.view().contains_key(key@),
            },
    {
        match self.position(key) {
            None => {
                assert(self.view().remove(key@) =~= self.view());
                (self, None)
            },
            Some(i) => {
                proof {
                    use_type_invariant(&self);
                }
                let ghost before = self.entries@;
                let mut entries = self.entries;
                let (_, value) = entries.remove(i);
                proof {
                    lemma_removed_entry(before, i as int);
                }
                (JsonObject { entries }, Some(value))
            },
        }
    }

    /// Takes the array under `key` out; any other value stays.
    pub fn take_list(self, key: &str) -> (r: (JsonObject, Option<Vec<Json>>))
        ensures
            match r.1 {
                Some(items) => self.view().contains_key(key@) && self.view()[key@]
                    == JsonView::Array(documents(items@)) && r.0.view() == self.view().remove(key@),
                None => r.0.view() == self.view() && (self.view().contains_key(key@)
                    ==> !(self.view()[key@] is Array)),
            },
    {
        let (rest, value) = self.take(key);
        match value {
            Some(Json::Array(items)) => (rest, Some(items)),
            Some(other) => {
                assert(self.view().remove(key@).insert(key@, other.view()) =~= self.view());
                (rest.insert(key, other), None)
            },
            None => {
                assert(self.view().remove(key@) =~= self.view());
                (rest, None)
            },
        }
    }

    /// Takes the object under `key` out; any other value stays.
    pub fn take_object(self, key: &str) -> (r: (JsonObject, Option<JsonObject>))
        ensures
            match r.1 {
                Some(object) => self.view().contains_key(key@) && self.view()[key@]
                    == JsonView::Object(object.view()) && r.0.view() == self.view().remove(key@),
                None => r.0.view() == self.view() && (self.view().contains_key(key@)
                    ==> !(self.view()[key@] is Object)),
            },
    {
        let (rest, value) = self.take(key);
        match value {
            Some(Json::Object(object)) => (rest, Some(object)),
            Some(other) => {
                assert(self.view().remove(key@).insert(key@, other.view()) =~= self.view());
                (rest.insert(key, other), None)
            },
            None => {
                assert(self.view().remove(key@) =~= self.view());
                (rest, None)
            },
        }
    }

    /// Sets the value under `key`.
    pub fn insert(self, key: &str, value: Json) -> (r: JsonObject)
        ensures
            r.view() == self.view().insert(key@, value.view()),
    {
        let (rest, _) = self.take(key);
        proof {
            use_type_invariant(&rest);
            lemma_entry_map(rest.entries@);
        }
        let ghost before = rest.entries@;
        let mut entries = rest.entries;
        entries.push((key.to_owned(), value));
        proof {
            assert(entries@.take(entries@.len() - 1) =~= before);
            assert(forall|i: int|
                0 <= i < before.len() ==> entry_map(before).contains_key(#[trigger] before[i].0@));
            assert(self.view().remove(key@).insert(key@, value.view()) =~= self.view().insert(
                key@,
                value.view(),
            ));
        }
        JsonObject { entries }
    }

    /// Whether the object has no entries besides, possibly, one under `key`.
    pub fn has_only(&self, key: &str) -> (r: bool)
        ensures
            r == no_other_key(self.view(), key@),
    {
        proof {
            use_type_invariant(self);
            lemma_entry_map(self.entries@);
        }
        let mut i: usize = 0;
        while i < self.entries.len()
            invariant
                i <= self.entries@.len(),
                forall|k: int| 0 <= k < i ==> #[trigger] self.entries@[k].0@ == key@,
                forall|k: int|
                    0 <= k < self.entries@.len() ==> self.view().contains_key(
                        #[trigger] self.entries@[k].0@,
                    ),
            decreases self.entries@.len() - i,
        {
            if !same_text(self.entries[i].0.as_str(), key) {
                return false;
            }
            i = i + 1;
        }
        true
    }

    /// The keys, each once.
    pub fn keys(&self) -> (r: Vec<String>)
        ensures
            forall|k: Seq<char>|
                self.view().contains_key(k) <==> #[trigger] text::texts(r@).contains(k),
            text::texts(r@).no_duplicates(),
    {
        proof {
            use_type_invariant(self);
            lemma_entry_map(self.entries@);
        }
        let mut out: Vec<String> = Vec::new();
        let mut i: usize = 0;
        while i < self.entries.len()
            invariant
                i <= self.entries@.len(),
                out@.len() == i,
                forall|k: int| 0 <= k < i ==> #[trigger] out@[k] == self.entries@[k].0,
            decreases self.entries@.len() - i,
        {
            out.push(self.entries[i].0.clone());
            i = i + 1;
        }
        proof {
            let names = text::texts(out@);
            assert(forall|k: int| 0 <= k < names.len() ==> #[trigger] names[k] == self.entries@[k].0@);
            assert forall|k: Seq<char>| self.view().contains_key(k) <==> #[trigger] names.contains(
                k,
            ) by {
                if self.view().contains_key(k) {
                    let j = choose|j: int|
                        0 <= j < self.entries@.len() && #[trigger] self.entries@[j].0@ == k;
                    assert(names[j] == k);
                }
                if names.contains(k) {
                    let j = choose|j: int| 0 <= j < names.len() && names[j] == k;
                    assert(self.entries@[j].0@ == k);
                }
            }
        }
        out
    }
}

proof fn lemma_removed_entry(entries: Seq<(String, Json)>, at: int)
    requires
        distinct_keys(entries),
        0 <= at < entries.len(),
    ensures
        distinct_keys(entries.remove(at)),
        entry_map(entries.remove(at)) == entry_map(entries).remove(entries[at].0@),
{
    let rest = entries.remove(at);
    assert forall|i: int, j: int| 0 <= i < j < rest.len() implies rest[i].0@ != rest[j].0@ by {
        let a = if i < at { i } else { i + 1 };
        let b = if j < at { j } else { j + 1 };
        assert(rest[i] == entries[a] && rest[j] == entries[b]);
    }
    lemma_entry_map(entries);
    lemma_entry_map(rest);
    let m = entry_map(entries).remove(entries[at].0@);
    assert forall|k: Seq<char>| #[trigger] m.dom().contains(k) implies entry_map(
        rest,
    ).dom().contains(k) && m[k] == entry_map(rest)[k] by {
        assert(entry_map(entries).contains_key(k));
        let i = choose|i: int| 0 <= i < entries.len() && #[trigger] entries[i].0@ == k;
        let j = if i < at { i } else { i - 1 };
        assert(rest[j] == entries[i]);
        assert(entry_map(rest).contains_key(rest[j].0@));
    }
    assert forall|k: Seq<char>| #[trigger] entry_map(rest).dom().contains(k) implies m.dom().contains(
        k,
    ) by {
        assert(entry_map(rest).contains_key(k));
        let j = choose|j: int| 0 <= j < rest.len() && #[trigger] rest[j].0@ == k;
        let i = if j < at { j } else { j + 1 };
        assert(rest[j] == entries[i]);
        assert(entry_map(entries).contains_key(entries[i].0@));
    }
    assert(m =~= entry_map(rest));
}

} // verus!
