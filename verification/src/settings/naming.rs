//! Names that are derived from other names.

use vstd::prelude::*;

use crate::settings::pi_auth::Workspace;
use crate::text::chars_of;

verus! {

/// Where the range begins in what a package is asked for by: at the `@` behind the name. An
/// `@` in front belongs to the scope of the name.
pub open spec fn range_start(spec: Seq<char>, from: int) -> int
    decreases spec.len() - from,
{
    if from >= spec.len() {
        spec.len() as int
    } else if spec[from] == '@' {
        from
    } else {
        range_start(spec, from + 1)
    }
}

/// The name in what a package is asked for by.
pub open spec fn package_name(spec: Seq<char>) -> Seq<char> {
    if spec.len() == 0 {
        spec
    } else {
        spec.take(range_start(spec, 1))
    }
}

/// A character of an id as it stands in the name of a credential: a letter as a capital, a
/// digit as it is, anything else as an underscore.
pub open spec fn credential_char(c: char) -> char {
    if 'a' <= c <= 'z' {
        (c as int - 'a' as int + 'A' as int) as char
    } else if 'A' <= c <= 'Z' || '0' <= c <= '9' {
        c
    } else {
        '_'
    }
}

/// The name of the credential of a provider: the one that it has already, none where it needs
/// none, else one that its id gives.
pub open spec fn credential_name(configured: Seq<char>, id: Seq<char>, keyed: bool) -> Seq<char> {
    if configured.len() > 0 {
        configured
    } else if keyed {
        id.map_values(|c: char| credential_char(c)) + "_API_KEY"@
    } else {
        seq![]
    }
}

const CAPITALS: &'static str = "ABCDEFGHIJKLMNOPQRSTUVWXYZ";

proof fn lemma_capitals(i: int)
    requires
        0 <= i < 26,
    ensures
        CAPITALS@.len() == 26,
        CAPITALS@[i] == ('A' as int + i) as char,
{
    reveal_strlit("ABCDEFGHIJKLMNOPQRSTUVWXYZ");
    assert(CAPITALS@[i] as int == 'A' as int + i);
}

fn append_credential_char(out: &mut String, c: char)
    ensures
        final(out)@ == old(out)@.push(credential_char(c)),
{
    if 'a' <= c && c <= 'z' {
        let i: usize = (c as u32 - 97) as usize;
        proof {
            lemma_capitals(i as int);
        }
        out.append(CAPITALS.substring_char(i, i + 1));
        assert(out@ =~= old(out)@.push(credential_char(c)));
    } else if 'A' <= c && c <= 'Z' {
        let i: usize = (c as u32 - 65) as usize;
        proof {
            lemma_capitals(i as int);
        }
        out.append(CAPITALS.substring_char(i, i + 1));
        assert(out@ =~= old(out)@.push(credential_char(c)));
    } else if '0' <= c && c <= '9' {
        let digits: &str = "0123456789";
        let i: usize = (c as u32 - 48) as usize;
        proof {
            reveal_strlit("0123456789");
        }
        assert(digits@[i as int] as int == '0' as int + i as int);
        out.append(digits.substring_char(i, i + 1));
        assert(out@ =~= old(out)@.push(credential_char(c)));
    } else {
        proof {
            reveal_strlit("_");
        }
        out.append("_");
        assert(out@ =~= old(out)@.push(credential_char(c)));
    }
}

impl Workspace {
    /// The name of the package in what it is asked for by.
    pub fn plugin_name_of(spec: &str) -> (r: String)
        ensures
            r@ == package_name(spec@),
    {
        let all: Vec<char> = chars_of(spec);
        if all.len() == 0 {
            return spec.to_owned();
        }
        let mut at: usize = 1;
        while at < all.len() && all[at] != '@'
            invariant
                all@ == spec@,
                1 <= at <= all.len(),
                range_start(spec@, 1) == range_start(spec@, at as int),
            decreases all.len() - at,
        {
            at = at + 1;
        }
        assert(spec@.subrange(0, at as int) =~= spec@.take(at as int));
        spec.substring_char(0, at).to_owned()
    }

    /// The name of the credential of a provider of the user's own. One that is in use stays,
    /// since a key is kept under it.
    pub fn custom_provider_credential_ref(configured: &str, id: &str, keyed: bool) -> (r: String)
        ensures
            r@ == credential_name(configured@, id@, keyed),
    {
        if chars_of(configured).len() > 0 {
            return configured.to_owned();
        }
        let mut out: String = String::new();
        if !keyed {
            return out;
        }
        let all: Vec<char> = chars_of(id);
        let mut i: usize = 0;
        let ghost whole = id@.map_values(|c: char| credential_char(c));
        assert(out@ =~= whole.take(0));
        while i < all.len()
            invariant
                all@ == id@,
                i <= all.len(),
                whole == id@.map_values(|c: char| credential_char(c)),
                out@ == whole.take(i as int),
            decreases all.len() - i,
        {
            append_credential_char(&mut out, all[i]);
            i = i + 1;
            assert(out@ =~= whole.take(i as int));
        }
        assert(whole.take(i as int) =~= whole);
        out.append("_API_KEY");
        out
    }
}

/// A credential that is in use keeps its name, whatever becomes of the provider.
pub proof fn credentials_in_use_keep_their_names(
    configured: Seq<char>,
    id: Seq<char>,
    keyed: bool,
    other_id: Seq<char>,
    other_keyed: bool,
)
    requires
        configured.len() > 0,
    ensures
        credential_name(configured, id, keyed) == credential_name(
            configured,
            other_id,
            other_keyed,
        ),
{
}

/// Two providers that need a key share the name of a credential only where their ids differ in
/// nothing but capitals and in what stands for an underscore.
pub proof fn names_tell_providers_apart(one: Seq<char>, other: Seq<char>)
    ensures
        credential_name(seq![], one, true) == credential_name(seq![], other, true) <==> (one.len()
            == other.len() && forall|i: int|
            0 <= i < one.len() ==> credential_char(#[trigger] one[i]) == credential_char(other[i])),
{
    let empty: Seq<char> = seq![];
    let left = one.map_values(|c: char| credential_char(c));
    let right = other.map_values(|c: char| credential_char(c));
    let end = "_API_KEY"@;
    if credential_name(empty, one, true) == credential_name(empty, other, true) {
        assert(left + end == right + end);
        assert((left + end).len() == (right + end).len());
        assert forall|i: int| 0 <= i < one.len() implies credential_char(#[trigger] one[i])
            == credential_char(other[i]) by {
            assert((left + end)[i] == left[i]);
            assert((right + end)[i] == right[i]);
        }
    }
    if one.len() == other.len() && forall|i: int|
        0 <= i < one.len() ==> credential_char(#[trigger] one[i]) == credential_char(other[i]) {
        assert(left =~= right);
    }
}

proof fn lemma_range_start(spec: Seq<char>, from: int)
    requires
        0 <= from <= spec.len(),
    ensures
        from <= range_start(spec, from) <= spec.len(),
        forall|i: int| from <= i < range_start(spec, from) ==> spec[i] != '@',
        range_start(spec, from) < spec.len() ==> spec[range_start(spec, from)] == '@',
    decreases spec.len() - from,
{
    if from < spec.len() && spec[from] != '@' {
        lemma_range_start(spec, from + 1);
    }
}

/// The name of a package is its own name: taking it again changes nothing.
pub proof fn names_have_no_range(spec: Seq<char>)
    ensures
        package_name(package_name(spec)) == package_name(spec),
{
    let name = package_name(spec);
    if spec.len() > 0 {
        lemma_range_start(spec, 1);
        lemma_range_start(name, 1);
        let again = range_start(name, 1);
        if again < name.len() {
            assert(name[again] == spec[again]);
        }
        assert(name.take(again) =~= name);
    }
}

} // verus!
