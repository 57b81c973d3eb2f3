//! What documents, pictures and times from outside promise.

use vstd::prelude::*;

use crate::json;
use crate::json::{Json, JsonObject, JsonView};
use crate::session_list::clock;
use crate::session_list::clock::{session_updated_at_text, LocalMoment};
use crate::session_list::quota;
use crate::session_list::quota::{
    provider_quota_row, quota_reset_text, window_reset_text, AmountTexts, ProviderQuotaData,
    ProviderQuotaRow, ProviderQuotaWindow, QuotaStatus,
};
use crate::settings::launch;
use crate::settings::launch::{
    default_launch_entries, icon_for_agent_kind, LaunchConfig, LaunchEntry, LaunchIcon,
    TerminalAgent, TerminalAgentKind,
};
use crate::settings::maintenance::{daemon_info_line, DaemonInfo};
use crate::settings::qr;
use crate::settings::qr::{gray_to_rgb, qr_png_for_url};
use crate::settings::remote::IrohConnectionsState;
use crate::text;

verus! {

/// An object gives back what was put under a key, and nothing changes under other keys.
pub proof fn objects_give_back_what_was_put(
    object: JsonObject,
    key: &str,
    value: Json,
    after: JsonObject,
    other: &str,
    own: Option<&Json>,
    foreign: Option<&Json>,
    before: Option<&Json>,
)
    requires
        call_ensures(JsonObject::insert, (object, key, value), after),
        call_ensures(JsonObject::get, (&after, key), own),
        call_ensures(JsonObject::get, (&after, other), foreign),
        call_ensures(JsonObject::get, (&object, other), before),
    ensures
        own matches Some(found) && found.view() == value.view(),
        other@ != key@ ==> (foreign is Some <==> before is Some),
        other@ != key@ && before is Some ==> foreign->0.view() == before->0.view(),
{
}

/// A new object has nothing; what is taken from one is gone, and was there.
pub proof fn what_is_taken_is_gone(
    fresh: JsonObject,
    object: JsonObject,
    key: &str,
    r: (JsonObject, Option<Json>),
    again: Option<&Json>,
    before: Option<&Json>,
    nothing: Option<&Json>,
)
    requires
        call_ensures(JsonObject::new, (), fresh),
        call_ensures(JsonObject::get, (&fresh, key), nothing),
        call_ensures(JsonObject::take, (object, key), r),
        call_ensures(JsonObject::get, (&r.0, key), again),
        call_ensures(JsonObject::get, (&object, key), before),
    ensures
        nothing is None,
        again is None,
        r.1 is Some <==> before is Some,
        r.1 matches Some(value) ==> value.view() == before->0.view(),
{
}

/// Lists and objects are taken where that is what stands under the key; anything else stays.
pub proof fn only_lists_and_objects_are_taken(
    object: JsonObject,
    key: &str,
    found: Option<&Json>,
    a: (JsonObject, Option<Vec<Json>>),
    b: (JsonObject, Option<JsonObject>),
)
    requires
        call_ensures(JsonObject::get, (&object, key), found),
        call_ensures(JsonObject::take_list, (object, key), a),
        call_ensures(JsonObject::take_object, (object, key), b),
    ensures
        a.1 is Some <==> found is Some && found->0.view() is Array,
        b.1 is Some <==> found is Some && found->0.view() is Object,
        a.1 matches Some(items) ==> found->0.view() == JsonView::Array(json::documents(items@))
            && !a.0.view().contains_key(key@),
        b.1 matches Some(inner) ==> found->0.view() == JsonView::Object(inner.view())
            && !b.0.view().contains_key(key@),
        a.1 is None ==> a.0.view() == object.view(),
        b.1 is None ==> b.0.view() == object.view(),
{
}

/// Values are found under their keys by their kind.
pub proof fn values_are_found_by_kind(
    document: &Json,
    key: &str,
    any: Option<&Json>,
    list: Option<&Vec<Json>>,
    words: Option<&String>,
    flag: Option<bool>,
)
    requires
        call_ensures(Json::get, (document, key), any),
        call_ensures(Json::list_at, (document, key), list),
        call_ensures(Json::text_at, (document, key), words),
        call_ensures(Json::flag_at, (document, key), flag),
    ensures
        !(document.view() is Object) ==> any is None,
        any is None ==> list is None && words is None && flag is None,
        any matches Some(value) ==> {
            &&& document.view()->Object_0.contains_key(key@)
            &&& value.view() == document.view()->Object_0[key@]
            &&& list is Some <==> value.view() is Array
            &&& list matches Some(items) ==> value.view() == JsonView::Array(
                json::documents(items@),
            )
            &&& words is Some <==> value.view() is String
            &&& words matches Some(content) ==> value.view() == JsonView::String(content@)
            &&& flag is Some <==> value.view() is Bool
            &&& flag matches Some(on) ==> value.view() == JsonView::Bool(on)
        },
{
}

/// The keys of an object are listed once each; it has only one where there is no other.
pub proof fn keys_are_listed_once(
    object: &JsonObject,
    keys: Vec<String>,
    key: &str,
    only: bool,
    n: u64,
    number: Json,
    i: int,
    j: int,
)
    requires
        call_ensures(JsonObject::keys, (object,), keys),
        call_ensures(JsonObject::has_only, (object, key), only),
        call_ensures(Json::integer, (n,), number),
    ensures
        0 <= i < keys@.len() ==> object.view().contains_key(keys@[i]@),
        0 <= i < j < keys@.len() ==> keys@[i]@ != keys@[j]@,
        only && 0 <= i < keys@.len() ==> keys@[i]@ == key@,
        !only ==> exists|k: int| 0 <= k < keys@.len() && (#[trigger] keys@[k])@ != key@,
        number.view() == JsonView::Number(text::decimal(n as nat)),
{
    let all = text::texts(keys@);
    assert(all.len() == keys@.len());
    assert(only == json::no_other_key(object.view(), key@));
    if 0 <= i < keys@.len() {
        assert(all[i] == keys@[i]@);
        assert(all.contains(keys@[i]@));
        assert(object.view().contains_key(keys@[i]@));
        if i < j < keys@.len() {
            assert(all[j] == keys@[j]@);
        }
    }
    if !only {
        let name = choose|name: Seq<char>| object.view().contains_key(name) && name != key@;
        assert(all.contains(name));
        let k = choose|k: int| 0 <= k < all.len() && all[k] == name;
        assert(keys@[k]@ == name);
    }
}

/// What is written and read back is the same document, up to numbers that are not whole.
pub proof fn written_documents_are_read_back(
    text: &str,
    r: Result<Json, String>,
    document: &Json,
    written: Result<String, String>,
)
    requires
        call_ensures(Json::parse, (text,), r),
        call_ensures(Json::pretty, (document,), written),
    ensures
        match json::parse_outcome(text@) {
            Ok(found) => r matches Ok(read) && read.view() == found,
            Err(reason) => r matches Err(message) && message@ == reason,
        },
        written is Ok,
        json::readable(document.view()) ==> json::reads_as(
            (written->Ok_0)@ + "\n"@,
            document.view(),
        ),
{
}

/// Each gray pixel becomes three equal parts of a color, in order.
pub proof fn gray_becomes_three_equal_parts(pixels: &Vec<u8>, r: Vec<u8>, i: int)
    requires
        call_ensures(gray_to_rgb, (pixels,), r),
    ensures
        r@.len() == pixels@.len() * 3,
        0 <= i < pixels@.len() ==> r@[3 * i] == pixels@[i] && r@[3 * i + 1] == pixels@[i] && r@[3
            * i + 2] == pixels@[i],
{
    if 0 <= i < pixels@.len() {
        assert((3 * i) / 3 == i);
        assert((3 * i + 1) / 3 == i);
        assert((3 * i + 2) / 3 == i);
    }
}

/// A code is drawn in black on white, at least a hundred and sixty pixels wide, and encoded as a
/// picture of the same size whose pixels are gray.
pub proof fn codes_are_black_on_white(url: &str, r: Option<Vec<u8>>)
    requires
        call_ensures(qr_png_for_url, (url,), r),
    ensures
        qr::drawn_code(url@, 0, 255, 160) is None ==> r is None,
        qr::drawn_code(url@, 0, 255, 160) matches Some(image) ==> {
            let colors = Seq::new(
                image.pixels.len() + image.pixels.len() + image.pixels.len(),
                |i: int| image.pixels[i / 3],
            );
            &&& r is Some <==> qr::encoded_png(image.width, image.height, colors) is Some
            &&& r matches Some(bytes) ==> qr::encoded_png(image.width, image.height, colors)
                == Some(bytes@)
        },
        r matches Some(bytes) ==> bytes@.len() > 8 && bytes@[0] == 137 && bytes@[1] == 80
            && bytes@[2] == 78 && bytes@[3] == 71,
{
    match qr::drawn_code(url@, 0, 255, 160) {
        Some(image) => {
            let colors = Seq::new(
                image.pixels.len() + image.pixels.len() + image.pixels.len(),
                |i: int| image.pixels[i / 3],
            );
            assert(colors =~= qr::tripled(image.pixels));
        },
        None => {},
    }
    if r is Some {
        let bytes = (r->0)@;
        let front = bytes.take(8);
        assert(front == qr::png_signature());
        assert(front[0] == bytes[0] && front[1] == bytes[1] && front[2] == bytes[2] && front[3]
            == bytes[3]);
    }
}

/// Agents have one of three icons.
pub proof fn agents_have_one_of_three_icons(agent: TerminalAgentKind, r: LaunchIcon)
    requires
        call_ensures(icon_for_agent_kind, (agent,), r),
    ensures
        r is Asterisk <==> agent is Claude,
        r is Github <==> agent is Copilot,
        r is Bot <==> !(agent is Claude || agent is Copilot),
{
}

/// A menu of defaults has the default entries, and the version of today.
pub proof fn default_menus_have_default_entries(
    agents: &Vec<TerminalAgent>,
    r: LaunchConfig,
    entries: Vec<LaunchEntry>,
    i: int,
)
    requires
        call_ensures(LaunchConfig::with_defaults, (agents,), r),
        call_ensures(default_launch_entries, (agents,), entries),
    ensures
        r.version == 14,
        r.entries@.len() == agents@.len(),
        0 <= i < agents@.len() ==> r.entries@[i].view() == entries@[i].view(),
{
    let one = launch::entry_views(r.entries@);
    let two = launch::entry_views(entries@);
    assert(one == two);
    assert(one.len() == r.entries@.len());
    assert(two.len() == entries@.len());
    assert(one.len() == agents@.len());
    if 0 <= i < agents@.len() {
        assert(one[i] == r.entries@[i].view());
        assert(two[i] == entries@[i].view());
    }
}

/// When a session changed is told as for some moment of its day or of a day beside it; one without
/// a time says so.
pub proof fn changes_are_told_by_the_clock(timestamp: u64, now: &LocalMoment, r: String)
    requires
        call_ensures(session_updated_at_text, (timestamp, now), r),
    ensures
        timestamp == 0 ==> r@ == "时间未知"@,
        exists|moment: Option<LocalMoment>|
            #![trigger clock::updated_text(timestamp, moment, *now)]
            r@ == clock::updated_text(timestamp, moment, *now) && (moment matches Some(known)
                ==> known.hour < 24 && known.minute < 60 && 1 <= known.month <= 12 && 1 <= known.day
                <= 31),
{
    let moment = choose|moment: Option<LocalMoment>|
        #![trigger clock::updated_text(timestamp, moment, *now)]
        r@ == clock::updated_text(timestamp, moment, *now) && clock::may_be_at(
            moment,
            clock::seconds_of(timestamp),
        );
    assert(r@ == clock::updated_text(timestamp, moment, *now));
}

/// A reset without any time is told as unknown, and one with only the seconds left by those.
pub proof fn resets_without_a_moment_are_told(
    window: &ProviderQuotaWindow,
    now_ms: i64,
    r: String,
    same: String,
)
    requires
        call_ensures(quota_reset_text, (window, now_ms), r),
        call_ensures(window_reset_text, (window, None, now_ms), same),
        window.resets_at_ms is None,
    ensures
        r@ == same@,
        window.reset_after_seconds is None ==> r@ == "重置时间未知"@,
{
    let moment = choose|moment: Option<LocalMoment>|
        r@ == #[trigger] quota::reset_text(*window, moment, now_ms as int)
            && quota::is_reset_moment(*window, moment);
    assert(moment is None);
}

/// A quota without a limit is shown by what remains; without a quota there is no row.
pub proof fn quotas_without_a_limit_need_no_clock(
    label: &str,
    status: &QuotaStatus,
    amounts: &AmountTexts,
    now_ms: i64,
    r: Option<ProviderQuotaRow>,
)
    requires
        call_ensures(provider_quota_row, (label, status, amounts, now_ms), r),
    ensures
        r is None <==> status.quota is None,
        status.quota matches Some(ProviderQuotaData::Copilot(known)) ==> (known.limit is None
            ==> (r->0).text@ == amounts.remaining@ && (r->0).color is Muted),
{
}

/// A service without a start is described without a clock.
pub proof fn services_without_a_start_need_no_clock(info: &DaemonInfo, now: u64, r: String)
    requires
        call_ensures(daemon_info_line, (info, now), r),
        info.started_at is None,
        info.pid is None,
        info.session_count is None,
    ensures
        info.version is None ==> r@.len() == 0,
        info.version matches Some(version) ==> r@ == "v"@ + version@,
{
    reveal_with_fuel(text::joined, 3);
}

/// A list of connections starts empty.
pub proof fn connections_start_empty<Connection>(r: IrohConnectionsState<Connection>)
    requires
        call_ensures(IrohConnectionsState::<Connection>::new, (), r),
    ensures
        r.connections@.len() == 0,
{
}

} // verus!
