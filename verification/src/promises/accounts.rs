//! What signing in and plugins promise.

use vstd::prelude::*;

use crate::settings::pi_auth;
use crate::settings::pi_auth::{
    DiscoveredModel, PiAuthAction, PiAuthProvider, PiAuthProvidersState, PiDefaultModelConfig,
    PiLoginEvent, PiLoginInput, PiLoginView, Workspace,
};
use crate::settings::plugins;
use crate::settings::plugins::{
    describe_plugin_status, discover_installed_plugins, forget_plugin_statuses,
    refresh_plugin_statuses, refresh_plugin_statuses_throttled, InstalledPlugin,
    PluginEnablementState, PluginLifecycleState, PluginRuntimeStatuses, PluginStatus,
    PluginStatusThrottle,
};
use crate::text;

verus! {

/// A secret is typed into the field that hides it, anything else into the plain one, and a choice
/// into none; without a question there is no field.
pub proof fn secrets_are_typed_hidden(view: &PiLoginView, r: Option<PiLoginInput>)
    requires
        call_ensures(PiLoginView::active_input, (view,), r),
    ensures
        view.prompt is None ==> r is None,
        view.prompt matches Some(prompt) ==> {
            &&& prompt.kind is Secret <==> r == Some(PiLoginInput::Secret)
            &&& prompt.kind is Select <==> r is None
            &&& prompt.kind is Text || prompt.kind is ManualCode <==> r == Some(
                PiLoginInput::Plain,
            )
        },
{
}

/// Providers are asked for once at a time; the panel then waits for them and forgets its error.
pub proof fn providers_are_asked_for_once<M>(workspace: &mut Workspace, r: Vec<PiAuthAction<M>>)
    requires
        call_ensures(Workspace::refresh_pi_auth_providers::<M>, (workspace,), r),
    ensures
        ({
            let waiting = old(workspace).pi_auth_providers is Some && old(workspace).pi_auth_providers->0 is Loading;
            &&& waiting ==> r@.len() == 0 && *final(workspace) == *old(workspace)
            &&& !waiting ==> r@.len() == 1 && r@[0] is ListProviders && final(workspace).pi_auth_error is None
        }),
        final(workspace).pi_auth_providers is Some && final(workspace).pi_auth_providers->0
            is Loading,
        final(workspace).pi_login == old(workspace).pi_login,
        final(workspace).pi_auth_show_all == old(workspace).pi_auth_show_all,
{
}

/// What came of asking for providers is shown.
pub proof fn listed_providers_are_shown(
    workspace: &mut Workspace,
    outcome: Result<Vec<PiAuthProvider>, String>,
)
    requires
        call_ensures(Workspace::pi_auth_providers_listed, (workspace, outcome), ()),
    ensures
        outcome matches Ok(providers) ==> final(workspace).pi_auth_providers == Some(
            PiAuthProvidersState::Ready(providers),
        ),
        outcome matches Err(error) ==> final(workspace).pi_auth_providers == Some(
            PiAuthProvidersState::Failed(error),
        ),
        final(workspace).pi_login == old(workspace).pi_login,
        final(workspace).pi_auth_error == old(workspace).pi_auth_error,
{
}

/// Closing the panel, cancelling, and another sign-in end the one that is under way; closing
/// forgets all else that was shown, but for how much to show.
pub proof fn sign_ins_end_with_their_panel<M>(
    closed: &mut Workspace,
    cancelled: &mut Workspace,
    started: &mut Workspace,
    provider_id: String,
    method: M,
    ask_all: bool,
    a: Vec<PiAuthAction<M>>,
    b: Vec<PiAuthAction<M>>,
    c: Vec<PiAuthAction<M>>,
)
    requires
        call_ensures(Workspace::close_pi_auth_panel::<M>, (closed,), a),
        call_ensures(Workspace::cancel_pi_login::<M>, (cancelled,), b),
        call_ensures(Workspace::start_pi_login::<M>, (started, provider_id, method, ask_all), c),
    ensures
        final(closed).pi_login is None && final(cancelled).pi_login is None && final(started).pi_login is None,
        final(closed).pi_auth_providers is None && final(closed).pi_auth_model_picker is None
            && final(closed).pi_auth_error is None,
        final(closed).pi_auth_show_all == old(closed).pi_auth_show_all,
        final(cancelled).pi_auth_providers == old(cancelled).pi_auth_providers,
        final(cancelled).pi_auth_error == old(cancelled).pi_auth_error,
        final(started).pi_auth_error is None,
        old(closed).pi_login is Some ==> a@.len() == 1 && a@[0] is CancelLogin,
        old(closed).pi_login is None ==> a@.len() == 0,
        old(cancelled).pi_login is Some ==> b@.len() == 1 && b@[0] is CancelLogin,
        old(cancelled).pi_login is None ==> b@.len() == 0,
        old(started).pi_login is Some ==> c@.len() == 2 && c@[0] is CancelLogin,
        old(started).pi_login is None ==> c@.len() == 1,
        c@.last() == (PiAuthAction::<M>::StartLogin { provider_id, method, ask_all }),
{
}

/// Showing all or few turns over, and changes nothing else.
pub proof fn showing_all_turns_over(
    workspace: &mut Workspace,
    closed: &mut Workspace,
    fresh: Workspace,
)
    requires
        call_ensures(Workspace::toggle_pi_auth_show_all, (workspace,), ()),
        call_ensures(Workspace::close_pi_model_picker, (closed,), ()),
        call_ensures(Workspace::new, (), fresh),
    ensures
        final(workspace).pi_auth_show_all == !old(workspace).pi_auth_show_all,
        final(workspace).pi_login == old(workspace).pi_login,
        final(workspace).pi_auth_providers == old(workspace).pi_auth_providers,
        final(closed).pi_auth_model_picker is None,
        final(closed).pi_login == old(closed).pi_login,
        fresh.pi_login is None && fresh.pi_auth_providers is None && !fresh.pi_auth_show_all,
{
}

/// A sign-in that began is shown with nothing in it yet; one that did not says why.
pub proof fn sign_ins_begin_empty(
    workspace: &mut Workspace,
    provider_id: String,
    provider_name: String,
    outcome: Result<(), String>,
)
    requires
        call_ensures(
            Workspace::pi_login_started,
            (workspace, provider_id, provider_name, outcome),
            (),
        ),
    ensures
        outcome matches Err(error) ==> final(workspace).pi_auth_error == Some(error) && final(workspace).pi_login == old(workspace).pi_login,
        outcome is Ok ==> final(workspace).pi_login is Some && {
            let view = final(workspace).pi_login->0;
            view.provider_id == provider_id && view.provider_name == provider_name
                && view.messages@.len() == 0 && view.prompt is None && view.outcome is None
                && view.auth_url is None && view.device_code is None && view.models is None
        },
        final(workspace).pi_auth_providers == old(workspace).pi_auth_providers,
{
}

/// What a sign-in tells is shown in that sign-in alone: addresses are opened, messages added,
/// questions asked, and answered ones taken away; the end leaves no question, and a good end asks
/// for the models.
pub proof fn sign_ins_show_what_they_tell<M>(
    workspace: &mut Workspace,
    provider_id: &str,
    event: PiLoginEvent,
    r: Option<Vec<PiAuthAction<M>>>,
)
    requires
        call_ensures(Workspace::apply_pi_login_event::<M>, (workspace, provider_id, event), r),
    ensures
        ({
            let mine = old(workspace).pi_login is Some && (
            old(workspace).pi_login->0).provider_id@ == provider_id@;
            let before = old(workspace).pi_login->0;
            let after = final(workspace).pi_login->0;
            &&& r is Some <==> mine
            &&& !mine ==> *final(workspace) == *old(workspace)
            &&& mine ==> final(workspace).pi_login is Some && after.provider_id
                == before.provider_id && after.models == before.models
            &&& mine ==> (event matches PiLoginEvent::AuthUrl { url, instructions } ==> after.auth_url
                == Some(url) && after.instructions == instructions && (r->0)@.len() == 1 && (
            r->0)@[0] == PiAuthAction::<M>::OpenUrl(url))
            &&& mine ==> (event matches PiLoginEvent::DeviceCode { user_code, verification_uri }
                ==> after.device_code == Some((user_code, verification_uri)) && (r->0)@.len() == 1
                && (r->0)@[0] == PiAuthAction::<M>::OpenUrl(verification_uri))
            &&& mine ==> (event matches PiLoginEvent::Progress { message } ==> after.messages@
                == before.messages@.push(message))
            &&& mine ==> (event matches PiLoginEvent::Info { message, links } ==> {
                &&& after.messages@.len() == before.messages@.len() + 1 + links@.len()
                &&& after.messages@[before.messages@.len() as int] == message
                &&& forall|k: int|
                    0 <= k < links@.len() ==> after.messages@[before.messages@.len() + 1 + k]
                        == (#[trigger] links@[k]).url
            })
            &&& mine ==> (event matches PiLoginEvent::Prompt {
                id,
                prompt_type,
                message,
                placeholder,
                options,
            } ==> after.prompt is Some && (after.prompt->0).id == id && (after.prompt->0).kind
                == prompt_type && (after.prompt->0).message == message && (
            after.prompt->0).options == options)
            &&& mine ==> (event matches PiLoginEvent::PromptDone { id } ==> if before.prompt is Some
                && (before.prompt->0).id@ == id@ {
                after.prompt is None
            } else {
                after.prompt == before.prompt
            })
            &&& mine && event is Done ==> {
                &&& after.outcome == Some(Ok::<(), String>(()))
                &&& after.prompt is None && after.auth_url is None && after.device_code is None
                &&& (r->0)@.first() is ReloadModelSettings
                &&& (r->0)@.last() == PiAuthAction::<M>::ListModels(before.provider_id)
                &&& final(workspace).pi_auth_providers is Some && final(workspace).pi_auth_providers->0 is Loading
            }
            &&& mine ==> (event matches PiLoginEvent::Error { message } ==> after.outcome == Some(
                Err::<(), String>(message),
            ) && after.prompt is None && (r->0)@.len() == 0)
            &&& mine && !(event is Done || event is Error) ==> after.outcome == before.outcome
            &&& mine && !(event is Info || event is Progress) ==> after.messages@
                == before.messages@
        }),
{
    if r is Some && event is Info {
        let links = event->links;
        let before = old(workspace).pi_login->0;
        let after = final(workspace).pi_login->0;
        assert(pi_auth::addresses(links@).len() == links@.len());
        assert forall|k: int| 0 <= k < links@.len() implies after.messages@[before.messages@.len()
            + 1 + k] == (#[trigger] links@[k]).url by {
            assert(pi_auth::addresses(links@)[k] == links@[k].url);
        }
    }
}

/// Models are shown where they were asked for, in the sign-in and in the picker of their provider,
/// and nowhere else.
pub proof fn models_are_shown_where_asked(
    workspace: &mut Workspace,
    provider_id: &str,
    outcome: Result<Vec<DiscoveredModel>, String>,
)
    requires
        call_ensures(Workspace::pi_models_listed, (workspace, provider_id, outcome), ()),
    ensures
        old(workspace).pi_login matches Some(view) ==> if view.provider_id@ == provider_id@ {
            &&& final(workspace).pi_login is Some
            &&& outcome matches Ok(models) ==> ((final(workspace).pi_login->0).models matches Some(Ok(list)) && list@ == models@)
            &&& outcome matches Err(error) ==> (final(workspace).pi_login->0).models == Some(
                Err::<Vec<DiscoveredModel>, String>(error),
            )
        } else {
            final(workspace).pi_login == old(workspace).pi_login
        },
        old(workspace).pi_auth_model_picker matches Some(picker) ==> if picker.provider_id@
            == provider_id@ {
            &&& final(workspace).pi_auth_model_picker is Some
            &&& outcome matches Ok(models) ==> ((final(workspace).pi_auth_model_picker->0).models matches Some(Ok(list)) && list@ == models@)
        } else {
            final(workspace).pi_auth_model_picker == old(workspace).pi_auth_model_picker
        },
        final(workspace).pi_auth_error == old(workspace).pi_auth_error,
{
}

/// The picker of a provider opens with its models asked for, and closes where it is open.
pub proof fn pickers_open_and_close<M>(
    workspace: &mut Workspace,
    provider_id: String,
    provider_name: String,
    r: Vec<PiAuthAction<M>>,
)
    requires
        call_ensures(
            Workspace::open_pi_model_picker::<M>,
            (workspace, provider_id, provider_name),
            r,
        ),
    ensures
        ({
            let open = old(workspace).pi_auth_model_picker is Some && (
            old(workspace).pi_auth_model_picker->0).provider_id@ == provider_id@;
            &&& open ==> r@.len() == 0 && final(workspace).pi_auth_model_picker is None
            &&& !open ==> r@.len() == 1 && r@[0] == PiAuthAction::<M>::ListModels(provider_id)
                && final(workspace).pi_auth_model_picker is Some && (
            final(workspace).pi_auth_model_picker->0).provider_id == provider_id && (
            final(workspace).pi_auth_model_picker->0).models is None
        }),
        final(workspace).pi_login == old(workspace).pi_login,
{
}

/// What was typed answers the question that is asked, without the spaces around it and from the
/// field of its kind, which is emptied; the question is then gone.
pub proof fn typed_answers_answer_the_question<M>(
    workspace: &mut Workspace,
    plain: &str,
    secret: &str,
    r: Vec<PiAuthAction<M>>,
)
    requires
        call_ensures(Workspace::submit_pi_login_prompt::<M>, (workspace, plain, secret), r),
    ensures
        old(workspace).pi_login is None ==> r@.len() == 0 && *final(workspace) == *old(workspace),
        old(workspace).pi_login matches Some(view) ==> match view.prompt {
            None => r@.len() == 0 && *final(workspace) == *old(workspace),
            Some(prompt) => if prompt.kind is Select {
                r@.len() == 0 && *final(workspace) == *old(workspace)
            } else {
                &&& r@.len() == 2
                &&& r@[0] matches PiAuthAction::<M>::Answer { prompt_id, value } && prompt_id
                    == prompt.id && value@ == text::trimmed(
                    if prompt.kind is Secret {
                        secret@
                    } else {
                        plain@
                    },
                )
                &&& r@[1] == PiAuthAction::<M>::ClearInput(
                    if prompt.kind is Secret {
                        PiLoginInput::Secret
                    } else {
                        PiLoginInput::Plain
                    },
                )
                &&& final(workspace).pi_login is Some && (
                final(workspace).pi_login->0).prompt is None
            },
        },
{
}

/// A choice answers the question that is asked, which is then gone.
pub proof fn choices_answer_the_question<M>(
    workspace: &mut Workspace,
    option_id: String,
    r: Vec<PiAuthAction<M>>,
)
    requires
        call_ensures(Workspace::choose_pi_login_option::<M>, (workspace, option_id), r),
    ensures
        ({
            let asked = old(workspace).pi_login is Some && (old(workspace).pi_login->0).prompt is Some;
            &&& !asked ==> r@.len() == 0 && *final(workspace) == *old(workspace)
            &&& asked ==> r@.len() == 1 && r@[0] == (PiAuthAction::<M>::Answer {
                prompt_id: ((old(workspace).pi_login->0).prompt->0).id,
                value: option_id,
            }) && final(workspace).pi_login is Some && (
            final(workspace).pi_login->0).prompt is None
        }),
{
}

/// A default model is the one that was chosen, and nothing else is set with it; once stored it is
/// read anew and told, and the picker closes.
pub proof fn default_models_are_told<M>(
    workspace: &mut Workspace,
    provider_id: String,
    model_id: String,
    config: PiDefaultModelConfig,
    saved: Result<(), String>,
    r: Vec<PiAuthAction<M>>,
)
    requires
        call_ensures(Workspace::pi_default_model, (provider_id, model_id), config),
        call_ensures(Workspace::set_pi_default_model::<M>, (workspace, &config, saved), r),
    ensures
        config.provider == provider_id && config.model == model_id,
        config.base_url@.len() == 0 && config.thinking_level@.len() == 0,
        saved is Ok ==> {
            &&& r@.len() == 2 && r@[0] is ReloadModelSettings
            &&& r@[1] matches PiAuthAction::<M>::NotifySuccess(message) && message@
                == "已设为默认模型："@ + provider_id@ + " / "@ + model_id@
            &&& final(workspace).pi_auth_model_picker is None
            &&& final(workspace).pi_auth_error == old(workspace).pi_auth_error
        },
        saved matches Err(error) ==> {
            &&& r@.len() == 1 && r@[0] == PiAuthAction::<M>::NotifyError(error)
            &&& final(workspace).pi_auth_error == Some(error)
            &&& final(workspace).pi_auth_model_picker == old(workspace).pi_auth_model_picker
        },
{
}

/// Signing out asks for just that; once done the settings are read anew, the provider's picker
/// closes, and the providers are asked for again.
pub proof fn signing_out_asks_anew<M>(
    before: &mut Workspace,
    after: &mut Workspace,
    provider_id: String,
    outcome: Result<(), String>,
    a: Vec<PiAuthAction<M>>,
    b: Vec<PiAuthAction<M>>,
    id: &str,
)
    requires
        call_ensures(Workspace::logout_pi_provider::<M>, (before, provider_id), a),
        call_ensures(Workspace::pi_provider_logged_out::<M>, (after, id, outcome), b),
    ensures
        a@.len() == 1 && a@[0] == PiAuthAction::<M>::Logout(provider_id),
        final(before).pi_auth_error is None,
        outcome is Ok ==> b@.len() > 0 && b@[0] is ReloadModelSettings,
        outcome is Err ==> b@.len() == 0 || (b@.len() == 1 && b@[0] is ListProviders),
        !(old(after).pi_auth_providers is Some && old(after).pi_auth_providers->0 is Loading)
            ==> b@.len() > 0 && b@.last() is ListProviders,
        final(after).pi_auth_providers is Some && final(after).pi_auth_providers->0 is Loading,
        old(after).pi_auth_model_picker matches Some(picker) ==> (picker.provider_id@ == id@
            && outcome is Ok ==> final(after).pi_auth_model_picker is None),
        old(after).pi_auth_model_picker matches Some(picker) ==> (picker.provider_id@ != id@
            || outcome is Err ==> final(after).pi_auth_model_picker == old(after).pi_auth_model_picker),
        old(after).pi_auth_providers is Some && old(after).pi_auth_providers->0 is Loading
            && outcome is Err ==> final(after).pi_auth_error == Some(outcome->Err_0),
{
}

/// Plugins are listed by name, and by identifier where names are the same.
pub open spec fn stands_before(a: InstalledPlugin, b: InstalledPlugin) -> bool {
    text::text_before(a.name@, b.name@) || (a.name@ == b.name@ && text::text_before(a.id@, b.id@))
}

proof fn lemma_inserted(list: Seq<InstalledPlugin>, plugin: InstalledPlugin, x: InstalledPlugin)
    ensures
        plugins::inserted(list, plugin).contains(x) <==> list.contains(x) || x == plugin,
        plugins::inserted(list, plugin).len() == list.len() + 1,
    decreases list.len(),
{
    let out = plugins::inserted(list, plugin);
    if list.len() > 0 && plugins::listed_before(plugin, list.last()) {
        let shorter = list.drop_last();
        lemma_inserted(shorter, plugin, x);
        let inner = plugins::inserted(shorter, plugin);
        assert(out == inner.push(list.last()));
        if out.contains(x) {
            let k = choose|k: int| 0 <= k < out.len() && out[k] == x;
            if k < inner.len() {
                assert(inner[k] == x);
                if shorter.contains(x) {
                    let m = choose|m: int| 0 <= m < shorter.len() && shorter[m] == x;
                    assert(list[m] == x);
                }
            } else {
                assert(list[list.len() - 1] == x);
            }
        }
        if list.contains(x) {
            let k = choose|k: int| 0 <= k < list.len() && list[k] == x;
            if k < shorter.len() {
                assert(shorter[k] == x);
                let m = choose|m: int| 0 <= m < inner.len() && inner[m] == x;
                assert(out[m] == x);
            } else {
                assert(out[out.len() - 1] == x);
            }
        }
        if x == plugin {
            let m = choose|m: int| 0 <= m < inner.len() && inner[m] == x;
            assert(out[m] == x);
        }
    } else {
        assert(out == list.push(plugin));
        if list.contains(x) {
            let k = choose|k: int| 0 <= k < list.len() && list[k] == x;
            assert(out[k] == x);
        }
        if x == plugin {
            assert(out[out.len() - 1] == x);
        }
        if out.contains(x) {
            let k = choose|k: int| 0 <= k < out.len() && out[k] == x;
            if k < list.len() {
                assert(list[k] == x);
            }
        }
    }
}

proof fn lemma_in_order(list: Seq<InstalledPlugin>, x: InstalledPlugin)
    ensures
        plugins::in_order(list).contains(x) <==> list.contains(x),
        plugins::in_order(list).len() == list.len(),
    decreases list.len(),
{
    if list.len() > 0 {
        lemma_in_order(list.drop_last(), x);
        lemma_inserted(plugins::in_order(list.drop_last()), list.last(), x);
        if list.contains(x) {
            let k = choose|k: int| 0 <= k < list.len() && list[k] == x;
            if k < list.len() - 1 {
                assert(list.drop_last()[k] == x);
            }
        }
        if list.drop_last().contains(x) {
            let k = choose|k: int| 0 <= k < list.drop_last().len() && list.drop_last()[k] == x;
            assert(list[k] == x);
        }
        if x == list.last() {
            assert(list[list.len() - 1] == x);
        }
    }
}

proof fn lemma_with_new(list: Seq<InstalledPlugin>, more: Seq<InstalledPlugin>)
    ensures
        ({
            let all = plugins::with_new(list, more);
            &&& all.len() >= list.len()
            &&& forall|i: int| 0 <= i < list.len() ==> #[trigger] all[i] == list[i]
            &&& forall|i: int|
                list.len() <= i < all.len() ==> more.contains(#[trigger] all[i]) && (forall|j: int|
                    0 <= j < i ==> (#[trigger] all[j]).id@ != all[i].id@)
            &&& forall|k: int|
                0 <= k < more.len() ==> plugins::has_id(all, (#[trigger] more[k]).id@)
        }),
    decreases more.len(),
{
    if more.len() > 0 {
        let shorter = more.drop_last();
        lemma_with_new(list, shorter);
        let before = plugins::with_new(list, shorter);
        let all = plugins::with_new(list, more);
        assert forall|i: int| list.len() <= i < all.len() implies more.contains(
            #[trigger] all[i],
        ) && (forall|j: int| 0 <= j < i ==> (#[trigger] all[j]).id@ != all[i].id@) by {
            if i < before.len() {
                assert(all[i] == before[i]);
                let k = choose|k: int| 0 <= k < shorter.len() && shorter[k] == before[i];
                assert(more[k] == all[i]);
                assert forall|j: int| 0 <= j < i implies (#[trigger] all[j]).id@ != all[i].id@ by {
                    assert(all[j] == before[j]);
                }
            } else {
                assert(all[i] == more[more.len() - 1]);
                assert forall|j: int| 0 <= j < i implies (#[trigger] all[j]).id@ != all[i].id@ by {
                    assert(all[j] == before[j]);
                }
            }
        }
        assert forall|k: int| 0 <= k < more.len() implies plugins::has_id(
            all,
            (#[trigger] more[k]).id@,
        ) by {
            if k < shorter.len() {
                assert(shorter[k] == more[k]);
                let m = choose|m: int| 0 <= m < before.len() && (#[trigger] before[m]).id@
                    == more[k].id@;
                assert(all[m] == before[m]);
            } else if plugins::has_id(before, more.last().id@) {
                assert(all == before);
            } else {
                assert(all[all.len() - 1] == more.last());
            }
        }
    }
}

/// Every package is listed, and every record of a plugin whose identifier nothing else has; the
/// list is in order, holds nothing else, and knows every identifier.
pub proof fn plugins_are_listed_in_order(
    packages: Vec<InstalledPlugin>,
    records: Vec<InstalledPlugin>,
    r: Vec<InstalledPlugin>,
    i: int,
    j: int,
)
    requires
        call_ensures(discover_installed_plugins, (packages, records), r),
    ensures
        0 <= i < j < r@.len() ==> !stands_before(r@[j], r@[i]),
        0 <= i < packages@.len() ==> r@.contains(packages@[i]),
        0 <= i < r@.len() ==> packages@.contains(r@[i]) || records@.contains(r@[i]),
        0 <= i < records@.len() ==> exists|k: int|
            0 <= k < r@.len() && (#[trigger] r@[k]).id@ == records@[i].id@,
        r@.len() <= packages@.len() + records@.len(),
{
    let all = plugins::with_new(packages@, records@);
    plugins::ordering_orders(all);
    lemma_with_new(packages@, records@);
    lemma_with_new_count(packages@, records@);
    if all.len() > 0 {
        lemma_in_order(all, all[0]);
    } else {
        assert(plugins::in_order(all).len() == 0);
    }
    if 0 <= i < packages@.len() {
        lemma_in_order(all, packages@[i]);
        assert(all[i] == packages@[i]);
    }
    if 0 <= i < r@.len() {
        lemma_in_order(all, r@[i]);
        assert(r@.contains(r@[i]));
        let k = choose|k: int| 0 <= k < all.len() && all[k] == r@[i];
        if k < packages@.len() {
            assert(packages@[k] == r@[i]);
        }
    }
    if 0 <= i < records@.len() {
        let k = choose|k: int| 0 <= k < all.len() && (#[trigger] all[k]).id@ == records@[i].id@;
        lemma_in_order(all, all[k]);
        let m = choose|m: int| 0 <= m < r@.len() && r@[m] == all[k];
        assert(r@[m].id@ == records@[i].id@);
    }
}

proof fn lemma_with_new_count(list: Seq<InstalledPlugin>, more: Seq<InstalledPlugin>)
    ensures
        plugins::with_new(list, more).len() <= list.len() + more.len(),
    decreases more.len(),
{
    if more.len() > 0 {
        lemma_with_new_count(list, more.drop_last());
    }
}

/// The catalog is what is installed.
pub proof fn the_catalog_is_what_is_installed(
    state: &mut PluginEnablementState,
    packages: Vec<InstalledPlugin>,
    records: Vec<InstalledPlugin>,
    r: Vec<InstalledPlugin>,
)
    requires
        call_ensures(PluginEnablementState::refresh_catalog, (state, packages, records), ()),
        call_ensures(discover_installed_plugins, (packages, records), r),
    ensures
        final(state).catalog@ == r@,
{
}

/// Permissions are told in words, and one that is not known says so.
pub proof fn permissions_are_told(capability: &str, r: (&'static str, &'static str))
    requires
        call_ensures(PluginEnablementState::describe_capability, (capability,), r),
    ensures
        capability@ == "session.read"@ ==> r.0@ == "读取会话"@ && r.1@
            == "读取本机终端会话及其状态"@,
        capability@ == "remote_sessions.read"@ ==> r.0@ == "读取远程会话"@ && r.1@
            == "读取远程设备上的会话列表和状态"@,
        capability@ == "workspace.read"@ ==> r.0@ == "读取工作区"@ && r.1@
            == "读取当前工作区中的文件和目录"@,
        capability@ == "workspace.create"@ ==> r.0@ == "创建工作区"@ && r.1@
            == "创建新的工作区或工作目录"@,
        capability@ == "workspace.release"@ ==> r.0@ == "释放工作区"@ && r.1@
            == "关闭并释放已有工作区"@,
        capability@ == "project.read"@ ==> r.0@ == "读取项目"@ && r.1@
            == "读取项目元数据和项目列表"@,
        capability@ == "agent.message.read"@ ==> r.0@ == "读取 Agent 消息"@ && r.1@
            == "读取 Agent 之间交换的消息"@,
        capability@ == "session.input.route"@ ==> r.0@ == "路由会话输入"@ && r.1@
            == "接收并处理发往会话的输入"@,
        capability@ == "web.browse"@ ==> r.0@ == "浏览网页"@ && r.1@
            == "代表你打开并读取网页内容"@,
        capability@ == "ui.contribute"@ ==> r.0@ == "扩展界面"@ && r.1@
            == "向 Smelt 注册页面、Tab 或其他界面入口"@,
        capability@ == "ui.context.read"@ ==> r.0@ == "读取界面上下文"@ && r.1@
            == "读取当前页面、选择项等界面状态"@,
        capability@ == "ui.dialog"@ ==> r.0@ == "显示对话框"@ && r.1@
            == "在 Smelt 中打开提示或确认对话框"@,
        capability@ == "fs.reveal"@ ==> r.0@ == "在访达中显示"@ && r.1@
            == "在系统文件管理器中定位文件或目录"@,
        !seq![
            "session.read"@,
            "remote_sessions.read"@,
            "workspace.read"@,
            "workspace.create"@,
            "workspace.release"@,
            "project.read"@,
            "agent.message.read"@,
            "session.input.route"@,
            "web.browse"@,
            "ui.contribute"@,
            "ui.context.read"@,
            "ui.dialog"@,
            "fs.reveal"@,
        ].contains(capability@) ==> r.0@ == "未知权限"@ && r.1@
            == "当前版本的 Smelt 不认识这项权限，请谨慎确认"@,
{
    reveal_strlit("session.read");
    reveal_strlit("remote_sessions.read");
    reveal_strlit("workspace.read");
    reveal_strlit("workspace.create");
    reveal_strlit("workspace.release");
    reveal_strlit("project.read");
    reveal_strlit("agent.message.read");
    reveal_strlit("session.input.route");
    reveal_strlit("web.browse");
    reveal_strlit("ui.contribute");
    reveal_strlit("ui.context.read");
    reveal_strlit("ui.dialog");
    reveal_strlit("fs.reveal");
    let known = seq![
        "session.read"@,
        "remote_sessions.read"@,
        "workspace.read"@,
        "workspace.create"@,
        "workspace.release"@,
        "project.read"@,
        "agent.message.read"@,
        "session.input.route"@,
        "web.browse"@,
        "ui.contribute"@,
        "ui.context.read"@,
        "ui.dialog"@,
        "fs.reveal"@,
    ];
    assert(known[0] == "session.read"@ && known[1] == "remote_sessions.read"@ && known[2]
        == "workspace.read"@ && known[3] == "workspace.create"@ && known[4]
        == "workspace.release"@ && known[5] == "project.read"@ && known[6]
        == "agent.message.read"@ && known[7] == "session.input.route"@ && known[8]
        == "web.browse"@ && known[9] == "ui.contribute"@ && known[10] == "ui.context.read"@
        && known[11] == "ui.dialog"@ && known[12] == "fs.reveal"@);
    assert("session.read"@.len() == 12 && "remote_sessions.read"@.len() == 20
        && "workspace.read"@.len() == 14 && "workspace.create"@.len() == 16
        && "workspace.release"@.len() == 17 && "project.read"@.len() == 12
        && "agent.message.read"@.len() == 18 && "session.input.route"@.len() == 19
        && "web.browse"@.len() == 10 && "ui.contribute"@.len() == 13 && "ui.context.read"@.len()
        == 15 && "ui.dialog"@.len() == 9 && "fs.reveal"@.len() == 9);
    assert("session.read"@[0] == 's' && "project.read"@[0] == 'p' && "ui.dialog"@[0] == 'u'
        && "fs.reveal"@[0] == 'f');
}

/// A plugin's state is told in words, with its error where it does not run; one that the service
/// does not know is said to be missing.
pub proof fn plugin_states_are_told(
    status: &PluginStatus,
    r: String,
    missing: String,
)
    requires
        call_ensures(describe_plugin_status, (Some(status),), r),
        call_ensures(describe_plugin_status, (None,), missing),
    ensures
        missing@ == "未在守护中登记（守护可能没运行，或插件集尚未同步）"@,
        ({
            let words = match status.state {
                PluginLifecycleState::Ready { pid } => "运行中（pid "@ + text::decimal(pid as nat)
                    + "）"@,
                PluginLifecycleState::Discovered => "已发现，尚未启动"@,
                PluginLifecycleState::Starting => "正在启动"@,
                PluginLifecycleState::Backoff { attempt } => "启动失败，正在重试（第 "@
                    + text::decimal(attempt as nat) + " 次）"@,
                PluginLifecycleState::Failed => "启动失败"@,
                PluginLifecycleState::Stopped => "已停止"@,
                PluginLifecycleState::Disabled => "已停用"@,
            };
            &&& status.state is Ready || status.last_error is None ==> r@ == words
            &&& status.state !is Ready && status.last_error is Some ==> r@ == words + "："@ + (
            status.last_error->0)@
        }),
{
}

proof fn lemma_by_id(statuses: Seq<PluginStatus>, id: Seq<char>)
    ensures
        plugins::by_id(statuses).contains_key(id) <==> exists|i: int|
            0 <= i < statuses.len() && (#[trigger] statuses[i]).plugin_id@ == id,
        plugins::by_id(statuses).contains_key(id) ==> exists|i: int|
            0 <= i < statuses.len() && (#[trigger] statuses[i]).plugin_id@ == id && statuses[i]
                == plugins::by_id(statuses)[id] && forall|k: int|
                i < k < statuses.len() ==> (#[trigger] statuses[k]).plugin_id@ != id,
    decreases statuses.len(),
{
    if statuses.len() > 0 {
        let shorter = statuses.drop_last();
        lemma_by_id(shorter, id);
        if statuses.last().plugin_id@ == id {
            assert(statuses[statuses.len() - 1].plugin_id@ == id);
        } else {
            if plugins::by_id(shorter).contains_key(id) {
                let i = choose|i: int|
                    0 <= i < shorter.len() && (#[trigger] shorter[i]).plugin_id@ == id && shorter[i]
                        == plugins::by_id(shorter)[id] && forall|k: int|
                        i < k < shorter.len() ==> (#[trigger] shorter[k]).plugin_id@ != id;
                assert(statuses[i].plugin_id@ == id);
                assert forall|k: int| i < k < statuses.len() implies (
                #[trigger] statuses[k]).plugin_id@ != id by {
                    if k < shorter.len() {
                        assert(shorter[k] == statuses[k]);
                    }
                }
            }
            if exists|i: int| 0 <= i < statuses.len() && (#[trigger] statuses[i]).plugin_id@ == id {
                let i = choose|i: int|
                    0 <= i < statuses.len() && (#[trigger] statuses[i]).plugin_id@ == id;
                assert(shorter[i].plugin_id@ == id);
            }
        }
    }
}

/// The state of a plugin is the last that was told under its identifier.
pub proof fn states_are_found_by_identifier(
    statuses: &PluginRuntimeStatuses,
    plugin_id: &str,
    r: Option<&PluginStatus>,
)
    requires
        call_ensures(PluginRuntimeStatuses::get, (statuses, plugin_id), r),
    ensures
        r is None ==> forall|i: int|
            0 <= i < statuses.statuses@.len() ==> (#[trigger] statuses.statuses@[i]).plugin_id@
                != plugin_id@,
        r matches Some(found) ==> exists|i: int|
            0 <= i < statuses.statuses@.len() && (#[trigger] statuses.statuses@[i]).plugin_id@
                == plugin_id@ && statuses.statuses@[i] == *found && forall|k: int|
                i < k < statuses.statuses@.len() ==> (#[trigger] statuses.statuses@[k]).plugin_id@
                    != plugin_id@,
{
    lemma_by_id(statuses.statuses@, plugin_id@);
}

/// States are those that were told, and none where that failed, with the reason; forgotten ones
/// are gone.
pub proof fn told_states_replace_the_old(
    outcome: Result<Vec<PluginStatus>, String>,
    r: PluginRuntimeStatuses,
    statuses: &mut PluginRuntimeStatuses,
)
    requires
        call_ensures(refresh_plugin_statuses, (outcome,), r),
        call_ensures(forget_plugin_statuses, (statuses,), ()),
    ensures
        outcome matches Ok(told) ==> r.statuses@ == told@ && r.error is None,
        outcome matches Err(error) ==> r.statuses@.len() == 0 && r.error == Some(error),
        final(statuses).statuses@.len() == 0 && final(statuses).error is None,
{
}

/// States are asked for at most every two seconds.
pub proof fn states_are_asked_for_in_intervals(
    throttle: &mut PluginStatusThrottle,
    now: u64,
    r: bool,
)
    requires
        call_ensures(refresh_plugin_statuses_throttled, (throttle, now), r),
    ensures
        old(throttle).last is None ==> r,
        old(throttle).last matches Some(last) ==> (r <==> now >= last + 2000),
        r ==> final(throttle).last == Some(now),
        !r ==> final(throttle).last == old(throttle).last,
{
}

/// Listing, closing and showing leave alone what they are not about.
pub proof fn panels_leave_the_rest_alone<M>(
    a: &mut Workspace,
    ra: Vec<PiAuthAction<M>>,
    b: &mut Workspace,
    outcome: Result<Vec<PiAuthProvider>, String>,
    c: &mut Workspace,
    d: &mut Workspace,
    e: &mut Workspace,
    re: Vec<PiAuthAction<M>>,
)
    requires
        call_ensures(Workspace::refresh_pi_auth_providers::<M>, (a,), ra),
        call_ensures(Workspace::pi_auth_providers_listed, (b, outcome), ()),
        call_ensures(Workspace::toggle_pi_auth_show_all, (c,), ()),
        call_ensures(Workspace::close_pi_model_picker, (d,), ()),
        call_ensures(Workspace::cancel_pi_login::<M>, (e,), re),
    ensures
        final(a).pi_auth_model_picker == old(a).pi_auth_model_picker,
        final(b).pi_auth_model_picker == old(b).pi_auth_model_picker && final(b).pi_auth_show_all
            == old(b).pi_auth_show_all,
        final(c).pi_auth_model_picker == old(c).pi_auth_model_picker && final(c).pi_auth_error
            == old(c).pi_auth_error,
        final(d).pi_auth_providers == old(d).pi_auth_providers && final(d).pi_auth_error == old(d).pi_auth_error && final(d).pi_auth_show_all == old(d).pi_auth_show_all,
        final(e).pi_auth_model_picker == old(e).pi_auth_model_picker && final(e).pi_auth_show_all
            == old(e).pi_auth_show_all,
{
}

/// Sign-ins leave alone what they are not about.
pub proof fn sign_ins_leave_the_rest_alone<M>(
    a: &mut Workspace,
    provider_id: String,
    provider_name: String,
    method: M,
    ask_all: bool,
    ra: Vec<PiAuthAction<M>>,
    b: &mut Workspace,
    outcome: Result<(), String>,
    c: &mut Workspace,
    id: &str,
    event: PiLoginEvent,
    rc: Option<Vec<PiAuthAction<M>>>,
    d: &mut Workspace,
    plain: &str,
    secret: &str,
    rd: Vec<PiAuthAction<M>>,
    e: &mut Workspace,
    re: Vec<PiAuthAction<M>>,
)
    requires
        call_ensures(Workspace::start_pi_login::<M>, (a, provider_id, method, ask_all), ra),
        call_ensures(Workspace::pi_login_started, (b, provider_id, provider_name, outcome), ()),
        call_ensures(Workspace::apply_pi_login_event::<M>, (c, id, event), rc),
        call_ensures(Workspace::submit_pi_login_prompt::<M>, (d, plain, secret), rd),
        call_ensures(Workspace::choose_pi_login_option::<M>, (e, provider_id), re),
    ensures
        final(a).pi_auth_providers == old(a).pi_auth_providers && final(a).pi_auth_model_picker
            == old(a).pi_auth_model_picker && final(a).pi_auth_show_all == old(a).pi_auth_show_all,
        final(b).pi_auth_model_picker == old(b).pi_auth_model_picker && final(b).pi_auth_show_all
            == old(b).pi_auth_show_all,
        outcome is Ok ==> final(b).pi_auth_error == old(b).pi_auth_error,
        final(c).pi_auth_model_picker == old(c).pi_auth_model_picker && final(c).pi_auth_show_all
            == old(c).pi_auth_show_all,
        !(event is Done) ==> final(c).pi_auth_providers == old(c).pi_auth_providers && final(c).pi_auth_error == old(c).pi_auth_error,
        rc is Some && !(event is Done || event is AuthUrl) ==> (final(c).pi_login->0).auth_url == (
        old(c).pi_login->0).auth_url,
        rc is Some && !(event is Done || event is DeviceCode) ==> (
        final(c).pi_login->0).device_code == (old(c).pi_login->0).device_code,
        rc is Some && !(event is AuthUrl) ==> (final(c).pi_login->0).instructions == (
        old(c).pi_login->0).instructions,
        rc is Some && !(event is Prompt || event is PromptDone || event is Done || event is Error)
            ==> (final(c).pi_login->0).prompt == (old(c).pi_login->0).prompt,
        rc is Some && !(event is Done || event is AuthUrl || event is DeviceCode) ==> (
        rc->0)@.len() == 0,
        rc is Some && event is Done && !(old(c).pi_auth_providers is Some && old(c).pi_auth_providers->0 is Loading) ==> (rc->0)@.len() == 3 && (rc->0)@[1] is ListProviders
            && final(c).pi_auth_error is None,
        rc is Some && event is Done && (old(c).pi_auth_providers is Some && old(c).pi_auth_providers->0 is Loading) ==> (rc->0)@.len() == 2 && final(c).pi_auth_error
            == old(c).pi_auth_error,
        final(d).pi_auth_providers == old(d).pi_auth_providers && final(d).pi_auth_model_picker
            == old(d).pi_auth_model_picker && final(d).pi_auth_error == old(d).pi_auth_error,
        final(d).pi_login is Some <==> old(d).pi_login is Some,
        final(d).pi_login is Some ==> (final(d).pi_login->0).messages == (
        old(d).pi_login->0).messages && (final(d).pi_login->0).outcome == (
        old(d).pi_login->0).outcome && (final(d).pi_login->0).provider_id == (
        old(d).pi_login->0).provider_id,
        final(e).pi_auth_providers == old(e).pi_auth_providers && final(e).pi_auth_model_picker
            == old(e).pi_auth_model_picker && final(e).pi_auth_error == old(e).pi_auth_error,
        final(e).pi_login is Some ==> (final(e).pi_login->0).messages == (
        old(e).pi_login->0).messages && (final(e).pi_login->0).outcome == (
        old(e).pi_login->0).outcome,
{
}

/// Models, pickers and signing out leave alone what they are not about.
pub proof fn pickers_leave_the_rest_alone<M>(
    a: &mut Workspace,
    id: &str,
    outcome: Result<Vec<DiscoveredModel>, String>,
    b: &mut Workspace,
    provider_id: String,
    provider_name: String,
    rb: Vec<PiAuthAction<M>>,
    c: &mut Workspace,
    config: &PiDefaultModelConfig,
    saved: Result<(), String>,
    rc: Vec<PiAuthAction<M>>,
    d: &mut Workspace,
    rd: Vec<PiAuthAction<M>>,
    e: &mut Workspace,
    left: Result<(), String>,
    re: Vec<PiAuthAction<M>>,
)
    requires
        call_ensures(Workspace::pi_models_listed, (a, id, outcome), ()),
        call_ensures(Workspace::open_pi_model_picker::<M>, (b, provider_id, provider_name), rb),
        call_ensures(Workspace::set_pi_default_model::<M>, (c, config, saved), rc),
        call_ensures(Workspace::logout_pi_provider::<M>, (d, provider_id), rd),
        call_ensures(Workspace::pi_provider_logged_out::<M>, (e, id, left), re),
    ensures
        final(a).pi_auth_providers == old(a).pi_auth_providers && final(a).pi_auth_show_all == old(a).pi_auth_show_all,
        old(a).pi_login is None ==> final(a).pi_login is None,
        old(a).pi_auth_model_picker is None ==> final(a).pi_auth_model_picker is None,
        old(a).pi_login is Some && final(a).pi_login is Some ==> (
        final(a).pi_login->0).messages == (old(a).pi_login->0).messages && (
        final(a).pi_login->0).prompt == (old(a).pi_login->0).prompt && (
        final(a).pi_login->0).outcome == (old(a).pi_login->0).outcome && (
        final(a).pi_login->0).provider_id == (old(a).pi_login->0).provider_id,
        final(b).pi_auth_providers == old(b).pi_auth_providers && final(b).pi_auth_show_all == old(b).pi_auth_show_all,
        final(b).pi_auth_model_picker is Some ==> (
        final(b).pi_auth_model_picker->0).provider_name == provider_name && final(b).pi_auth_error
            is None,
        final(c).pi_login == old(c).pi_login && final(c).pi_auth_providers == old(c).pi_auth_providers && final(c).pi_auth_show_all == old(c).pi_auth_show_all,
        final(d).pi_login == old(d).pi_login && final(d).pi_auth_providers == old(d).pi_auth_providers && final(d).pi_auth_model_picker == old(d).pi_auth_model_picker,
        final(e).pi_login == old(e).pi_login && final(e).pi_auth_show_all == old(e).pi_auth_show_all,
        !(old(e).pi_auth_providers is Some && old(e).pi_auth_providers->0 is Loading) ==> final(e).pi_auth_error is None && re@.len() == if left is Ok {
            2nat
        } else {
            1
        },
        old(e).pi_auth_providers is Some && old(e).pi_auth_providers->0 is Loading && left is Ok
            ==> final(e).pi_auth_error == old(e).pi_auth_error && re@.len() == 1,
        old(e).pi_auth_model_picker is None ==> final(e).pi_auth_model_picker is None,
{
}

} // verus!
