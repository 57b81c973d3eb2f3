//! The panel in which one signs in to model providers.
//!
//! A sign-in runs in a process of its own. What that process reports is folded into the
//! panel, and what the user does becomes actions for whoever runs the process.

use vstd::prelude::*;

use crate::text;
use crate::text::{concat, same_text, trim};

verus! {

/// A provider that one can sign in to.
#[derive(Debug, PartialEq, Eq)]
pub struct PiAuthProvider {
    pub id: String,
    pub name: String,
    pub configured: bool,
}

/// A model that a provider offers.
#[derive(Debug, PartialEq, Eq)]
pub struct DiscoveredModel {
    pub id: String,
    pub name: Option<String>,
}

impl Clone for DiscoveredModel {
    fn clone(&self) -> (r: Self)
        ensures
            r == *self,
    {
        let name: Option<String> = match &self.name {
            Some(name) => Some(name.clone()),
            None => None,
        };
        DiscoveredModel { id: self.id.clone(), name }
    }
}

/// The providers, as far as they are known.
#[derive(Debug, PartialEq, Eq)]
pub enum PiAuthProvidersState {
    Loading,
    Ready(Vec<PiAuthProvider>),
    Failed(String),
}

/// The models that can be made the default. While they are asked for, there are none.
#[derive(Debug, PartialEq, Eq)]
pub struct PiAuthModelPicker {
    pub provider_id: String,
    pub provider_name: String,
    pub models: Option<Result<Vec<DiscoveredModel>, String>>,
}

/// What kind of answer a question wants.
#[derive(Clone, Copy, Debug, PartialEq, Eq, Structural)]
pub enum PiPromptKind {
    Text,
    ManualCode,
    Secret,
    Select,
}

/// One of the answers to choose from.
#[derive(Debug, PartialEq, Eq)]
pub struct PiPromptOption {
    pub id: String,
    pub label: String,
}

/// The question that a sign-in waits on.
#[derive(Debug, PartialEq, Eq)]
pub struct PiLoginPrompt {
    pub id: String,
    pub kind: PiPromptKind,
    pub message: String,
    pub placeholder: Option<String>,
    pub options: Vec<PiPromptOption>,
}

/// A sign-in that is under way or has just ended.
#[derive(Debug, PartialEq, Eq)]
pub struct PiLoginView {
    pub provider_id: String,
    pub provider_name: String,
    pub messages: Vec<String>,
    pub auth_url: Option<String>,
    pub instructions: Option<String>,
    /// The code to enter, and where.
    pub device_code: Option<(String, String)>,
    pub prompt: Option<PiLoginPrompt>,
    /// How it ended. While it is under way, there is nothing.
    pub outcome: Option<Result<(), String>>,
    pub models: Option<Result<Vec<DiscoveredModel>, String>>,
}

/// A link that comes with a message.
#[derive(Debug, PartialEq, Eq)]
pub struct PiLoginLink {
    pub url: String,
}

/// What the process of a sign-in reports.
#[derive(Debug, PartialEq, Eq)]
pub enum PiLoginEvent {
    AuthUrl { url: String, instructions: Option<String> },
    DeviceCode { user_code: String, verification_uri: String },
    Info { message: String, links: Vec<PiLoginLink> },
    Progress { message: String },
    Prompt {
        id: String,
        prompt_type: PiPromptKind,
        message: String,
        placeholder: Option<String>,
        options: Vec<PiPromptOption>,
    },
    PromptDone { id: String },
    Done,
    Error { message: String },
    Providers,
    Models,
    Unknown,
}

/// The field that takes the answer to a question.
#[derive(Clone, Copy, Debug, PartialEq, Eq, Structural)]
pub enum PiLoginInput {
    Plain,
    Secret,
}

/// What is to be done outside the panel. `M` is a way to sign in, which is handed on as it is.
#[derive(Debug, PartialEq, Eq)]
pub enum PiAuthAction<M> {
    /// Ask which providers there are.
    ListProviders,
    /// Ask which models a provider offers.
    ListModels(String),
    /// Start the process of a sign-in to a provider, by the given method. With `ask_all` it asks
    /// for everything.
    StartLogin { provider_id: String, method: M, ask_all: bool },
    /// End the process of the sign-in.
    CancelLogin,
    /// Hand the process of the sign-in the answer to a question.
    Answer { prompt_id: String, value: String },
    /// Empty a field.
    ClearInput(PiLoginInput),
    /// Open an address in the browser.
    OpenUrl(String),
    /// Read the model settings anew.
    ReloadModelSettings,
    /// Forget the credentials of a provider.
    Logout(String),
    NotifySuccess(String),
    NotifyError(String),
}

/// The default model to save.
#[derive(Debug, PartialEq, Eq)]
pub struct PiDefaultModelConfig {
    pub provider: String,
    pub model: String,
    pub base_url: String,
    pub thinking_level: String,
}

/// The part of the workspace that the panel shows.
#[derive(Debug, PartialEq, Eq)]
pub struct Workspace {
    pub pi_auth_providers: Option<PiAuthProvidersState>,
    pub pi_login: Option<PiLoginView>,
    pub pi_auth_model_picker: Option<PiAuthModelPicker>,
    pub pi_auth_error: Option<String>,
    pub pi_auth_show_all: bool,
}

/// The sign-in is to the given provider.
pub open spec fn signs_in_to(login: Option<PiLoginView>, provider: Seq<char>) -> bool {
    login matches Some(view) && view.provider_id@ == provider
}

/// The picker shows models of the given provider.
pub open spec fn picks_from(picker: Option<PiAuthModelPicker>, provider: Seq<char>) -> bool {
    picker matches Some(shown) && shown.provider_id@ == provider
}

/// The addresses of links.
pub open spec fn addresses(links: Seq<PiLoginLink>) -> Seq<String> {
    links.map_values(|link: PiLoginLink| link.url)
}

/// What an event makes of the messages of a sign-in.
pub open spec fn told(messages: Seq<String>, event: PiLoginEvent) -> Seq<String> {
    match event {
        PiLoginEvent::Info { message, links } => messages.push(message) + addresses(links@),
        PiLoginEvent::Progress { message } => messages.push(message),
        _ => messages,
    }
}

/// What an event makes of the question of a sign-in.
pub open spec fn asked(prompt: Option<PiLoginPrompt>, event: PiLoginEvent) -> Option<
    PiLoginPrompt,
> {
    match event {
        PiLoginEvent::Prompt { id, prompt_type, message, placeholder, options } => Some(
            PiLoginPrompt { id, kind: prompt_type, message, placeholder, options },
        ),
        PiLoginEvent::PromptDone { id } => if prompt is Some && prompt->0.id@ == id@ {
            None
        } else {
            prompt
        },
        PiLoginEvent::Done => None,
        PiLoginEvent::Error { .. } => None,
        _ => prompt,
    }
}

/// What an event makes of a sign-in.
pub open spec fn is_after(before: PiLoginView, event: PiLoginEvent, after: PiLoginView) -> bool {
    &&& after.provider_id == before.provider_id
    &&& after.provider_name == before.provider_name
    &&& after.models == before.models
    &&& after.messages@ == told(before.messages@, event)
    &&& after.prompt == asked(before.prompt, event)
    &&& after.auth_url == match event {
        PiLoginEvent::AuthUrl { url, .. } => Some(url),
        PiLoginEvent::Done => None,
        _ => before.auth_url,
    }
    &&& after.instructions == match event {
        PiLoginEvent::AuthUrl { instructions, .. } => instructions,
        _ => before.instructions,
    }
    &&& after.device_code == match event {
        PiLoginEvent::DeviceCode { user_code, verification_uri } => Some(
            (user_code, verification_uri),
        ),
        PiLoginEvent::Done => None,
        _ => before.device_code,
    }
    &&& after.outcome == match event {
        PiLoginEvent::Done => Some(Ok(())),
        PiLoginEvent::Error { message } => Some(Err(message)),
        _ => before.outcome,
    }
}

/// What is to be done where the providers are asked for: nothing while they are asked for
/// already.
pub open spec fn listing<M>(providers: Option<PiAuthProvidersState>) -> Seq<PiAuthAction<M>> {
    if providers is Some && providers->0 is Loading {
        seq![]
    } else {
        seq![PiAuthAction::<M>::ListProviders]
    }
}

/// What is to be done to end a sign-in.
pub open spec fn ending<M>(login: Option<PiLoginView>) -> Seq<PiAuthAction<M>> {
    if login is Some {
        seq![PiAuthAction::<M>::CancelLogin]
    } else {
        seq![]
    }
}

/// What is to be done on an event.
pub open spec fn follow_up<M>(
    event: PiLoginEvent,
    provider: String,
    providers: Option<PiAuthProvidersState>,
) -> Seq<PiAuthAction<M>> {
    match event {
        PiLoginEvent::AuthUrl { url, .. } => seq![PiAuthAction::<M>::OpenUrl(url)],
        PiLoginEvent::DeviceCode { verification_uri, .. } => seq![
            PiAuthAction::<M>::OpenUrl(verification_uri),
        ],
        PiLoginEvent::Done => seq![PiAuthAction::<M>::ReloadModelSettings] + listing::<M>(providers) + seq![
            PiAuthAction::<M>::ListModels(provider),
        ],
        _ => seq![],
    }
}

/// Models that may be known, as a sequence.
pub open spec fn known_models(models: Option<Result<Vec<DiscoveredModel>, String>>) -> Option<
    Result<Seq<DiscoveredModel>, String>,
> {
    match models {
        Some(Ok(list)) => Some(Ok(list@)),
        Some(Err(error)) => Some(Err(error)),
        None => None,
    }
}

/// The field that takes the answer to a question. One to choose from has none.
pub open spec fn field_of(kind: PiPromptKind) -> Option<PiLoginInput> {
    match kind {
        PiPromptKind::Select => None,
        PiPromptKind::Secret => Some(PiLoginInput::Secret),
        PiPromptKind::Text => Some(PiLoginInput::Plain),
        PiPromptKind::ManualCode => Some(PiLoginInput::Plain),
    }
}

impl PiLoginView {
    /// The field that takes the answer to the question at hand.
    pub fn active_input(&self) -> (r: Option<PiLoginInput>)
        ensures
            r == match self.prompt {
                Some(prompt) => field_of(prompt.kind),
                None => None,
            },
    {
        match &self.prompt {
            None => None,
            Some(prompt) => match prompt.kind {
                PiPromptKind::Select => None,
                PiPromptKind::Secret => Some(PiLoginInput::Secret),
                _ => Some(PiLoginInput::Plain),
            },
        }
    }
}

fn copy_models(models: &Result<Vec<DiscoveredModel>, String>) -> (r: Result<
    Vec<DiscoveredModel>,
    String,
>)
    ensures
        known_models(Some(r)) == known_models(Some(*models)),
{
    match models {
        Err(error) => Err(error.clone()),
        Ok(list) => {
            let mut out: Vec<DiscoveredModel> = Vec::new();
            let mut i: usize = 0;
            while i < list.len()
                invariant
                    i <= list.len(),
                    out@ == list@.take(i as int),
                decreases list.len() - i,
            {
                out.push(list[i].clone());
                assert(list@.take(i + 1) =~= list@.take(i as int).push(list@[i as int]));
                i = i + 1;
            }
            assert(list@.take(i as int) =~= list@);
            Ok(out)
        },
    }
}

impl Workspace {
    /// A workspace whose panel is closed.
    pub fn new() -> (r: Self)
        ensures
            r == (Workspace {
                pi_auth_providers: None,
                pi_login: None,
                pi_auth_model_picker: None,
                pi_auth_error: None,
                pi_auth_show_all: false,
            }),
    {
        Workspace {
            pi_auth_providers: None,
            pi_login: None,
            pi_auth_model_picker: None,
            pi_auth_error: None,
            pi_auth_show_all: false,
        }
    }

    /// Asks which providers there are and whether one is signed in to them, unless that is
    /// being asked already.
    pub fn refresh_pi_auth_providers<M>(&mut self) -> (r: Vec<PiAuthAction<M>>)
        ensures
            r@ == listing::<M>(old(self).pi_auth_providers),
            *final(self) == if r@.len() == 0 {
                *old(self)
            } else {
                Workspace {
                    pi_auth_providers: Some(PiAuthProvidersState::Loading),
                    pi_auth_error: None,
                    ..*old(self)
                }
            },
    {
        if let Some(PiAuthProvidersState::Loading) = &self.pi_auth_providers {
            return Vec::new();
        }
        self.pi_auth_error = None;
        self.pi_auth_providers = Some(PiAuthProvidersState::Loading);
        let mut actions: Vec<PiAuthAction<M>> = Vec::new();
        actions.push(PiAuthAction::<M>::ListProviders);
        assert(actions@ =~= seq![PiAuthAction::<M>::ListProviders]);
        actions
    }

    /// Takes the providers in that were asked for.
    pub fn pi_auth_providers_listed(&mut self, outcome: Result<Vec<PiAuthProvider>, String>)
        ensures
            *final(self) == (Workspace {
                pi_auth_providers: Some(
                    match outcome {
                        Ok(providers) => PiAuthProvidersState::Ready(providers),
                        Err(error) => PiAuthProvidersState::Failed(error),
                    },
                ),
                ..*old(self)
            }),
    {
        self.pi_auth_providers = Some(
            match outcome {
                Ok(providers) => PiAuthProvidersState::Ready(providers),
                Err(error) => PiAuthProvidersState::Failed(error),
            },
        );
    }

    /// Closes the panel. A sign-in that is under way ends with it.
    pub fn close_pi_auth_panel<M>(&mut self) -> (r: Vec<PiAuthAction<M>>)
        ensures
            r@ == ending::<M>(old(self).pi_login),
            *final(self) == (Workspace {
                pi_auth_providers: None,
                pi_login: None,
                pi_auth_model_picker: None,
                pi_auth_error: None,
                ..*old(self)
            }),
    {
        let actions: Vec<PiAuthAction<M>> = self.cancel_pi_login();
        self.pi_auth_model_picker = None;
        self.pi_auth_providers = None;
        self.pi_auth_error = None;
        actions
    }

    /// Shows all providers, or again only those that one can subscribe to.
    pub fn toggle_pi_auth_show_all(&mut self)
        ensures
            *final(self) == (Workspace {
                pi_auth_show_all: !old(self).pi_auth_show_all,
                ..*old(self)
            }),
    {
        self.pi_auth_show_all = !self.pi_auth_show_all;
    }

    /// Starts a sign-in by the given method. One that is under way ends.
    pub fn start_pi_login<M>(&mut self, provider_id: String, method: M, ask_all: bool) -> (r: Vec<
        PiAuthAction<M>,
    >)
        ensures
            r@ == ending::<M>(old(self).pi_login).push(
                PiAuthAction::<M>::StartLogin { provider_id, method, ask_all },
            ),
            *final(self) == (Workspace { pi_login: None, pi_auth_error: None, ..*old(self) }),
    {
        let mut actions: Vec<PiAuthAction<M>> = self.cancel_pi_login();
        self.pi_auth_error = None;
        actions.push(PiAuthAction::<M>::StartLogin { provider_id, method, ask_all });
        actions
    }

    /// Shows a sign-in whose process has started, or why it could not start.
    pub fn pi_login_started(
        &mut self,
        provider_id: String,
        provider_name: String,
        outcome: Result<(), String>,
    )
        ensures
            match outcome {
                Err(error) => *final(self) == (Workspace {
                    pi_auth_error: Some(error),
                    ..*old(self)
                }),
                Ok(_) => {
                    &&& *final(self) == (Workspace {
                        pi_login: final(self).pi_login,
                        ..*old(self)
                    })
                    &&& final(self).pi_login matches Some(view) && {
                        &&& view.provider_id == provider_id
                        &&& view.provider_name == provider_name
                        &&& view.messages@.len() == 0
                        &&& view.auth_url is None
                        &&& view.instructions is None
                        &&& view.device_code is None
                        &&& view.prompt is None
                        &&& view.outcome is None
                        &&& view.models is None
                    }
                },
            },
    {
        match outcome {
            Err(error) => {
                self.pi_auth_error = Some(error);
            },
            Ok(_) => {
                self.pi_login = Some(
                    PiLoginView {
                        provider_id,
                        provider_name,
                        messages: Vec::new(),
                        auth_url: None,
                        instructions: None,
                        device_code: None,
                        prompt: None,
                        outcome: None,
                        models: None,
                    },
                );
            },
        }
    }

    /// Folds what the process of a sign-in reports into the panel. `None` says that the panel
    /// has turned to something else, and that nobody listens to that process any more.
    pub fn apply_pi_login_event<M>(&mut self, provider_id: &str, event: PiLoginEvent) -> (r: Option<
        Vec<PiAuthAction<M>>,
    >)
        ensures
            r is Some <==> signs_in_to(old(self).pi_login, provider_id@),
            r is None ==> *final(self) == *old(self),
            r matches Some(actions) ==> {
                let before = old(self).pi_login->0;
                &&& actions@ == follow_up::<M>(event, before.provider_id, old(self).pi_auth_providers)
                &&& final(self).pi_login matches Some(after) && is_after(before, event, after)
                &&& *final(self) == (Workspace {
                    pi_login: final(self).pi_login,
                    pi_auth_providers: if event is Done {
                        Some(PiAuthProvidersState::Loading)
                    } else {
                        old(self).pi_auth_providers
                    },
                    pi_auth_error: if event is Done && listing::<M>(old(self).pi_auth_providers).len() > 0 {
                        None
                    } else {
                        old(self).pi_auth_error
                    },
                    ..*old(self)
                })
            },
    {
        let listens: bool = match &self.pi_login {
            Some(view) => same_text(view.provider_id.as_str(), provider_id),
            None => false,
        };
        if !listens {
            return None;
        }
        let mut login: Option<PiLoginView> = None;
        core::mem::swap(&mut login, &mut self.pi_login);
        let mut view: PiLoginView = login.unwrap();
        let ghost before = view;
        let mut actions: Vec<PiAuthAction<M>> = Vec::new();
        match event {
            PiLoginEvent::AuthUrl { url, instructions } => {
                actions.push(PiAuthAction::<M>::OpenUrl(url.clone()));
                view.auth_url = Some(url);
                view.instructions = instructions;
            },
            PiLoginEvent::DeviceCode { user_code, verification_uri } => {
                actions.push(PiAuthAction::<M>::OpenUrl(verification_uri.clone()));
                view.device_code = Some((user_code, verification_uri));
            },
            PiLoginEvent::Info { message, links } => {
                view.messages.push(message);
                let ghost start = view.messages@;
                let mut i: usize = 0;
                assert(start + addresses(links@).take(0) =~= start);
                while i < links.len()
                    invariant
                        i <= links.len(),
                        view == (PiLoginView { messages: view.messages, ..before }),
                        view.messages@ == start + addresses(links@).take(i as int),
                    decreases links.len() - i,
                {
                    view.messages.push(links[i].url.clone());
                    i = i + 1;
                    assert(view.messages@ =~= start + addresses(links@).take(i as int));
                }
                assert(addresses(links@).take(i as int) =~= addresses(links@));
            },
            PiLoginEvent::Progress { message } => {
                view.messages.push(message);
            },
            PiLoginEvent::Prompt { id, prompt_type, message, placeholder, options } => {
                view.prompt = Some(
                    PiLoginPrompt { id, kind: prompt_type, message, placeholder, options },
                );
            },
            PiLoginEvent::PromptDone { id } => {
                let answered: bool = match &view.prompt {
                    Some(prompt) => same_text(prompt.id.as_str(), id.as_str()),
                    None => false,
                };
                if answered {
                    view.prompt = None;
                }
            },
            PiLoginEvent::Done => {
                view.prompt = None;
                view.auth_url = None;
                view.device_code = None;
                view.outcome = Some(Ok(()));
                actions.push(PiAuthAction::<M>::ReloadModelSettings);
                let mut listing: Vec<PiAuthAction<M>> = self.refresh_pi_auth_providers();
                actions.append(&mut listing);
                actions.push(PiAuthAction::<M>::ListModels(view.provider_id.clone()));
            },
            PiLoginEvent::Error { message } => {
                view.prompt = None;
                view.outcome = Some(Err(message));
            },
            PiLoginEvent::Providers | PiLoginEvent::Models | PiLoginEvent::Unknown => {},
        }
        self.pi_login = Some(view);
        assert(actions@ =~= follow_up::<M>(event, before.provider_id, old(self).pi_auth_providers));
        Some(actions)
    }

    /// Takes the models in that were asked for, wherever the provider is still shown.
    pub fn pi_models_listed(
        &mut self,
        provider_id: &str,
        outcome: Result<Vec<DiscoveredModel>, String>,
    )
        ensures
            *final(self) == (Workspace {
                pi_login: final(self).pi_login,
                pi_auth_model_picker: final(self).pi_auth_model_picker,
                ..*old(self)
            }),
            if signs_in_to(old(self).pi_login, provider_id@) {
                final(self).pi_login matches Some(view) && view == (PiLoginView {
                    models: view.models,
                    ..old(self).pi_login->0
                }) && known_models(view.models) == known_models(Some(outcome))
            } else {
                final(self).pi_login == old(self).pi_login
            },
            if picks_from(old(self).pi_auth_model_picker, provider_id@) {
                final(self).pi_auth_model_picker matches Some(picker) && picker == (
                PiAuthModelPicker {
                    models: picker.models,
                    ..old(self).pi_auth_model_picker->0
                }) && known_models(picker.models) == known_models(Some(outcome))
            } else {
                final(self).pi_auth_model_picker == old(self).pi_auth_model_picker
            },
    {
        let mut login: Option<PiLoginView> = None;
        core::mem::swap(&mut login, &mut self.pi_login);
        self.pi_login = match login {
            Some(mut view) => {
                if same_text(view.provider_id.as_str(), provider_id) {
                    view.models = Some(copy_models(&outcome));
                }
                Some(view)
            },
            None => None,
        };
        let mut picker: Option<PiAuthModelPicker> = None;
        core::mem::swap(&mut picker, &mut self.pi_auth_model_picker);
        self.pi_auth_model_picker = match picker {
            Some(mut shown) => {
                if same_text(shown.provider_id.as_str(), provider_id) {
                    shown.models = Some(outcome);
                }
                Some(shown)
            },
            None => None,
        };
    }

    /// Opens the models of a provider to pick the default from, or closes them where they are
    /// open.
    pub fn open_pi_model_picker<M>(&mut self, provider_id: String, provider_name: String) -> (r: Vec<
        PiAuthAction<M>,
    >)
        ensures
            if picks_from(old(self).pi_auth_model_picker, provider_id@) {
                &&& r@.len() == 0
                &&& *final(self) == (Workspace { pi_auth_model_picker: None, ..*old(self) })
            } else {
                &&& r@ == seq![PiAuthAction::<M>::ListModels(provider_id)]
                &&& *final(self) == (Workspace {
                    pi_auth_model_picker: Some(
                        PiAuthModelPicker { provider_id, provider_name, models: None },
                    ),
                    pi_auth_error: None,
                    ..*old(self)
                })
            },
    {
        let shown: bool = match &self.pi_auth_model_picker {
            Some(picker) => same_text(picker.provider_id.as_str(), provider_id.as_str()),
            None => false,
        };
        if shown {
            self.pi_auth_model_picker = None;
            return Vec::new();
        }
        self.pi_auth_error = None;
        let asked: String = provider_id.clone();
        self.pi_auth_model_picker = Some(
            PiAuthModelPicker { provider_id, provider_name, models: None },
        );
        let mut actions: Vec<PiAuthAction<M>> = Vec::new();
        actions.push(PiAuthAction::<M>::ListModels(asked));
        assert(actions@ =~= seq![PiAuthAction::<M>::ListModels(provider_id)]);
        actions
    }

    /// Closes the models to pick the default from.
    pub fn close_pi_model_picker(&mut self)
        ensures
            *final(self) == (Workspace { pi_auth_model_picker: None, ..*old(self) }),
    {
        self.pi_auth_model_picker = None;
    }

    /// Answers the question at hand with what stands in its field, without the space around
    /// it, and empties the field. A question to choose from is not answered so.
    pub fn submit_pi_login_prompt<M>(&mut self, plain: &str, secret: &str) -> (r: Vec<PiAuthAction<M>>)
        ensures
            match old(self).pi_login {
                Some(view) => match view.prompt {
                    Some(prompt) => match field_of(prompt.kind) {
                        Some(field) => {
                            &&& r@.len() == 2
                            &&& r@[0] matches PiAuthAction::<M>::Answer { prompt_id, value }
                                && prompt_id == prompt.id && value@ == text::trimmed(
                                if field is Secret {
                                    secret@
                                } else {
                                    plain@
                                },
                            )
                            &&& r@[1] == PiAuthAction::<M>::ClearInput(field)
                            &&& *final(self) == (Workspace {
                                pi_login: Some(PiLoginView { prompt: None, ..view }),
                                ..*old(self)
                            })
                        },
                        None => r@.len() == 0 && *final(self) == *old(self),
                    },
                    None => r@.len() == 0 && *final(self) == *old(self),
                },
                None => r@.len() == 0 && *final(self) == *old(self),
            },
    {
        let mut actions: Vec<PiAuthAction<M>> = Vec::new();
        let mut login: Option<PiLoginView> = None;
        core::mem::swap(&mut login, &mut self.pi_login);
        if let Some(mut view) = login {
            let field: Option<PiLoginInput> = view.active_input();
            if let Some(field) = field {
                let mut prompt: Option<PiLoginPrompt> = None;
                core::mem::swap(&mut prompt, &mut view.prompt);
                if let Some(prompt) = prompt {
                    let value: String = match field {
                        PiLoginInput::Secret => trim(secret),
                        PiLoginInput::Plain => trim(plain),
                    };
                    actions.push(PiAuthAction::<M>::Answer { prompt_id: prompt.id, value });
                    actions.push(PiAuthAction::<M>::ClearInput(field));
                }
            }
            self.pi_login = Some(view);
        }
        actions
    }

    /// Answers the question at hand with one of the answers to choose from.
    pub fn choose_pi_login_option<M>(&mut self, option_id: String) -> (r: Vec<PiAuthAction<M>>)
        ensures
            match old(self).pi_login {
                Some(view) => match view.prompt {
                    Some(prompt) => {
                        &&& r@ == seq![
                            PiAuthAction::<M>::Answer { prompt_id: prompt.id, value: option_id },
                        ]
                        &&& *final(self) == (Workspace {
                            pi_login: Some(PiLoginView { prompt: None, ..view }),
                            ..*old(self)
                        })
                    },
                    None => r@.len() == 0 && *final(self) == *old(self),
                },
                None => r@.len() == 0 && *final(self) == *old(self),
            },
    {
        let mut actions: Vec<PiAuthAction<M>> = Vec::new();
        let mut login: Option<PiLoginView> = None;
        core::mem::swap(&mut login, &mut self.pi_login);
        if let Some(mut view) = login {
            let mut prompt: Option<PiLoginPrompt> = None;
            core::mem::swap(&mut prompt, &mut view.prompt);
            if let Some(prompt) = prompt {
                actions.push(PiAuthAction::<M>::Answer { prompt_id: prompt.id, value: option_id });
            }
            self.pi_login = Some(view);
        }
        actions
    }

    /// Ends the sign-in, or puts one away that has ended.
    pub fn cancel_pi_login<M>(&mut self) -> (r: Vec<PiAuthAction<M>>)
        ensures
            r@ == ending::<M>(old(self).pi_login),
            *final(self) == (Workspace { pi_login: None, ..*old(self) }),
    {
        let mut actions: Vec<PiAuthAction<M>> = Vec::new();
        if self.pi_login.is_some() {
            actions.push(PiAuthAction::<M>::CancelLogin);
        }
        self.pi_login = None;
        assert(actions@ =~= ending::<M>(old(self).pi_login));
        actions
    }

    /// The default model to save for a choice of provider and model.
    pub fn pi_default_model(provider_id: String, model_id: String) -> (r: PiDefaultModelConfig)
        ensures
            r.provider == provider_id,
            r.model == model_id,
            r.base_url@.len() == 0,
            r.thinking_level@.len() == 0,
    {
        proof {
            reveal_strlit("");
        }
        PiDefaultModelConfig {
            provider: provider_id,
            model: model_id,
            base_url: "".to_owned(),
            thinking_level: "".to_owned(),
        }
    }

    /// Shows that a default model was saved, or why it was not.
    pub fn set_pi_default_model<M>(
        &mut self,
        config: &PiDefaultModelConfig,
        saved: Result<(), String>,
    ) -> (r: Vec<PiAuthAction<M>>)
        ensures
            match saved {
                Ok(_) => {
                    &&& r@.len() == 2
                    &&& r@[0] is ReloadModelSettings
                    &&& r@[1] matches PiAuthAction::<M>::NotifySuccess(message) && message@
                        == "已设为默认模型："@ + config.provider@ + " / "@ + config.model@
                    &&& *final(self) == (Workspace { pi_auth_model_picker: None, ..*old(self) })
                },
                Err(error) => {
                    &&& r@ == seq![PiAuthAction::<M>::NotifyError(error)]
                    &&& *final(self) == (Workspace { pi_auth_error: Some(error), ..*old(self) })
                },
            },
    {
        let mut actions: Vec<PiAuthAction<M>> = Vec::new();
        match saved {
            Ok(_) => {
                self.pi_auth_model_picker = None;
                let mut message: String = concat("已设为默认模型：", config.provider.as_str());
                message.append(" / ");
                message.append(config.model.as_str());
                actions.push(PiAuthAction::<M>::ReloadModelSettings);
                actions.push(PiAuthAction::<M>::NotifySuccess(message));
            },
            Err(error) => {
                actions.push(PiAuthAction::<M>::NotifyError(error.clone()));
                self.pi_auth_error = Some(error);
            },
        }
        actions
    }

    /// Forgets the credentials of a provider.
    pub fn logout_pi_provider<M>(&mut self, provider_id: String) -> (r: Vec<PiAuthAction<M>>)
        ensures
            r@ == seq![PiAuthAction::<M>::Logout(provider_id)],
            *final(self) == (Workspace { pi_auth_error: None, ..*old(self) }),
    {
        self.pi_auth_error = None;
        let mut actions: Vec<PiAuthAction<M>> = Vec::new();
        actions.push(PiAuthAction::<M>::Logout(provider_id));
        assert(actions@ =~= seq![PiAuthAction::<M>::Logout(provider_id)]);
        actions
    }

    /// Shows that the credentials of a provider are gone, or why they are not, and asks anew
    /// which providers there are. Its models can no longer be picked.
    pub fn pi_provider_logged_out<M>(&mut self, provider_id: &str, outcome: Result<(), String>) -> (r:
        Vec<PiAuthAction<M>>)
        ensures
            r@ == (if outcome is Ok {
                seq![PiAuthAction::<M>::ReloadModelSettings]
            } else {
                seq![]
            }) + listing::<M>(old(self).pi_auth_providers),
            *final(self) == (Workspace {
                pi_auth_providers: Some(PiAuthProvidersState::Loading),
                pi_auth_model_picker: if outcome is Ok && picks_from(
                    old(self).pi_auth_model_picker,
                    provider_id@,
                ) {
                    None
                } else {
                    old(self).pi_auth_model_picker
                },
                pi_auth_error: if listing::<M>(old(self).pi_auth_providers).len() > 0 {
                    None
                } else if outcome is Err {
                    Some(outcome->Err_0)
                } else {
                    old(self).pi_auth_error
                },
                ..*old(self)
            }),
    {
        let mut actions: Vec<PiAuthAction<M>> = Vec::new();
        match outcome {
            Err(error) => {
                self.pi_auth_error = Some(error);
            },
            Ok(_) => {
                actions.push(PiAuthAction::<M>::ReloadModelSettings);
                let shown: bool = match &self.pi_auth_model_picker {
                    Some(picker) => same_text(picker.provider_id.as_str(), provider_id),
                    None => false,
                };
                if shown {
                    self.pi_auth_model_picker = None;
                }
            },
        }
        let mut listing: Vec<PiAuthAction<M>> = self.refresh_pi_auth_providers();
        actions.append(&mut listing);
        actions
    }
}

/// A sign-in that has succeeded or failed asks nothing.
pub proof fn ended_sign_ins_ask_nothing(before: PiLoginView, event: PiLoginEvent, after: PiLoginView)
    requires
        event is Done || event is Error,
        is_after(before, event, after),
    ensures
        after.prompt is None,
        after.outcome is Some,
{
}

/// No event takes a message back.
pub proof fn messages_stay(before: PiLoginView, event: PiLoginEvent, after: PiLoginView, i: int)
    requires
        is_after(before, event, after),
        0 <= i < before.messages@.len(),
    ensures
        after.messages@.len() >= before.messages@.len(),
        after.messages@[i] == before.messages@[i],
{
}

/// That another question was answered leaves the question at hand as it is.
pub proof fn only_its_own_answer_closes_a_question(
    before: PiLoginView,
    event: PiLoginEvent,
    after: PiLoginView,
)
    requires
        is_after(before, event, after),
        before.prompt is Some,
        event is PromptDone,
    ensures
        event->PromptDone_id@ != before.prompt->0.id@ ==> after.prompt == before.prompt,
        event->PromptDone_id@ == before.prompt->0.id@ ==> after.prompt is None,
{
}

} // verus!
