use smelt::settings::pi_auth::{
    DiscoveredModel, PiAuthAction, PiAuthProvider, PiAuthProvidersState, PiLoginEvent,
    PiLoginInput, PiLoginLink, PiPromptKind, PiPromptOption, Workspace,
};

#[derive(Debug, PartialEq, Eq)]
enum Method {
    Subscription,
    ApiKey,
}

type Action = PiAuthAction<Method>;

fn signing_in() -> Workspace {
    let mut workspace = Workspace::new();
    workspace.pi_login_started("acme".to_string(), "Acme".to_string(), Ok(()));
    workspace
}

fn prompt(kind: PiPromptKind) -> PiLoginEvent {
    PiLoginEvent::Prompt {
        id: "q1".to_string(),
        prompt_type: kind,
        message: "?".to_string(),
        placeholder: None,
        options: vec![PiPromptOption { id: "o".to_string(), label: "O".to_string() }],
    }
}

fn apply(workspace: &mut Workspace, event: PiLoginEvent) -> Vec<Action> {
    workspace.apply_pi_login_event::<Method>("acme", event).unwrap()
}

#[test]
fn providers_are_asked_for_once() {
    let mut workspace = Workspace::new();
    assert_eq!(workspace.refresh_pi_auth_providers::<Method>(), [Action::ListProviders]);
    assert_eq!(workspace.refresh_pi_auth_providers::<Method>(), []);
    let provider =
        PiAuthProvider { id: "a".to_string(), name: "A".to_string(), configured: true };
    workspace.pi_auth_providers_listed(Ok(vec![provider]));
    assert!(matches!(workspace.pi_auth_providers, Some(PiAuthProvidersState::Ready(_))));
    workspace.pi_auth_providers_listed(Err("x".to_string()));
    assert_eq!(
        workspace.pi_auth_providers,
        Some(PiAuthProvidersState::Failed("x".to_string()))
    );
    workspace.toggle_pi_auth_show_all();
    assert!(workspace.pi_auth_show_all);
}

#[test]
fn one_sign_in_runs_at_a_time() {
    let mut workspace = Workspace::new();
    assert_eq!(
        workspace.start_pi_login("acme".to_string(), Method::Subscription, true),
        [Action::StartLogin {
            provider_id: "acme".to_string(),
            method: Method::Subscription,
            ask_all: true,
        }]
    );
    let mut workspace = signing_in();
    assert_eq!(
        workspace.start_pi_login("other".to_string(), Method::ApiKey, false),
        [
            Action::CancelLogin,
            Action::StartLogin {
                provider_id: "other".to_string(),
                method: Method::ApiKey,
                ask_all: false,
            }
        ]
    );
    assert_eq!(workspace.pi_login, None);
    workspace.pi_login_started("other".to_string(), "O".to_string(), Err("x".to_string()));
    assert_eq!(workspace.pi_auth_error.as_deref(), Some("x"));
}

#[test]
fn addresses_are_opened() {
    let mut workspace = signing_in();
    let event =
        PiLoginEvent::AuthUrl { url: "https://a".to_string(), instructions: Some("i".to_string()) };
    assert_eq!(
        apply(&mut workspace, event),
        [Action::OpenUrl("https://a".to_string())]
    );
    let event = PiLoginEvent::DeviceCode {
        user_code: "C".to_string(),
        verification_uri: "https://v".to_string(),
    };
    assert_eq!(
        apply(&mut workspace, event),
        [Action::OpenUrl("https://v".to_string())]
    );
    let view = workspace.pi_login.as_ref().unwrap();
    assert_eq!(view.auth_url.as_deref(), Some("https://a"));
    assert_eq!(view.instructions.as_deref(), Some("i"));
    assert_eq!(view.device_code, Some(("C".to_string(), "https://v".to_string())));
}

#[test]
fn messages_are_collected() {
    let mut workspace = signing_in();
    apply(
        &mut workspace,
        PiLoginEvent::Info {
            message: "m".to_string(),
            links: vec![PiLoginLink { url: "l".to_string() }],
        },
    );
    apply(&mut workspace, PiLoginEvent::Progress { message: "p".to_string() });
    apply(&mut workspace, PiLoginEvent::Unknown);
    assert_eq!(workspace.pi_login.unwrap().messages, ["m", "l", "p"]);
}

#[test]
fn questions_are_answered_from_their_field() {
    let mut workspace = signing_in();
    apply(&mut workspace, prompt(PiPromptKind::Secret));
    assert_eq!(
        workspace.pi_login.as_ref().unwrap().active_input(),
        Some(PiLoginInput::Secret)
    );
    assert_eq!(
        workspace.submit_pi_login_prompt::<Method>("plain", " hidden "),
        [
            Action::Answer { prompt_id: "q1".to_string(), value: "hidden".to_string() },
            Action::ClearInput(PiLoginInput::Secret)
        ]
    );
    assert_eq!(workspace.submit_pi_login_prompt::<Method>("plain", "hidden"), []);
    apply(&mut workspace, prompt(PiPromptKind::ManualCode));
    assert!(matches!(
        &workspace.submit_pi_login_prompt::<Method>(" code ", "")[0],
        Action::Answer { value, .. } if value == "code"
    ));
    apply(&mut workspace, prompt(PiPromptKind::Select));
    assert_eq!(workspace.submit_pi_login_prompt::<Method>("x", "y"), []);
    assert_eq!(
        workspace.choose_pi_login_option::<Method>("o".to_string()),
        [Action::Answer { prompt_id: "q1".to_string(), value: "o".to_string() }]
    );
    assert_eq!(workspace.choose_pi_login_option::<Method>("o".to_string()), []);
}

#[test]
fn only_the_answered_question_goes_away() {
    let mut workspace = signing_in();
    apply(&mut workspace, prompt(PiPromptKind::Text));
    apply(&mut workspace, PiLoginEvent::PromptDone { id: "other".to_string() });
    assert!(workspace.pi_login.as_ref().unwrap().prompt.is_some());
    apply(&mut workspace, PiLoginEvent::PromptDone { id: "q1".to_string() });
    assert!(workspace.pi_login.as_ref().unwrap().prompt.is_none());
}

#[test]
fn sign_ins_end() {
    let mut workspace = signing_in();
    apply(&mut workspace, prompt(PiPromptKind::Text));
    assert_eq!(
        apply(&mut workspace, PiLoginEvent::Done),
        [
            Action::ReloadModelSettings,
            Action::ListProviders,
            Action::ListModels("acme".to_string())
        ]
    );
    let view = workspace.pi_login.as_ref().unwrap();
    assert_eq!(view.outcome, Some(Ok(())));
    assert!(view.prompt.is_none());

    let mut workspace = signing_in();
    apply(&mut workspace, prompt(PiPromptKind::Text));
    apply(&mut workspace, PiLoginEvent::Error { message: "no".to_string() });
    let view = workspace.pi_login.as_ref().unwrap();
    assert_eq!(view.outcome, Some(Err("no".to_string())));
    assert!(view.prompt.is_none());
}

#[test]
fn events_of_other_sign_ins_are_not_heard() {
    let mut workspace = signing_in();
    assert_eq!(workspace.apply_pi_login_event::<Method>("other", PiLoginEvent::Done), None);
    assert_eq!(workspace, signing_in());
    assert_eq!(workspace.cancel_pi_login::<Method>(), [Action::CancelLogin]);
    assert_eq!(workspace.cancel_pi_login::<Method>(), []);
    assert_eq!(workspace.apply_pi_login_event::<Method>("acme", PiLoginEvent::Done), None);
}

#[test]
fn models_reach_whoever_shows_them() {
    let models = || vec![DiscoveredModel { id: "m".to_string(), name: None }];
    let mut workspace = signing_in();
    let open = |workspace: &mut Workspace| {
        workspace.open_pi_model_picker::<Method>("acme".to_string(), "Acme".to_string())
    };
    assert_eq!(open(&mut workspace), [Action::ListModels("acme".to_string())]);
    workspace.pi_models_listed("acme", Ok(models()));
    assert_eq!(workspace.pi_login.as_ref().unwrap().models, Some(Ok(models())));
    assert_eq!(workspace.pi_auth_model_picker.as_ref().unwrap().models, Some(Ok(models())));
    workspace.pi_models_listed("other", Err("x".to_string()));
    assert_eq!(workspace.pi_login.as_ref().unwrap().models, Some(Ok(models())));
    assert_eq!(open(&mut workspace), []);
    assert!(workspace.pi_auth_model_picker.is_none());
}

#[test]
fn default_models_are_saved() {
    let mut workspace = Workspace::new();
    workspace.open_pi_model_picker::<Method>("acme".to_string(), "Acme".to_string());
    let config = Workspace::pi_default_model("acme".to_string(), "m".to_string());
    assert_eq!((config.base_url.as_str(), config.thinking_level.as_str()), ("", ""));
    assert_eq!(
        workspace.set_pi_default_model(&config, Err("disk".to_string())),
        [Action::NotifyError("disk".to_string())]
    );
    assert!(workspace.pi_auth_model_picker.is_some());
    assert_eq!(
        workspace.set_pi_default_model(&config, Ok(())),
        [
            Action::ReloadModelSettings,
            Action::NotifySuccess("已设为默认模型：acme / m".to_string())
        ]
    );
    assert!(workspace.pi_auth_model_picker.is_none());
}

#[test]
fn signing_out_closes_the_models_of_the_provider() {
    let mut workspace = Workspace::new();
    workspace.open_pi_model_picker::<Method>("acme".to_string(), "Acme".to_string());
    assert_eq!(
        workspace.logout_pi_provider("acme".to_string()),
        [Action::Logout("acme".to_string())]
    );
    assert_eq!(
        workspace.pi_provider_logged_out("acme", Ok(())),
        [Action::ReloadModelSettings, Action::ListProviders]
    );
    assert!(workspace.pi_auth_model_picker.is_none());
    let mut closed = signing_in();
    assert_eq!(closed.close_pi_auth_panel(), [Action::CancelLogin]);
    assert_eq!(closed, Workspace::new());
}
