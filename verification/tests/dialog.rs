use cosmic_osd::components::polkit_dialog::{Denial, Effect, Msg, Params, Phase, State, Verdict};
use cosmic_osd::subscriptions::polkit_agent::{denial_reason, verdict_result, PolkitError};
use cosmic_osd::subscriptions::polkit_agent_helper::{decode_line, AgentHelper, Event, Spawned};

fn params(cookie: &str) -> Params {
    Params {
        pw_name: "alice".to_string(),
        action_id: "org.example.action".to_string(),
        message: "Authentication is required".to_string(),
        icon_name: None,
        details: vec![("key".to_string(), "value".to_string())],
        cookie: cookie.to_string(),
    }
}

fn line(state: &mut State, text: &str) -> Effect {
    state.step(Msg::Agent(decode_line(text).unwrap()))
}

fn open_dialog() -> State {
    let mut state = State::new(7, params("c1"));
    assert!(!state.is_open());
    assert!(matches!(state.step(Msg::Agent(Event::Responder)), Effect::Show));
    assert!(state.is_open());
    assert!(matches!(state.step(Msg::Agent(Event::Responder)), Effect::Idle));
    assert!(matches!(line(&mut state, "PAM_PROMPT_ECHO_OFF Password: \n"), Effect::Idle));
    state
}

#[test]
fn new_dialog_awaits_the_helper() {
    let state = State::new(7, params("c1"));
    assert_eq!(state.id(), 7);
    assert_eq!(state.cookie(), "c1");
    assert_eq!(state.phase(), Phase::AwaitingResponder);
    assert_eq!(state.retries(), 0);
    assert!(!state.echo());
    assert!(!state.sensitive());
    assert!(!state.is_terminal());
    assert!(!state.password_visible());
    assert_eq!(state.password(), "");
    assert_eq!(state.password_label(), "");
    assert!(state.message().is_none());
    assert_eq!(state.params.pw_name, "alice");
}

#[test]
fn wrong_password_then_right_password_is_granted() {
    let mut state = open_dialog();
    assert_eq!(state.phase(), Phase::AwaitingInput);
    assert_eq!(state.password_label(), "Password: ");
    assert!(matches!(state.step(Msg::Password("wrong".to_string())), Effect::Idle));
    match state.step(Msg::Authenticate) {
        Effect::Respond(text) => assert_eq!(text, "wrong"),
        other => panic!("unexpected {:?}", other),
    }
    assert_eq!(state.phase(), Phase::Submitting);
    assert!(matches!(line(&mut state, "FAILURE\n"), Effect::Focus));
    assert_eq!(state.retries(), 1);
    assert_eq!(state.phase(), Phase::AwaitingInput);
    assert_eq!(state.password(), "");
    assert!(matches!(line(&mut state, "PAM_PROMPT_ECHO_OFF Password: \n"), Effect::Idle));
    assert_eq!(state.retries(), 1);
    assert_eq!(state.phase(), Phase::AwaitingInput);
    state.step(Msg::Password("right".to_string()));
    assert!(matches!(state.step(Msg::Authenticate), Effect::Respond(text) if text == "right"));
    assert!(matches!(line(&mut state, "SUCCESS\n"), Effect::Finish(Verdict::Granted)));
    assert_eq!(state.phase(), Phase::Terminal(Verdict::Granted));
    assert_eq!(verdict_result(Verdict::Granted), Ok(()));
}

#[test]
fn cancel_while_awaiting_input_delivers_cancelled_once() {
    let mut state = open_dialog();
    assert!(matches!(state.step(Msg::Cancel), Effect::Finish(Verdict::Cancelled)));
    assert_eq!(state.phase(), Phase::Terminal(Verdict::Cancelled));
    assert!(matches!(state.step(Msg::Cancel), Effect::Idle));
    assert!(matches!(state.step(Msg::Agent(Event::Failed)), Effect::Idle));
    assert!(matches!(state.step(Msg::Agent(Event::Complete(true))), Effect::Idle));
    assert_eq!(state.phase(), Phase::Terminal(Verdict::Cancelled));
    assert_eq!(verdict_result(Verdict::Cancelled), Err(PolkitError::Cancelled));
}

#[test]
fn helper_that_cannot_be_run_denies_as_failed() {
    let mut state = State::new(1, params("c1"));
    let (helper, event) = AgentHelper::new(Spawned::SpawnError);
    assert!(helper.has_ended());
    assert!(matches!(
        state.step(Msg::Agent(event)),
        Effect::Finish(Verdict::Denied(Denial::Failed))
    ));
    assert!(!state.is_open());
    assert_eq!(state.message(), &None);
    assert!(matches!(state.step(Msg::Agent(Event::Failed)), Effect::Idle));
    assert_eq!(verdict_result(Verdict::Denied(Denial::Failed)), Err(PolkitError::Failed));
    assert_eq!(denial_reason(Denial::Failed), "failed");
}

#[test]
fn failure_denies_from_every_live_phase() {
    let mut fresh = State::new(1, params("a"));
    assert!(matches!(
        fresh.step(Msg::Agent(Event::Failed)),
        Effect::Finish(Verdict::Denied(Denial::Failed))
    ));
    let mut waiting = open_dialog();
    assert!(matches!(
        waiting.step(Msg::Agent(Event::Failed)),
        Effect::Finish(Verdict::Denied(Denial::Failed))
    ));
    let mut submitting = open_dialog();
    submitting.step(Msg::Authenticate);
    assert_eq!(submitting.phase(), Phase::Submitting);
    assert!(matches!(
        submitting.step(Msg::Agent(Event::Failed)),
        Effect::Finish(Verdict::Denied(Denial::Failed))
    ));
    assert_eq!(submitting.phase(), Phase::Terminal(Verdict::Denied(Denial::Failed)));
}

#[test]
fn input_opens_only_with_responder_and_prompt() {
    let mut state = State::new(1, params("a"));
    assert!(matches!(
        state.step(Msg::Agent(Event::Request("Password: ".to_string(), false))),
        Effect::Idle
    ));
    assert_eq!(state.phase(), Phase::AwaitingResponder);
    assert!(matches!(state.step(Msg::Authenticate), Effect::Idle));
    assert_eq!(state.phase(), Phase::AwaitingResponder);
    assert!(matches!(state.step(Msg::Agent(Event::Responder)), Effect::Show));
    assert_eq!(state.phase(), Phase::AwaitingInput);
    assert!(state.sensitive());

    let mut other = State::new(2, params("b"));
    other.step(Msg::Agent(Event::Responder));
    assert_eq!(other.phase(), Phase::AwaitingResponder);
    other.step(Msg::Agent(Event::Request("Code: ".to_string(), true)));
    assert_eq!(other.phase(), Phase::AwaitingInput);
    assert!(other.echo());
    assert_eq!(other.password_label(), "Code: ");
}

#[test]
fn submit_is_ignored_while_submitting() {
    let mut state = open_dialog();
    state.step(Msg::Password("pw".to_string()));
    assert!(matches!(state.step(Msg::Authenticate), Effect::Respond(_)));
    assert!(matches!(state.step(Msg::Authenticate), Effect::Idle));
    assert_eq!(state.phase(), Phase::Submitting);
    assert!(!state.sensitive());
}

#[test]
fn notices_change_the_message_only() {
    let mut state = open_dialog();
    assert!(matches!(line(&mut state, "PAM_ERROR_MSG Nope\n"), Effect::Idle));
    assert_eq!(state.message(), &Some("Nope".to_string()));
    assert_eq!(state.phase(), Phase::AwaitingInput);
    assert!(matches!(line(&mut state, "PAM_TEXT_INFO Touch the key\n"), Effect::Idle));
    assert_eq!(state.message(), &Some("Touch the key".to_string()));
    assert_eq!(state.phase(), Phase::AwaitingInput);
    assert_eq!(state.retries(), 0);
}

#[test]
fn retries_count_every_rejection() {
    let mut state = open_dialog();
    for n in 1..=5u32 {
        state.step(Msg::Authenticate);
        assert!(matches!(line(&mut state, "FAILURE\n"), Effect::Focus));
        assert_eq!(state.retries(), n);
        assert_eq!(state.phase(), Phase::AwaitingInput);
    }
}

#[test]
fn password_visibility_toggles() {
    let mut state = open_dialog();
    state.step(Msg::TogglePasswordVisibility);
    assert!(state.password_visible());
    state.step(Msg::TogglePasswordVisibility);
    assert!(!state.password_visible());
}

#[test]
fn update_gives_the_dialog_back_until_its_end() {
    let state = State::new(3, params("c"));
    let (state, effect) = state.update(Msg::Agent(Event::Responder));
    assert!(matches!(effect, Effect::Show));
    let state = state.unwrap();
    let (state, effect) = state.update(Msg::Agent(Event::Complete(true)));
    assert!(state.is_none());
    assert!(matches!(effect, Effect::Finish(Verdict::Granted)));
    let state = State::new(4, params("d"));
    assert!(matches!(state.cancel(), Effect::Finish(Verdict::Cancelled)));
}

#[test]
fn every_denial_is_reported_as_failed() {
    assert_eq!(verdict_result(Verdict::Denied(Denial::NoEligibleIdentity)), Err(PolkitError::Failed));
    assert_eq!(verdict_result(Verdict::Denied(Denial::DuplicateCookie)), Err(PolkitError::Failed));
    assert_eq!(denial_reason(Denial::NoEligibleIdentity), "no eligible identity");
    assert_eq!(denial_reason(Denial::DuplicateCookie), "duplicate cookie");
}

#[test]
fn submit_sends_the_text_when_input_is_open() {
    let mut state = open_dialog();
    assert!(matches!(state.submit("secret".to_string()), Effect::Respond(t) if t == "secret"));
    assert_eq!(state.phase(), Phase::Submitting);
    assert!(matches!(state.submit("again".to_string()), Effect::Idle));
    assert_eq!(state.password(), "again");
    let mut early = State::new(2, params("e"));
    assert!(matches!(early.submit("x".to_string()), Effect::Idle));
    assert_eq!(early.phase(), Phase::AwaitingResponder);
}

#[test]
fn dialog_shows_prompt_without_colons() {
    let mut state = open_dialog();
    let shown = state.shown();
    assert_eq!(shown.body, "Authentication is required");
    assert_eq!(shown.icon_name, "dialog-authentication");
    assert_eq!(shown.placeholder, "Password: ");
    assert!(shown.secret);
    assert!(shown.masked);
    assert!(shown.sensitive);
    assert!(!shown.invalid_password);
    state.step(Msg::Agent(Event::Request("Code::".to_string(), true)));
    state.step(Msg::TogglePasswordVisibility);
    state.step(Msg::Password("12".to_string()));
    state.step(Msg::Authenticate);
    state.step(Msg::Agent(Event::Complete(false)));
    state.step(Msg::Password("3".to_string()));
    state.step(Msg::Authenticate);
    let shown = state.shown();
    assert_eq!(shown.placeholder, "Code");
    assert_eq!(shown.password, "3");
    assert!(!shown.secret);
    assert!(!shown.masked);
    assert!(!shown.sensitive);
    assert!(shown.invalid_password);
    let mut with_icon = params("i");
    with_icon.icon_name = Some("drive-harddisk".to_string());
    assert_eq!(State::new(1, with_icon).shown().icon_name, "drive-harddisk");
    let mut colons = State::new(1, params("k"));
    colons.step(Msg::Agent(Event::Request(":::".to_string(), false)));
    assert_eq!(colons.shown().placeholder, "");
}

#[test]
fn nothing_but_the_responder_opens_the_dialog() {
    let msgs = vec![
        Msg::Agent(Event::Request("Password: ".to_string(), false)),
        Msg::Agent(Event::ShowError("e".to_string())),
        Msg::Agent(Event::ShowDebug("d".to_string())),
        Msg::Password("x".to_string()),
        Msg::Authenticate,
        Msg::TogglePasswordVisibility,
        Msg::Agent(Event::Complete(false)),
        Msg::Agent(Event::Failed),
        Msg::Cancel,
    ];
    let mut state = State::new(1, params("c"));
    for msg in msgs {
        assert!(!matches!(state.step(msg), Effect::Show));
        assert!(!state.is_open());
    }
    assert_eq!(state.phase(), Phase::Terminal(Verdict::Denied(Denial::Failed)));
}

#[test]
fn rejection_reopens_input_in_every_live_phase() {
    let mut fresh = State::new(1, params("a"));
    assert!(matches!(fresh.step(Msg::Agent(Event::Complete(false))), Effect::Focus));
    assert_eq!(fresh.phase(), Phase::AwaitingInput);
    assert!(fresh.sensitive());
    assert_eq!(fresh.retries(), 1);

    let mut unprompted = State::new(2, params("b"));
    unprompted.step(Msg::Agent(Event::Responder));
    unprompted.step(Msg::Password("typed".to_string()));
    assert_eq!(unprompted.phase(), Phase::AwaitingResponder);
    assert!(matches!(unprompted.step(Msg::Agent(Event::Complete(false))), Effect::Focus));
    assert_eq!(unprompted.phase(), Phase::AwaitingInput);
    assert_eq!(unprompted.password(), "");
    assert_eq!(unprompted.retries(), 1);
    assert_eq!(unprompted.password_label(), "");
    assert!(unprompted.is_open());
    assert!(matches!(unprompted.submit("again".to_string()), Effect::Respond(t) if t == "again"));

    let mut waiting = open_dialog();
    assert!(matches!(waiting.step(Msg::Agent(Event::Complete(false))), Effect::Focus));
    assert_eq!(waiting.phase(), Phase::AwaitingInput);
    assert_eq!(waiting.password_label(), "Password: ");

    let mut submitting = open_dialog();
    submitting.step(Msg::Authenticate);
    assert!(matches!(submitting.step(Msg::Agent(Event::Complete(false))), Effect::Focus));
    assert_eq!(submitting.phase(), Phase::AwaitingInput);
    assert!(submitting.shown().sensitive);
    assert!(submitting.shown().invalid_password);
}
