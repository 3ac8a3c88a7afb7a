use cosmic_osd::subscriptions::polkit_agent_helper::{
    decode_line, frame_response, launch_plan, subscription, written, AgentHelper, Event, Read,
    Spawned, Step,
};

fn request(line: &str) -> (String, bool) {
    match decode_line(line) {
        Some(Event::Request(text, echo)) => (text, echo),
        other => panic!("no request: {:?}", other),
    }
}

#[test]
fn decodes_secret_prompt() {
    assert_eq!(request("PAM_PROMPT_ECHO_OFF Password:\n"), ("Password:".to_string(), false));
}

#[test]
fn decodes_visible_prompt() {
    assert_eq!(request("PAM_PROMPT_ECHO_ON Login:\n"), ("Login:".to_string(), true));
}

#[test]
fn decodes_error_message() {
    assert!(matches!(
        decode_line("PAM_ERROR_MSG Authentication failure\n"),
        Some(Event::ShowError(text)) if text == "Authentication failure"
    ));
}

#[test]
fn decodes_text_info() {
    assert!(matches!(
        decode_line("PAM_TEXT_INFO Place your finger on the reader\n"),
        Some(Event::ShowDebug(text)) if text == "Place your finger on the reader"
    ));
}

#[test]
fn decodes_success_and_failure() {
    assert!(matches!(decode_line("SUCCESS\n"), Some(Event::Complete(true))));
    assert!(matches!(decode_line("FAILURE\n"), Some(Event::Complete(false))));
    assert!(matches!(decode_line("SUCCESS"), Some(Event::Complete(true))));
    assert!(matches!(decode_line("FAILURE ignored text\n"), Some(Event::Complete(false))));
}

#[test]
fn unknown_lines_decode_to_nothing() {
    assert!(decode_line("\n").is_none());
    assert!(decode_line("").is_none());
    assert!(decode_line("HELLO world\n").is_none());
    assert!(decode_line("SUCCESSFUL\n").is_none());
    assert!(decode_line("success\n").is_none());
    assert!(decode_line(" SUCCESS\n").is_none());
    assert!(decode_line("PAM_PROMPT_ECHO_OFFPassword\n").is_none());
    assert!(decode_line("PAM_PROMPT_ECHO\n").is_none());
}

#[test]
fn rest_comes_through_verbatim() {
    assert_eq!(request("PAM_PROMPT_ECHO_OFF Password: \n").0, "Password: ");
    assert_eq!(request("PAM_PROMPT_ECHO_OFF  two  spaces \n").0, " two  spaces ");
    assert_eq!(request("PAM_PROMPT_ECHO_OFF \n").0, "");
    assert_eq!(request("PAM_PROMPT_ECHO_OFF\n").0, "");
    assert_eq!(request("PAM_PROMPT_ECHO_ON Mot de passe\u{a0}: \n").0, "Mot de passe\u{a0}: ");
    assert_eq!(request("PAM_PROMPT_ECHO_ON tab\there\r\n").0, "tab\there\r");
}

#[test]
fn only_one_newline_is_taken_off() {
    assert_eq!(request("PAM_PROMPT_ECHO_OFF a\n\n").0, "a\n");
    assert_eq!(request("PAM_PROMPT_ECHO_OFF a").0, "a");
}

#[test]
fn keyword_lines_round_trip() {
    let texts = ["", "x", "Password:", "a b  c ", "ünïcödé ✓", "PAM_ERROR_MSG nested", "  lead"];
    for text in texts {
        let line = format!("PAM_PROMPT_ECHO_OFF {}\n", text);
        assert_eq!(request(&line), (text.to_string(), false));
        let line = format!("PAM_PROMPT_ECHO_ON {}\n", text);
        assert_eq!(request(&line), (text.to_string(), true));
        let line = format!("PAM_ERROR_MSG {}\n", text);
        assert!(matches!(decode_line(&line), Some(Event::ShowError(t)) if t == text));
        let line = format!("PAM_TEXT_INFO {}\n", text);
        assert!(matches!(decode_line(&line), Some(Event::ShowDebug(t)) if t == text));
    }
}

#[test]
fn frames_answer_with_newline() {
    assert_eq!(frame_response("hunter2"), "hunter2\n");
    assert_eq!(frame_response(""), "\n");
    assert_eq!(frame_response("with space "), "with space \n");
}

#[test]
fn launch_plan_names_program_user_and_cookie() {
    let plan = launch_plan(None, "alice", "cookie-1");
    assert_eq!(plan.program, "/usr/libexec/polkit-agent-helper-1");
    assert_eq!(plan.argument, "alice");
    assert_eq!(plan.greeting, "cookie-1\n");
    let plan = launch_plan(Some("/opt/helper"), "bob", "c2");
    assert_eq!(plan.program, "/opt/helper");
    assert_eq!(plan.argument, "bob");
    assert_eq!(plan.greeting, "c2\n");
}

#[test]
fn running_helper_announces_its_responder() {
    let (helper, event) = AgentHelper::new(Spawned::Running);
    assert!(!helper.has_ended());
    assert!(matches!(event, Event::Responder));
}

#[test]
fn helper_that_did_not_start_has_failed() {
    let (mut helper, event) = AgentHelper::new(Spawned::SpawnError);
    assert!(helper.has_ended());
    assert!(matches!(event, Event::Failed));
    assert!(matches!(helper.next(Read::Line("SUCCESS\n".to_string())), Step::Finished));
    let (helper, event) = AgentHelper::new(Spawned::IoError);
    assert!(helper.has_ended());
    assert!(matches!(event, Event::Failed));
}

fn running() -> AgentHelper {
    AgentHelper::new(Spawned::Running).0
}

#[test]
fn early_end_of_stream_is_a_failure() {
    let mut helper = running();
    assert!(matches!(helper.next(Read::EndOfStream), Step::Deliver(Event::Failed)));
    let mut helper = running();
    assert!(matches!(
        helper.next(Read::Line("PAM_PROMPT_ECHO_OFF Password: \n".to_string())),
        Step::Deliver(Event::Request(_, false))
    ));
    assert!(matches!(helper.next(Read::EndOfStream), Step::Deliver(Event::Failed)));
}

#[test]
fn end_of_stream_equals_read_error_before_the_outcome() {
    let mut a = running();
    let mut b = running();
    let sa = a.next(Read::EndOfStream);
    let sb = b.next(Read::Error);
    assert!(matches!(sa, Step::Deliver(Event::Failed)));
    assert!(matches!(sb, Step::Deliver(Event::Failed)));
}

#[test]
fn end_of_stream_after_the_outcome_is_clean() {
    let mut helper = running();
    assert!(matches!(
        helper.next(Read::Line("SUCCESS\n".to_string())),
        Step::Deliver(Event::Complete(true))
    ));
    assert!(matches!(helper.next(Read::EndOfStream), Step::Finished));
    let mut helper = running();
    assert!(matches!(
        helper.next(Read::Line("FAILURE\n".to_string())),
        Step::Deliver(Event::Complete(false))
    ));
    assert!(matches!(helper.next(Read::EndOfStream), Step::Finished));
}

#[test]
fn new_prompt_after_failure_reopens_the_conversation() {
    let mut helper = running();
    helper.next(Read::Line("FAILURE\n".to_string()));
    helper.next(Read::Line("PAM_PROMPT_ECHO_OFF Password: \n".to_string()));
    assert!(matches!(helper.next(Read::EndOfStream), Step::Deliver(Event::Failed)));
}

#[test]
fn read_error_is_a_failure_even_after_the_outcome() {
    let mut helper = running();
    helper.next(Read::Line("SUCCESS\n".to_string()));
    assert!(matches!(helper.next(Read::Error), Step::Deliver(Event::Failed)));
}

#[test]
fn unknown_line_is_skipped_and_ends_nothing() {
    let mut helper = running();
    assert!(matches!(helper.next(Read::Line("garbage here\n".to_string())), Step::Skip));
    assert!(matches!(
        helper.next(Read::Line("SUCCESS\n".to_string())),
        Step::Deliver(Event::Complete(true))
    ));
}

#[test]
fn event_source_starts_then_reads() {
    let (step, helper) = subscription(None, Spawned::Running, Read::Error);
    assert!(matches!(step, Step::Deliver(Event::Responder)));
    assert!(helper.is_some());
    let (step, helper) =
        subscription(helper, Spawned::SpawnError, Read::Line("PAM_TEXT_INFO hi\n".to_string()));
    assert!(matches!(step, Step::Deliver(Event::ShowDebug(t)) if t == "hi"));
    assert!(!helper.unwrap().has_ended());
}

#[test]
fn event_source_does_not_start_a_failed_helper_again() {
    let (step, helper) = subscription(None, Spawned::SpawnError, Read::EndOfStream);
    assert!(matches!(step, Step::Deliver(Event::Failed)));
    assert!(helper.is_some());
    let (step, helper) = subscription(helper, Spawned::Running, Read::Line("SUCCESS\n".to_string()));
    assert!(matches!(step, Step::Finished));
    let (step, helper) = subscription(helper, Spawned::Running, Read::EndOfStream);
    assert!(matches!(step, Step::Finished));
    assert!(helper.unwrap().has_ended());
}

#[test]
fn failure_is_reported_once() {
    let mut helper = running();
    assert!(matches!(helper.next(Read::EndOfStream), Step::Deliver(Event::Failed)));
    assert!(helper.has_ended());
    assert!(matches!(helper.next(Read::EndOfStream), Step::Finished));
    assert!(matches!(helper.next(Read::Error), Step::Finished));
    assert!(matches!(helper.next(Read::Line("SUCCESS\n".to_string())), Step::Finished));
    let mut helper = running();
    assert!(matches!(helper.next(Read::Error), Step::Deliver(Event::Failed)));
    assert!(matches!(helper.next(Read::Error), Step::Finished));
    let mut helper = running();
    helper.next(Read::Line("SUCCESS\n".to_string()));
    assert!(matches!(helper.next(Read::EndOfStream), Step::Finished));
    assert!(matches!(helper.next(Read::Line("FAILURE\n".to_string())), Step::Finished));
}

#[test]
fn failed_write_is_a_failure() {
    assert!(written(true).is_none());
    assert!(matches!(written(false), Some(Event::Failed)));
}
