use ollama_tui::conversation_log::FoldPolicy;
use ollama_tui::conversation_log::TurnPhase;
use ollama_tui::message::Author;
use ollama_tui::message::Fragment;
use ollama_tui::message::Payload;
use ollama_tui::message::SessionError;
use ollama_tui::model_catalog::Model;
use ollama_tui::session::Action;
use ollama_tui::session::Key;
use ollama_tui::session::KeyEvent;
use ollama_tui::session::KeyKind;
use ollama_tui::session::Mode;
use ollama_tui::session::ServiceEvent;
use ollama_tui::session::SessionController;

fn model(name: &str) -> Model {
    Model {
        name: name.to_string(),
        size: 1,
        digest: String::new(),
        family: String::new(),
        quantization: String::new(),
    }
}

fn fragment(text: &str, done: bool) -> Fragment {
    Fragment {
        model: "B".to_string(),
        created_at: String::new(),
        content: text.to_string(),
        done,
    }
}

fn press(session: &mut SessionController, code: Key) -> Action {
    session.handle_key(KeyEvent { code, kind: KeyKind::Press })
}

fn type_text(session: &mut SessionController, text: &str) {
    for c in text.chars() {
        assert!(matches!(press(session, Key::Char(c)), Action::Continue));
    }
}

/// A session with the catalog [A, B], B confirmed, in Editing mode.
fn editing_session(policy: FoldPolicy) -> SessionController {
    let mut session = SessionController::new(policy);
    session.load_models(Ok(vec![model("A"), model("B")]));
    press(&mut session, Key::Down);
    press(&mut session, Key::Down);
    press(&mut session, Key::Enter);
    press(&mut session, Key::Char('e'));
    assert_eq!(session.mode(), Mode::Editing);
    session
}

fn shown(session: &SessionController) -> Vec<(Author, String)> {
    session.log().messages().iter().map(|m| (m.author, m.content.clone())).collect()
}

#[test]
fn session_starts_in_normal_mode_with_nothing_loaded() {
    let session = SessionController::new(FoldPolicy::IncrementalAppend);
    assert_eq!(session.mode(), Mode::Normal);
    assert!(!session.should_exit());
    assert!(session.catalog().models().is_empty());
    assert!(session.editor().is_empty());
    assert!(session.log().messages().is_empty());
    assert!(session.load_error().is_none());
    assert_eq!(session.log().policy(), FoldPolicy::IncrementalAppend);
}

#[test]
fn scenario_select_confirm_edit_submit_and_streamed_reply() {
    let mut session = SessionController::new(FoldPolicy::IncrementalAppend);
    session.load_models(Ok(vec![model("A"), model("B")]));
    // The first press puts the highlight on A; from A, the next one selects B.
    press(&mut session, Key::Down);
    assert_eq!(session.catalog().current_selection().unwrap().name, "A");
    press(&mut session, Key::Down);
    assert_eq!(session.catalog().current_selection().unwrap().name, "B");
    press(&mut session, Key::Enter);
    assert_eq!(session.catalog().active_model().unwrap().name, "B");
    press(&mut session, Key::Char('e'));
    assert_eq!(session.mode(), Mode::Editing);
    type_text(&mut session, "hi");
    assert_eq!(session.editor().content(), "hi");

    let action = press(&mut session, Key::Enter);
    let request = match action {
        Action::Send(request) => request,
        _ => panic!("nothing to send"),
    };
    assert_eq!(request.model, "B");
    assert_eq!(request.messages.len(), 1);
    assert_eq!(request.messages[0].role, Author::User);
    assert_eq!(request.messages[0].content, "hi");
    assert_eq!(shown(&session), vec![(Author::User, "hi".to_string())]);
    assert!(session.editor().is_empty());
    assert_eq!(session.editor().cursor(), 0);
    assert_eq!(session.log().phase(), TurnPhase::AwaitingFirstFragment);

    session.receive(ServiceEvent::Fragment(fragment("He", false)));
    session.receive(ServiceEvent::Fragment(fragment("llo", true)));
    assert_eq!(
        shown(&session),
        vec![(Author::User, "hi".to_string()), (Author::Assistant, "Hello".to_string())]
    );
    assert_eq!(session.log().messages()[1].payloads.len(), 2);
    assert_eq!(session.log().phase(), TurnPhase::Complete);
    assert_eq!(session.mode(), Mode::Editing);
}

#[test]
fn scenario_under_batch_fold_gives_the_same_log() {
    let mut session = editing_session(FoldPolicy::BatchFold);
    type_text(&mut session, "hi");
    assert!(matches!(press(&mut session, Key::Enter), Action::Send(_)));
    session.receive(ServiceEvent::Fragment(fragment("He", false)));
    assert_eq!(shown(&session), vec![(Author::User, "hi".to_string())]);
    session.receive(ServiceEvent::Fragment(fragment("llo", true)));
    assert_eq!(
        shown(&session),
        vec![(Author::User, "hi".to_string()), (Author::Assistant, "Hello".to_string())]
    );
}

#[test]
fn scenario_transport_failure_after_one_fragment() {
    let mut session = editing_session(FoldPolicy::IncrementalAppend);
    type_text(&mut session, "hi");
    assert!(matches!(press(&mut session, Key::Enter), Action::Send(_)));
    session.receive(ServiceEvent::Fragment(fragment("He", false)));
    session.receive(ServiceEvent::TransportFailed("connection dropped".to_string()));
    assert_eq!(
        shown(&session),
        vec![
            (Author::User, "hi".to_string()),
            (Author::Assistant, "He".to_string()),
            (Author::System, "transport error: connection dropped".to_string()),
        ]
    );
    assert_eq!(session.mode(), Mode::Editing);
    assert_eq!(session.log().phase(), TurnPhase::Failed);
    // The user can type and send again.
    type_text(&mut session, "again");
    let request = match press(&mut session, Key::Enter) {
        Action::Send(request) => request,
        _ => panic!("nothing to send"),
    };
    let turns: Vec<&str> = request.messages.iter().map(|c| c.content.as_str()).collect();
    assert_eq!(turns, vec!["hi", "He", "again"]);
}

#[test]
fn reply_that_ends_early_is_a_transport_failure() {
    let mut session = editing_session(FoldPolicy::IncrementalAppend);
    type_text(&mut session, "hi");
    press(&mut session, Key::Enter);
    session.receive(ServiceEvent::Fragment(fragment("He", false)));
    session.receive(ServiceEvent::Ended);
    assert_eq!(
        shown(&session),
        vec![
            (Author::User, "hi".to_string()),
            (Author::Assistant, "He".to_string()),
            (Author::System, "transport error: the reply ended early".to_string()),
        ]
    );
    assert_eq!(session.log().phase(), TurnPhase::Failed);
    assert_eq!(session.mode(), Mode::Editing);
}

#[test]
fn end_of_a_complete_reply_changes_nothing() {
    let mut session = editing_session(FoldPolicy::IncrementalAppend);
    session.receive(ServiceEvent::Ended);
    assert!(session.log().messages().is_empty());
    type_text(&mut session, "hi");
    press(&mut session, Key::Enter);
    session.receive(ServiceEvent::Fragment(fragment("Hello", true)));
    session.receive(ServiceEvent::Ended);
    assert_eq!(session.log().messages().len(), 2);
    assert_eq!(session.log().phase(), TurnPhase::Complete);
    assert!(!session.log().in_flight());
}

#[test]
fn decode_failure_ends_the_turn_with_a_message_in_the_log() {
    let mut session = editing_session(FoldPolicy::BatchFold);
    type_text(&mut session, "hi");
    press(&mut session, Key::Enter);
    session.receive(ServiceEvent::Fragment(fragment("He", false)));
    session.receive(ServiceEvent::DecodeFailed("expected value".to_string()));
    assert_eq!(
        shown(&session),
        vec![
            (Author::User, "hi".to_string()),
            (Author::Assistant, "He".to_string()),
            (Author::System, "decode error: expected value".to_string()),
        ]
    );
    match &session.log().messages()[2].payloads[0] {
        Payload::Failure(SessionError::Decode(reason)) => assert_eq!(reason, "expected value"),
        _ => panic!("not a decode failure"),
    }
    assert_eq!(session.mode(), Mode::Editing);
}

#[test]
fn submission_with_an_empty_buffer_changes_nothing() {
    let mut session = editing_session(FoldPolicy::IncrementalAppend);
    session.set_viewport_height(1);
    type_text(&mut session, "one");
    press(&mut session, Key::Enter);
    session.receive(ServiceEvent::Fragment(fragment("1", true)));
    press(&mut session, Key::Up);
    let before = shown(&session);
    let offset = session.log().scroll_offset();
    let phase = session.log().phase();

    assert!(matches!(press(&mut session, Key::Enter), Action::Continue));
    assert!(matches!(session.submit(), Action::Continue));

    assert_eq!(shown(&session), before);
    assert_eq!(session.log().scroll_offset(), offset);
    assert_eq!(session.log().phase(), phase);
    assert!(session.editor().is_empty());
    assert_eq!(session.editor().cursor(), 0);
    assert_eq!(session.mode(), Mode::Editing);
}

#[test]
fn enter_edit_needs_a_confirmed_model() {
    let mut session = SessionController::new(FoldPolicy::IncrementalAppend);
    press(&mut session, Key::Char('e'));
    assert_eq!(session.mode(), Mode::Normal);
    session.load_models(Ok(vec![model("A")]));
    press(&mut session, Key::Down);
    press(&mut session, Key::Char('e'));
    assert_eq!(session.mode(), Mode::Normal);
    press(&mut session, Key::Enter);
    press(&mut session, Key::Char('x'));
    assert_eq!(session.mode(), Mode::Normal);
    press(&mut session, Key::Char('e'));
    assert_eq!(session.mode(), Mode::Editing);
}

#[test]
fn normal_mode_keys_browse_the_catalog() {
    let mut session = SessionController::new(FoldPolicy::IncrementalAppend);
    session.load_models(Ok(vec![model("A"), model("B"), model("C")]));
    press(&mut session, Key::Up);
    assert_eq!(session.catalog().selected_index(), Some(2));
    press(&mut session, Key::Up);
    assert_eq!(session.catalog().selected_index(), Some(1));
    press(&mut session, Key::Down);
    press(&mut session, Key::Down);
    assert_eq!(session.catalog().selected_index(), Some(2));
    press(&mut session, Key::Backspace);
    press(&mut session, Key::Left);
    press(&mut session, Key::Right);
    press(&mut session, Key::Other);
    assert_eq!(session.catalog().selected_index(), Some(2));
    assert!(session.editor().is_empty());
    assert!(session.catalog().active_model().is_none());
    assert_eq!(session.mode(), Mode::Normal);
}

#[test]
fn reload_key_asks_for_the_catalog_again() {
    let mut session = SessionController::new(FoldPolicy::IncrementalAppend);
    session.load_models(Err("connection refused".to_string()));
    assert!(matches!(press(&mut session, Key::Char('r')), Action::Reload));
    assert!(session.load_error().is_some());
    assert_eq!(session.mode(), Mode::Normal);
    session.load_models(Ok(vec![model("A"), model("B")]));
    assert!(session.load_error().is_none());
    assert_eq!(session.catalog().models().len(), 2);

    let mut editing = editing_session(FoldPolicy::IncrementalAppend);
    assert!(matches!(press(&mut editing, Key::Char('r')), Action::Continue));
    assert_eq!(editing.editor().content(), "r");
}

#[test]
fn escape_in_normal_mode_quits() {
    let mut session = SessionController::new(FoldPolicy::IncrementalAppend);
    assert!(matches!(press(&mut session, Key::Esc), Action::Quit));
    assert!(session.should_exit());
}

#[test]
fn escape_in_editing_mode_returns_to_browsing() {
    let mut session = editing_session(FoldPolicy::IncrementalAppend);
    type_text(&mut session, "draft");
    assert!(matches!(press(&mut session, Key::Esc), Action::Continue));
    assert_eq!(session.mode(), Mode::Normal);
    assert!(!session.should_exit());
    assert_eq!(session.editor().content(), "draft");
}

#[test]
fn editing_keys_reach_the_editor() {
    let mut session = editing_session(FoldPolicy::IncrementalAppend);
    type_text(&mut session, "héllo");
    press(&mut session, Key::Left);
    press(&mut session, Key::Left);
    press(&mut session, Key::Backspace);
    assert_eq!(session.editor().content(), "hélo");
    assert_eq!(session.editor().cursor(), 2);
    press(&mut session, Key::Right);
    press(&mut session, Key::Right);
    press(&mut session, Key::Right);
    assert_eq!(session.editor().cursor(), 4);
    press(&mut session, Key::Char('e'));
    assert_eq!(session.editor().content(), "héloe");
    assert_eq!(session.mode(), Mode::Editing);
    press(&mut session, Key::Other);
    assert_eq!(session.editor().content(), "héloe");
}

#[test]
fn editing_keys_scroll_the_log() {
    let mut session = editing_session(FoldPolicy::IncrementalAppend);
    for text in ["a", "b", "c"] {
        type_text(&mut session, text);
        press(&mut session, Key::Enter);
        session.receive(ServiceEvent::Fragment(fragment("ok", true)));
    }
    session.set_viewport_height(2);
    assert_eq!(session.log().total_lines(), 6);
    session.receive(ServiceEvent::Fragment(fragment("!", true)));
    assert_eq!(session.log().scroll_offset(), 4);
    press(&mut session, Key::Up);
    assert_eq!(session.log().scroll_offset(), 3);
    press(&mut session, Key::Down);
    press(&mut session, Key::Down);
    assert_eq!(session.log().scroll_offset(), 4);
    for _ in 0..9 {
        press(&mut session, Key::Up);
    }
    assert_eq!(session.log().scroll_offset(), 0);
}

#[test]
fn completion_scrolls_the_log_to_its_end() {
    let mut session = editing_session(FoldPolicy::IncrementalAppend);
    session.set_viewport_height(1);
    type_text(&mut session, "hi");
    press(&mut session, Key::Enter);
    assert_eq!(session.log().scroll_offset(), 0);
    session.receive(ServiceEvent::Fragment(fragment("He", false)));
    assert_eq!(session.log().scroll_offset(), 0);
    session.receive(ServiceEvent::Fragment(fragment("llo", true)));
    assert_eq!(session.log().scroll_offset(), 1);
}

#[test]
fn only_presses_count() {
    let mut session = editing_session(FoldPolicy::IncrementalAppend);
    for kind in [KeyKind::Release, KeyKind::Repeat] {
        let action = session.handle_key(KeyEvent { code: Key::Char('x'), kind });
        assert!(matches!(action, Action::Continue));
        let action = session.handle_key(KeyEvent { code: Key::Esc, kind });
        assert!(matches!(action, Action::Continue));
    }
    assert!(session.editor().is_empty());
    assert_eq!(session.mode(), Mode::Editing);
}

#[test]
fn submit_without_a_confirmed_model_changes_nothing() {
    let mut session = SessionController::new(FoldPolicy::IncrementalAppend);
    assert!(matches!(session.submit(), Action::Continue));
    assert!(session.log().messages().is_empty());
}

#[test]
fn failed_load_leaves_the_catalog_empty_and_is_reported() {
    let mut session = SessionController::new(FoldPolicy::IncrementalAppend);
    session.load_models(Err("connection refused".to_string()));
    assert!(session.catalog().models().is_empty());
    assert_eq!(session.mode(), Mode::Normal);
    assert!(!session.should_exit());
    assert!(session.log().messages().is_empty());
    match session.load_error() {
        Some(SessionError::Load(reason)) => assert_eq!(reason, "connection refused"),
        _ => panic!("no load error"),
    }
    assert_eq!(session.load_error().unwrap().message(), "load error: connection refused");
    session.load_models(Ok(vec![model("A")]));
    assert!(session.load_error().is_none());
    assert_eq!(session.catalog().models().len(), 1);
}

#[test]
fn take_reply_folds_every_fragment_in_order() {
    let mut session = editing_session(FoldPolicy::IncrementalAppend);
    type_text(&mut session, "hi");
    press(&mut session, Key::Enter);
    session.take_reply(Ok(vec![fragment("He", false), fragment("l", false), fragment("lo", true)]));
    assert_eq!(
        shown(&session),
        vec![(Author::User, "hi".to_string()), (Author::Assistant, "Hello".to_string())]
    );
    assert_eq!(session.log().messages()[1].payloads.len(), 3);
    assert_eq!(session.log().phase(), TurnPhase::Complete);
}

#[test]
fn take_reply_of_a_failed_request_tells_of_the_error() {
    let mut session = editing_session(FoldPolicy::IncrementalAppend);
    type_text(&mut session, "hi");
    press(&mut session, Key::Enter);
    session.take_reply(Err("Failed to chat".to_string()));
    assert_eq!(
        shown(&session),
        vec![
            (Author::User, "hi".to_string()),
            (Author::System, "transport error: Failed to chat".to_string()),
        ]
    );
    assert_eq!(session.mode(), Mode::Editing);
}

#[test]
fn new_submission_during_a_reply_keeps_what_had_arrived() {
    let mut session = editing_session(FoldPolicy::IncrementalAppend);
    type_text(&mut session, "one");
    press(&mut session, Key::Enter);
    session.receive(ServiceEvent::Fragment(fragment("par", false)));
    type_text(&mut session, "two");
    let request = match press(&mut session, Key::Enter) {
        Action::Send(request) => request,
        _ => panic!("nothing to send"),
    };
    assert_eq!(
        shown(&session),
        vec![
            (Author::User, "one".to_string()),
            (Author::Assistant, "par".to_string()),
            (Author::User, "two".to_string()),
        ]
    );
    assert_eq!(request.messages.len(), 3);
    session.receive(ServiceEvent::Fragment(fragment("2", true)));
    assert_eq!(session.log().messages().len(), 4);
    assert_eq!(session.log().messages()[3].content, "2");
}
