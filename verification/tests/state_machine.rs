use eta::app::{App, ComposeFocus, ComposeMode, Mode, MessageSentStatus, MessageTableMode};
use eta::event::{Action, AppEvent, KeyCode, KeyEvent};
use eta::message::Message;

fn key(code: KeyCode) -> KeyEvent {
    KeyEvent::plain(code)
}

fn sample_list() -> Vec<Message> {
    vec![
        Message::new(
            1,
            "bob@bob.me".to_string(),
            "me@me.me".to_string(),
            "Hi".to_string(),
            String::new(),
        ),
        Message::new(
            2,
            "alice@alice.me".to_string(),
            "me@me.me".to_string(),
            "TPS Reports".to_string(),
            String::new(),
        ),
    ]
}

#[test]
fn ctrl_c_enqueues_quit_and_quit_stops() {
    let mut app = App::new();
    let r = app.handle_key_events(KeyEvent::control(KeyCode::Char('c')));
    assert!(matches!(r, Some(Action::Emit(AppEvent::Quit))));
    assert!(app.running());
    let r2 = app.handle_app_event(AppEvent::Quit);
    assert!(r2.is_none());
    assert!(!app.running());
}

#[test]
fn ctrl_c_works_mid_compose() {
    let mut app = App::new();
    app.handle_key_events(key(KeyCode::Char('c')));
    app.handle_key_events(key(KeyCode::Enter));
    app.handle_key_events(key(KeyCode::Char('x')));
    let r = app.handle_key_events(KeyEvent::control(KeyCode::Char('c')));
    assert!(matches!(r, Some(Action::Emit(AppEvent::Quit))));
    app.handle_app_event(AppEvent::Quit);
    assert!(!app.running());
}

#[test]
fn q_in_table_enqueues_quit() {
    let mut app = App::new();
    let r = app.handle_key_events(key(KeyCode::Char('q')));
    assert!(matches!(r, Some(Action::Emit(AppEvent::Quit))));
}

#[test]
fn tab_cycles_compose_focus() {
    let mut app = App::new();
    app.handle_key_events(key(KeyCode::Char('c')));
    assert_eq!(
        *app.mode(),
        Mode::Compose(ComposeFocus::To(ComposeMode::Normal))
    );
    app.handle_key_events(key(KeyCode::Tab));
    assert_eq!(
        *app.mode(),
        Mode::Compose(ComposeFocus::Subject(ComposeMode::Normal))
    );
    app.handle_key_events(key(KeyCode::Tab));
    assert_eq!(
        *app.mode(),
        Mode::Compose(ComposeFocus::Message(ComposeMode::Normal))
    );
    app.handle_key_events(key(KeyCode::Tab));
    assert_eq!(
        *app.mode(),
        Mode::Compose(ComposeFocus::To(ComposeMode::Normal))
    );
}

#[test]
fn sent_outside_table_is_dropped() {
    let mut app = App::new();
    app.handle_key_events(key(KeyCode::Char('c')));
    let before = app.mode().clone();
    app.handle_app_event(AppEvent::MessageSent(None));
    assert_eq!(*app.mode(), before);
    app.handle_app_event(AppEvent::MessageSent(Some("relay down".to_string())));
    assert_eq!(*app.mode(), before);
}

#[test]
fn sent_in_table_shows_banner() {
    let mut app = App::new();
    app.handle_app_event(AppEvent::MessageSent(None));
    assert_eq!(
        *app.mode(),
        Mode::MessageTable(MessageTableMode::MessageSent(MessageSentStatus::Success))
    );
    app.handle_app_event(AppEvent::MessageSent(Some("relay down".to_string())));
    assert_eq!(
        *app.mode(),
        Mode::MessageTable(MessageTableMode::MessageSent(MessageSentStatus::Failed(
            "relay down".to_string()
        )))
    );
}

#[test]
fn body_for_unknown_id_keeps_cache_but_switches_mode() {
    let mut app = App::new();
    app.handle_app_event(AppEvent::MessagesLoaded(sample_list()));
    assert_eq!(app.current_message().id(), 0);
    let r = app.handle_app_event(AppEvent::MessageBodyLoaded(99, "stray".to_string()));
    assert!(r.is_none());
    assert_eq!(app.current_message().id(), 0);
    assert_eq!(*app.mode(), Mode::Message(0));
}

#[test]
fn enter_requests_body_and_arrival_fills_detail() {
    let mut app = App::new();
    app.handle_app_event(AppEvent::MessagesLoaded(sample_list()));
    let r = app.handle_key_events(key(KeyCode::Enter));
    assert!(matches!(r, Some(Action::LoadBody(1))));
    assert_eq!(*app.mode(), Mode::Message(0));
    assert_eq!(app.message_textarea().text(), "");

    app.handle_app_event(AppEvent::MessageBodyLoaded(1, "Hello there".to_string()));
    assert_eq!(app.current_message().id(), 1);
    assert_eq!(app.current_message().body(), "Hello there");
    assert_eq!(
        app.message_textarea().text(),
        "From: bob@bob.me\nTo: me@me.me\nSubject: Hi\n\nHello there"
    );
    assert_eq!(*app.mode(), Mode::Message(0));
}

#[test]
fn messages_loaded_selects_first_row_when_nothing_selected() {
    let mut app = App::new();
    // The controller starts with no selection; the first non-empty list
    // selects row 0.
    assert_eq!(app.message_table_state(), None);
    app.handle_app_event(AppEvent::MessagesLoaded(sample_list()));
    assert_eq!(app.message_table_state(), Some(0));
    assert_eq!(app.messages().len(), 2);
    assert_eq!(app.messages()[1].id(), 2);
}

#[test]
fn enter_on_an_empty_table_is_a_silent_no_op() {
    let mut app = App::new();
    let r = app.handle_key_events(key(KeyCode::Enter));
    assert!(r.is_none());
    assert_eq!(*app.mode(), Mode::MessageTable(MessageTableMode::Normal));
}

#[test]
fn enter_requests_the_selected_rows_id() {
    let mut app = App::new();
    app.handle_app_event(AppEvent::MessagesLoaded(vec![
        Message::new(
            5,
            "bob@bob.me".to_string(),
            "me@me.me".to_string(),
            "Hi".to_string(),
            String::new(),
        ),
        Message::new(
            9,
            "alice@alice.me".to_string(),
            "me@me.me".to_string(),
            "TPS Reports".to_string(),
            String::new(),
        ),
    ]));
    app.handle_key_events(key(KeyCode::Char('j')));
    let r = app.handle_key_events(key(KeyCode::Enter));
    assert!(matches!(r, Some(Action::LoadBody(9))));
    assert_eq!(*app.mode(), Mode::Message(1));
}

#[test]
fn detail_scroll_keys_do_not_change_mode() {
    let mut app = App::new();
    app.handle_app_event(AppEvent::MessagesLoaded(sample_list()));
    app.handle_key_events(key(KeyCode::Enter));
    app.handle_app_event(AppEvent::MessageBodyLoaded(1, "body".to_string()));
    assert_eq!(*app.mode(), Mode::Message(0));

    app.handle_key_events(key(KeyCode::Char('j')));
    assert_eq!(*app.mode(), Mode::Message(0));
    assert_eq!(app.message_textarea().scroll_row(), 1);

    app.handle_key_events(key(KeyCode::Char('k')));
    assert_eq!(app.message_textarea().scroll_row(), 0);

    app.handle_key_events(key(KeyCode::Char('l')));
    app.handle_key_events(key(KeyCode::Char('l')));
    app.handle_key_events(key(KeyCode::Char('h')));
    assert_eq!(app.message_textarea().scroll_col(), 1);

    app.handle_key_events(key(KeyCode::Char('q')));
    assert_eq!(*app.mode(), Mode::MessageTable(MessageTableMode::Normal));
}

#[test]
fn error_event_is_shown_and_the_loop_carries_on() {
    let mut app = App::new();
    let r = app.handle_app_event(AppEvent::Error("store unreachable".to_string()));
    assert!(r.is_none());
    assert!(app.running());
    assert_eq!(app.last_error(), &Some("store unreachable".to_string()));

    // The controller stays responsive and the next key dismisses the error.
    let r2 = app.handle_key_events(key(KeyCode::Char('j')));
    assert!(r2.is_none());
    assert_eq!(app.last_error(), &None);
}

#[test]
fn unhandled_keys_are_no_ops() {
    let mut app = App::new();
    app.handle_app_event(AppEvent::MessagesLoaded(sample_list()));
    let before_sel = app.message_table_state();
    let r = app.handle_key_events(key(KeyCode::Char('z')));
    assert!(r.is_none());
    assert_eq!(app.message_table_state(), before_sel);
    assert_eq!(*app.mode(), Mode::MessageTable(MessageTableMode::Normal));
}
