use eta::app::{App, ComposeFocus, ComposeMode, Mode, MessageTableMode};
use eta::event::{Action, AppEvent, KeyCode, KeyEvent};

fn key(code: KeyCode) -> KeyEvent {
    KeyEvent::plain(code)
}

fn type_str(app: &mut App, s: &str) {
    for c in s.chars() {
        app.handle_key_events(key(KeyCode::Char(c)));
    }
}

#[test]
fn sending_a_draft_builds_the_message_and_clears_the_buffers() {
    let mut app = App::new();
    app.handle_key_events(key(KeyCode::Char('c')));

    // To field: edit, type the address, commit and advance with Tab.
    app.handle_key_events(key(KeyCode::Enter));
    type_str(&mut app, "a@b.com");
    app.handle_key_events(key(KeyCode::Tab));

    // Subject field.
    app.handle_key_events(key(KeyCode::Enter));
    type_str(&mut app, "Hi");
    app.handle_key_events(key(KeyCode::Tab));

    // Body field.
    app.handle_key_events(key(KeyCode::Enter));
    type_str(&mut app, "hello");
    app.handle_key_events(key(KeyCode::Esc));
    assert_eq!(
        *app.mode(),
        Mode::Compose(ComposeFocus::Message(ComposeMode::Normal))
    );

    // Submit.
    let r = app.handle_key_events(key(KeyCode::Char('S')));
    assert!(matches!(r, Some(Action::Emit(AppEvent::SendMessage))));

    let sent = app.handle_app_event(AppEvent::SendMessage);
    let m = match sent {
        Some(Action::SendMail(m)) => m,
        other => panic!("expected a send action, got {other:?}"),
    };
    assert_eq!(m.id(), 0);
    assert_eq!(m.from(), "");
    assert_eq!(m.to(), "a@b.com");
    assert_eq!(m.subject(), "Hi");
    assert_eq!(m.body(), "hello");

    // Buffers are empty at once, before any send outcome arrives.
    assert_eq!(app.compose_to_input().text(), "");
    assert_eq!(app.compose_subject_input().text(), "");
    assert_eq!(app.compose_message_text(), "");
    assert_eq!(*app.mode(), Mode::MessageTable(MessageTableMode::Normal));

    // A failure outcome later only changes the banner, not the buffers.
    app.handle_app_event(AppEvent::MessageSent(Some("no relay".to_string())));
    assert_eq!(app.compose_message_text(), "");
}

#[test]
fn draft_takes_only_the_first_line_of_to_and_subject() {
    let mut app = App::new();
    app.handle_key_events(key(KeyCode::Char('c')));
    app.handle_key_events(key(KeyCode::Enter));
    type_str(&mut app, "x@y.z");
    // To is a single-line field: Enter commits and advances instead of
    // inserting a line break.
    app.handle_key_events(key(KeyCode::Enter));
    assert_eq!(
        *app.mode(),
        Mode::Compose(ComposeFocus::Subject(ComposeMode::Normal))
    );
    app.handle_key_events(key(KeyCode::Enter));
    type_str(&mut app, "subj");
    app.handle_key_events(key(KeyCode::Tab));

    // Body keeps its line breaks.
    app.handle_key_events(key(KeyCode::Enter));
    type_str(&mut app, "line one");
    app.handle_key_events(key(KeyCode::Enter));
    type_str(&mut app, "line two");
    app.handle_key_events(key(KeyCode::Esc));

    let sent = app.handle_app_event(AppEvent::SendMessage);
    let m = match sent {
        Some(Action::SendMail(m)) => m,
        other => panic!("expected a send action, got {other:?}"),
    };
    assert_eq!(m.to(), "x@y.z");
    assert_eq!(m.subject(), "subj");
    assert_eq!(m.body(), "line one\nline two");
}

#[test]
fn esc_commits_text_and_stops_editing() {
    let mut app = App::new();
    app.handle_key_events(key(KeyCode::Char('c')));
    app.handle_key_events(key(KeyCode::Enter));
    type_str(&mut app, "kept");
    app.handle_key_events(key(KeyCode::Esc));
    assert_eq!(
        *app.mode(),
        Mode::Compose(ComposeFocus::To(ComposeMode::Normal))
    );
    // The buffer is not reverted on Esc.
    assert_eq!(app.compose_to_input().text(), "kept");
}

#[test]
fn abandoning_compose_returns_to_table_and_keeps_draft() {
    let mut app = App::new();
    app.handle_key_events(key(KeyCode::Char('c')));
    app.handle_key_events(key(KeyCode::Enter));
    type_str(&mut app, "draft@d.d");
    app.handle_key_events(key(KeyCode::Esc));
    app.handle_key_events(key(KeyCode::Char('q')));
    assert_eq!(*app.mode(), Mode::MessageTable(MessageTableMode::Normal));
    // This controller keeps an abandoned draft; only sending clears it.
    assert_eq!(app.compose_to_input().text(), "draft@d.d");
}

#[test]
fn typing_q_in_editing_inserts_rather_than_leaving() {
    let mut app = App::new();
    app.handle_key_events(key(KeyCode::Char('c')));
    app.handle_key_events(key(KeyCode::Enter));
    app.handle_key_events(key(KeyCode::Char('q')));
    assert_eq!(
        *app.mode(),
        Mode::Compose(ComposeFocus::To(ComposeMode::Editing))
    );
    assert_eq!(app.compose_to_input().text(), "q");
}

#[test]
fn body_navigating_scrolls_and_editing_moves_cursor() {
    let mut app = App::new();
    app.handle_key_events(key(KeyCode::Char('c')));
    app.handle_key_events(key(KeyCode::Tab));
    app.handle_key_events(key(KeyCode::Tab));
    assert_eq!(
        *app.mode(),
        Mode::Compose(ComposeFocus::Message(ComposeMode::Normal))
    );

    // Navigating: Up/Down scroll the body view.
    app.handle_key_events(key(KeyCode::Down));
    assert_eq!(app.compose_message_input().scroll_row(), 1);
    app.handle_key_events(key(KeyCode::Up));
    assert_eq!(app.compose_message_input().scroll_row(), 0);

    // Editing: Up/Down move the cursor between lines.
    app.handle_key_events(key(KeyCode::Enter));
    type_str(&mut app, "ab");
    app.handle_key_events(key(KeyCode::Enter));
    type_str(&mut app, "wxyz");
    assert_eq!(app.compose_message_input().cursor(), 7);
    app.handle_key_events(key(KeyCode::Up));
    assert_eq!(app.compose_message_input().cursor(), 2);
    // Coming back down keeps the column, landing inside the longer line.
    app.handle_key_events(key(KeyCode::Down));
    assert_eq!(app.compose_message_input().cursor(), 5);
}
