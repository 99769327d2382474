use eta::fixture::DefaultMessageProvider;
use eta::message::{Message, MessageProvider};

#[test]
fn seeds_twelve_messages_with_ascending_ids() {
    let store = DefaultMessageProvider::new();
    let messages = store.get_messages();
    assert_eq!(messages.len(), 12);
    for (k, m) in messages.iter().enumerate() {
        assert_eq!(m.id(), k as u64 + 1);
        assert_eq!(m.to(), "me@me.me");
    }
    assert_eq!(messages[0].from(), "bob@bob.me");
    assert_eq!(messages[0].subject(), "Hi");
    assert_eq!(messages[0].body(), "Hello there");
    assert_eq!(messages[1].from(), "alice@alice.me");
    assert_eq!(messages[1].subject(), "TPS Reports");
    assert_eq!(messages[2].from(), "derek@dcn.dev");
    assert_eq!(messages[2].subject(), "Big message");
    // The three samples repeat in a cycle.
    assert_eq!(messages[3].subject(), "Hi");
    assert_eq!(messages[11].subject(), "Big message");
}

#[test]
fn init_succeeds() {
    let mut store = DefaultMessageProvider::new();
    assert!(store.init().is_ok());
}

#[test]
fn get_message_returns_the_body_by_id() {
    let store = DefaultMessageProvider::new();
    assert_eq!(
        store.get_message(2),
        Some("So uhh...if you could just get those done\nyeahh....that'd be greaaaat.".to_string())
    );
    assert_eq!(store.get_message(1), Some("Hello there".to_string()));
    // Id 0 falls back to the first message, as indices saturate downward.
    assert_eq!(store.get_message(0), Some("Hello there".to_string()));
    assert_eq!(store.get_message(13), None);
}

#[test]
fn send_always_fails_naming_the_recipient() {
    let store = DefaultMessageProvider::new();
    let m = Message::new(
        0,
        String::new(),
        "me@me.me".to_string(),
        "Hi".to_string(),
        "hello".to_string(),
    );
    assert_eq!(
        store.send_message(&m),
        Some("failed sending to me@me.me".to_string())
    );
}
