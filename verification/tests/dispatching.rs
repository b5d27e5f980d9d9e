use teloxide::dispatcher::{conversation_key, Dispatcher};
use teloxide::types::{CallbackQuery, Message, UpdateKind, User};

fn user(id: i64) -> User {
    User {
        id,
        is_bot: false,
        first_name: "firstName".to_string(),
        last_name: None,
        username: None,
        language_code: None,
    }
}

fn message(id: i32, chat_id: i64) -> Message {
    Message { id, chat_id, text: Some("hello".to_string()) }
}

#[test]
fn routes_by_kind() {
    let mut dispatcher = Dispatcher::new();
    let query = CallbackQuery::new("q1".to_string(), user(1), "inst".to_string());

    assert!(dispatcher.dispatch(UpdateKind::Message(message(1, 5))));
    assert!(dispatcher.dispatch(UpdateKind::CallbackQuery(query.clone())));
    assert!(dispatcher.dispatch(UpdateKind::Message(message(2, 5))));

    let messages = dispatcher.take_messages();
    assert_eq!(messages, vec![message(1, 5), message(2, 5)]);
    let queries = dispatcher.take_callback_queries();
    assert_eq!(queries, vec![query]);

    // Drained sinks are empty afterwards.
    assert!(dispatcher.take_messages().is_empty());
    assert!(dispatcher.take_callback_queries().is_empty());
}

#[test]
fn unregistered_kind_is_dropped() {
    let mut dispatcher = Dispatcher::new();
    assert!(!dispatcher.dispatch(UpdateKind::EditedMessage(message(1, 5))));
    assert!(dispatcher.take_messages().is_empty());
    assert!(dispatcher.take_callback_queries().is_empty());
}

#[test]
fn conversation_key_from_events() {
    assert_eq!(conversation_key(&UpdateKind::Message(message(1, 77))), Some(77));
    assert_eq!(conversation_key(&UpdateKind::EditedMessage(message(2, 78))), Some(78));

    let bare = CallbackQuery::new("q".to_string(), user(3), "inst".to_string());
    assert_eq!(conversation_key(&UpdateKind::CallbackQuery(bare.clone())), None);

    let attached = bare.message(message(4, 79));
    assert_eq!(conversation_key(&UpdateKind::CallbackQuery(attached)), Some(79));
}
