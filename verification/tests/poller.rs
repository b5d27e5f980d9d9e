use teloxide::errors::{PollError, TransportError};
use teloxide::types::{AllowedUpdate, Message, Update, UpdateKind};
use teloxide::update_listeners::{
    default_polling, discard_errors, default_config, polling, polling_default, BatchEntry,
};

fn text_update(id: i32, chat_id: i64, text: &str) -> Update {
    Update {
        id,
        kind: UpdateKind::Message(Message { id, chat_id, text: Some(text.to_string()) }),
    }
}

#[test]
fn cursor_advances_past_malformed() {
    // Reach cursor 5 first: a single well-formed entry with identity 4.
    let mut poller = polling(None, None, None);
    let r = poller.apply_batch(Ok(vec![BatchEntry::Parsed(text_update(4, 1, "hi"))]));
    assert!(r.is_ok());
    assert_eq!(poller.offset, 5);

    // A malformed entry with id 5 and a well-formed one with id 6:
    // the cursor advances to 7 and exactly one event comes out, with
    // the malformed identity surfaced for diagnostics.
    let batch = vec![
        BatchEntry::Malformed(Some(5)),
        BatchEntry::Parsed(text_update(6, 1, "7")),
    ];
    let outcome = poller.apply_batch(Ok(batch)).unwrap();
    assert_eq!(poller.offset, 7);
    assert_eq!(outcome.updates.len(), 1);
    assert_eq!(outcome.updates[0].id, 6);
    assert_eq!(outcome.malformed, vec![5]);
}

#[test]
fn cursor_uses_largest_identity_seen() {
    // Even if the remote hands entries out of order, the cursor moves
    // one past the largest identity, not past the last entry's.
    let mut poller = polling(None, None, None);
    let batch = vec![
        BatchEntry::Parsed(text_update(10, 1, "a")),
        BatchEntry::Parsed(text_update(3, 1, "b")),
    ];
    let outcome = poller.apply_batch(Ok(batch)).unwrap();
    assert_eq!(poller.offset, 11);
    assert_eq!(outcome.updates.len(), 2);
    assert!(outcome.malformed.is_empty());
}

#[test]
fn transport_error_keeps_cursor() {
    let mut poller = polling(None, None, None);
    poller
        .apply_batch(Ok(vec![BatchEntry::Parsed(text_update(9, 1, "a"))]))
        .unwrap();
    assert_eq!(poller.offset, 10);

    let err = TransportError::new("connection reset".to_string());
    let r = poller.apply_batch(Err(err.clone()));
    assert_eq!(poller.offset, 10);
    assert_eq!(r, Err(PollError::Transport(err)));

    // The next request is issued with the unchanged cursor.
    let params = poller.next_request();
    assert_eq!(params.offset, 10);
}

#[test]
fn empty_batch_keeps_cursor() {
    let mut poller = polling(None, None, None);
    let outcome = poller.apply_batch(Ok(Vec::new())).unwrap();
    assert!(outcome.updates.is_empty());
    assert!(outcome.malformed.is_empty());
    assert_eq!(poller.offset, 0);
}

#[test]
fn unknown_identity_aborts_cycle() {
    let mut poller = polling(None, None, None);
    let batch = vec![
        BatchEntry::Parsed(text_update(3, 1, "a")),
        BatchEntry::Malformed(None),
    ];
    let r = poller.apply_batch(Ok(batch));
    assert_eq!(r, Err(PollError::Integrity));
    assert_eq!(poller.offset, 0);
}

#[test]
fn every_request_carries_the_filter() {
    let poller = polling(Some(25), Some(50), Some(vec![AllowedUpdate::Message]));
    let first = poller.next_request();
    assert_eq!(first.offset, 0);
    assert_eq!(first.limit, Some(50));
    assert_eq!(first.timeout, Some(25));
    assert_eq!(first.allowed_updates, Some(vec![AllowedUpdate::Message]));

    let second = poller.next_request();
    assert_eq!(second.allowed_updates, Some(vec![AllowedUpdate::Message]));
}

#[test]
fn default_polling_uses_ten_seconds() {
    let poller = default_polling();
    assert_eq!(poller.offset, 0);
    assert_eq!(poller.timeout, Some(10));
    assert_eq!(poller.limit, None);
    assert_eq!(poller.allowed_updates, None);

    let old_name = polling_default();
    assert_eq!(old_name.timeout, Some(10));
}

#[test]
fn discard_errors_keeps_order_and_surfaces_errors() {
    let e1 = TransportError::new("first".to_string());
    let e2 = TransportError::new("second".to_string());
    let items = vec![
        Ok(text_update(1, 7, "a")),
        Err(e1.clone()),
        Ok(text_update(2, 7, "b")),
        Err(e2.clone()),
    ];
    let (updates, errors) = discard_errors(items);
    assert_eq!(updates.len(), 2);
    assert_eq!(updates[0].id, 1);
    assert_eq!(updates[1].id, 2);
    assert_eq!(errors, vec![e1, e2]);
}

#[test]
fn default_config_projects_kinds() {
    let err = TransportError::new("gone".to_string());
    let items = vec![
        Ok(text_update(1, 7, "a")),
        Err(err.clone()),
        Ok(text_update(2, 8, "b")),
    ];
    let (kinds, errors) = default_config(items);
    assert_eq!(
        kinds,
        vec![
            UpdateKind::Message(Message { id: 1, chat_id: 7, text: Some("a".to_string()) }),
            UpdateKind::Message(Message { id: 2, chat_id: 8, text: Some("b".to_string()) }),
        ]
    );
    assert_eq!(errors, vec![err]);
}
