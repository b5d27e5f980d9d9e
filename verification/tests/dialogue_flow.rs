use teloxide::dialogue::{
    exit, next, parse_u8, transition, Dialogue, DialogueDispatcher, DialogueStage,
};
use teloxide::errors::TransitionError;

#[test]
fn two_state_flow_collects_name_and_age() {
    let mut dispatcher = DialogueDispatcher::new();
    let key = 42;

    let reply = dispatcher.handle_input(key, "Alice".to_string());
    assert_eq!(reply, "How old are you?");
    assert_eq!(
        dispatcher.current_state(key),
        Some(&Dialogue::AwaitingAge { name: "Alice".to_string() })
    );

    let reply = dispatcher.handle_input(key, "30".to_string());
    assert_eq!(reply, "What's your location?");
    assert_eq!(
        dispatcher.current_state(key),
        Some(&Dialogue::AwaitingLocation { name: "Alice".to_string(), age: 30 })
    );
}

#[test]
fn non_number_leaves_state_unchanged() {
    let mut dispatcher = DialogueDispatcher::new();
    let key = 42;
    dispatcher.handle_input(key, "Alice".to_string());

    let reply = dispatcher.handle_input(key, "not-a-number".to_string());
    assert_eq!(reply, "Send me a number.");
    assert_eq!(
        dispatcher.current_state(key),
        Some(&Dialogue::AwaitingAge { name: "Alice".to_string() })
    );
}

#[test]
fn plus_signed_age_is_accepted() {
    let mut dispatcher = DialogueDispatcher::new();
    dispatcher.handle_input(1, "Alice".to_string());
    let reply = dispatcher.handle_input(1, "+30".to_string());
    assert_eq!(reply, "What's your location?");
    assert_eq!(
        dispatcher.current_state(1),
        Some(&Dialogue::AwaitingLocation { name: "Alice".to_string(), age: 30 })
    );
}

#[test]
fn exit_removes_slot_and_restarts_fresh() {
    let mut dispatcher = DialogueDispatcher::new();
    let key = 7;
    dispatcher.handle_input(key, "Bob".to_string());
    dispatcher.handle_input(key, "41".to_string());

    // The location ends the conversation and drops the slot.
    let reply = dispatcher.handle_input(key, "Lisbon".to_string());
    assert_eq!(reply, "Thank you! The conversation is over.");
    assert_eq!(dispatcher.current_state(key), None);

    // The next event for the same key starts from the initial state.
    let reply = dispatcher.handle_input(key, "Carol".to_string());
    assert_eq!(reply, "How old are you?");
    assert_eq!(
        dispatcher.current_state(key),
        Some(&Dialogue::AwaitingAge { name: "Carol".to_string() })
    );
}

#[test]
fn failed_transition_keeps_state_identical() {
    let mut dispatcher = DialogueDispatcher::new();
    let key = 9;
    dispatcher.handle_input(key, "Dora".to_string());
    let before = dispatcher.current_state(key).cloned();

    let failure = TransitionError::new("reply could not be sent".to_string());
    dispatcher.apply(key, Err(failure));

    assert_eq!(dispatcher.current_state(key).cloned(), before);
    assert_eq!(
        before,
        Some(Dialogue::AwaitingAge { name: "Dora".to_string() })
    );
}

#[test]
fn apply_stores_and_removes() {
    let mut dispatcher = DialogueDispatcher::new();
    let key = 3;
    dispatcher.apply(
        key,
        Ok(next(Dialogue::AwaitingLocation { name: "Eve".to_string(), age: 22 })),
    );
    assert_eq!(
        dispatcher.current_state(key),
        Some(&Dialogue::AwaitingLocation { name: "Eve".to_string(), age: 22 })
    );

    dispatcher.apply(key, Ok(exit()));
    assert_eq!(dispatcher.current_state(key), None);
}

#[test]
fn distinct_keys_are_independent() {
    let mut dispatcher = DialogueDispatcher::new();
    dispatcher.handle_input(1, "Alice".to_string());
    dispatcher.handle_input(2, "Bob".to_string());
    dispatcher.handle_input(1, "30".to_string());

    assert_eq!(
        dispatcher.current_state(1),
        Some(&Dialogue::AwaitingLocation { name: "Alice".to_string(), age: 30 })
    );
    assert_eq!(
        dispatcher.current_state(2),
        Some(&Dialogue::AwaitingAge { name: "Bob".to_string() })
    );
}

#[test]
fn transition_outcomes() {
    let (stage, reply) = transition(&Dialogue::AwaitingName, "Zoe".to_string());
    assert_eq!(stage, DialogueStage::Next(Dialogue::AwaitingAge { name: "Zoe".to_string() }));
    assert_eq!(reply, "How old are you?");

    let (stage, _) = transition(
        &Dialogue::AwaitingLocation { name: "Zoe".to_string(), age: 5 },
        "anywhere".to_string(),
    );
    assert_eq!(stage, DialogueStage::Exit);
}

#[test]
fn parse_u8_exact_values() {
    assert_eq!(parse_u8("0"), Some(0));
    assert_eq!(parse_u8("7"), Some(7));
    assert_eq!(parse_u8("30"), Some(30));
    assert_eq!(parse_u8("255"), Some(255));
    assert_eq!(parse_u8("256"), None);
    assert_eq!(parse_u8("007"), Some(7));
    assert_eq!(parse_u8(""), None);
    assert_eq!(parse_u8("-1"), None);
    assert_eq!(parse_u8("+1"), Some(1));
    assert_eq!(parse_u8("+30"), Some(30));
    assert_eq!(parse_u8("+"), None);
    assert_eq!(parse_u8("++3"), None);
    assert_eq!(parse_u8("+256"), None);
    assert_eq!(parse_u8("3a"), None);
    assert_eq!(parse_u8("not-a-number"), None);
    assert_eq!(parse_u8("\u{fc}"), None);
    assert_eq!(parse_u8("3\u{20ac}"), None);
}
