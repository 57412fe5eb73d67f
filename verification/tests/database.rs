use imessage_bot::clock::{retention_cutoff, MILLIS_PER_DAY};
use imessage_bot::database::{
    config_from_row, config_from_row_with, config_row_with, config_to_row, message_cutoff,
    message_from_row, message_to_row, messages_from_rows, queue_cutoff, role_from_str, same_texts,
    sqlite_path, ChatConfigRow, MessageRow, QueueError, QueueEvent, QueueStatus, QueuedItem,
    MESSAGE_RETENTION_DAYS, QUEUE_RETENTION_DAYS, RECENT_TURNS,
};
use imessage_bot::types::{ChatConfig, Message, MessageRole};

fn stored_config() -> ChatConfig {
    ChatConfig {
        chat_guid: "iMessage;+;chat123".to_string(),
        character_prompt: Some("You are \"Bob\", a pirate.\nArr.".to_string()),
        triggers: vec!["@ava".to_string(), "@character".to_string(), "@unhinge".to_string()],
        trigger_name: "bob".to_string(),
        use_ollama: true,
        created_at: 1_700_000_000_000,
        updated_at: 1_700_000_500_000,
    }
}

#[test]
fn successful_delivery_goes_through_processing_to_completed() {
    let mut item = QueuedItem::new(1, "chat-1".to_string(), "hello".to_string(), 10);
    assert_eq!(item.status, QueueStatus::Pending);
    assert_eq!(item.queued_at, 10);
    assert_eq!(item.processing_started_at, None);
    assert_eq!(item.apply(QueueEvent::Claimed, 20), Ok(()));
    assert_eq!(item.status, QueueStatus::Processing);
    assert_eq!(item.processing_started_at, Some(20));
    assert_eq!(item.apply(QueueEvent::Delivered, 30), Ok(()));
    assert_eq!(item.status, QueueStatus::Completed);
    assert_eq!(item.processing_started_at, Some(20));
    assert_eq!(item.id, 1);
    assert_eq!(item.chat_guid, "chat-1");
    assert_eq!(item.text, "hello");
    assert_eq!(item.queued_at, 10);
}

#[test]
fn failed_delivery_goes_through_processing_to_failed() {
    let mut item = QueuedItem::new(2, "chat-1".to_string(), "hello".to_string(), 10);
    assert_eq!(item.apply(QueueEvent::Claimed, 20), Ok(()));
    assert_eq!(item.apply(QueueEvent::DeliveryFailed, 30), Ok(()));
    assert_eq!(item.status, QueueStatus::Failed);
}

#[test]
fn no_item_skips_processing_or_goes_back() {
    let all = [
        QueueStatus::Pending,
        QueueStatus::Processing,
        QueueStatus::Completed,
        QueueStatus::Failed,
    ];
    let events = [QueueEvent::Claimed, QueueEvent::Delivered, QueueEvent::DeliveryFailed];
    for status in all {
        for event in events {
            let expected = match (status, event) {
                (QueueStatus::Pending, QueueEvent::Claimed) => Ok(QueueStatus::Processing),
                (QueueStatus::Processing, QueueEvent::Delivered) => Ok(QueueStatus::Completed),
                (QueueStatus::Processing, QueueEvent::DeliveryFailed) => Ok(QueueStatus::Failed),
                _ => Err(QueueError::InvalidTransition),
            };
            assert_eq!(status.after(event), expected);
        }
    }
}

#[test]
fn refused_events_leave_the_item_alone() {
    let mut item = QueuedItem::new(3, "chat-1".to_string(), "hello".to_string(), 10);
    assert_eq!(item.apply(QueueEvent::Delivered, 20), Err(QueueError::InvalidTransition));
    assert_eq!(item.apply(QueueEvent::DeliveryFailed, 20), Err(QueueError::InvalidTransition));
    assert_eq!(item, QueuedItem::new(3, "chat-1".to_string(), "hello".to_string(), 10));
    item.apply(QueueEvent::Claimed, 20).unwrap();
    assert_eq!(item.apply(QueueEvent::Claimed, 25), Err(QueueError::InvalidTransition));
    assert_eq!(item.processing_started_at, Some(20));
    item.apply(QueueEvent::Delivered, 30).unwrap();
    for event in [QueueEvent::Claimed, QueueEvent::Delivered, QueueEvent::DeliveryFailed] {
        assert_eq!(item.apply(event, 40), Err(QueueError::InvalidTransition));
        assert_eq!(item.status, QueueStatus::Completed);
    }
}

#[test]
fn status_names_and_terminal_statuses() {
    assert_eq!(QueueStatus::Pending.as_str(), "pending");
    assert_eq!(QueueStatus::Processing.as_str(), "processing");
    assert_eq!(QueueStatus::Completed.as_str(), "completed");
    assert_eq!(QueueStatus::Failed.as_str(), "failed");
    assert!(!QueueStatus::Pending.is_terminal());
    assert!(!QueueStatus::Processing.is_terminal());
    assert!(QueueStatus::Completed.is_terminal());
    assert!(QueueStatus::Failed.is_terminal());
}

#[test]
fn only_finished_old_items_expire() {
    let mut item = QueuedItem::new(4, "chat-1".to_string(), "hello".to_string(), 10);
    assert!(!item.is_expired(11));
    item.apply(QueueEvent::Claimed, 20).unwrap();
    assert!(!item.is_expired(11));
    item.apply(QueueEvent::DeliveryFailed, 30).unwrap();
    assert!(item.is_expired(11));
    assert!(!item.is_expired(10));
    assert!(!item.is_expired(9));
}

#[test]
fn cutoffs_lie_the_retention_window_back() {
    assert_eq!(MILLIS_PER_DAY, 86_400_000);
    assert_eq!(MESSAGE_RETENTION_DAYS, 7);
    assert_eq!(QUEUE_RETENTION_DAYS, 1);
    assert_eq!(RECENT_TURNS, 10);
    assert_eq!(message_cutoff(1_700_000_000_000), 1_699_395_200_000);
    assert_eq!(queue_cutoff(1_700_000_000_000), 1_699_913_600_000);
    assert_eq!(retention_cutoff(1000, 0), 1000);
    assert_eq!(retention_cutoff(0, 1), -86_400_000);
    assert_eq!(retention_cutoff(0, -1), 86_400_000);
    assert_eq!(retention_cutoff(i64::MIN, 1), i64::MIN);
    assert_eq!(retention_cutoff(i64::MAX, -1), i64::MAX);
    assert_eq!(retention_cutoff(5, i64::MAX), i64::MIN);
    assert_eq!(retention_cutoff(5, i64::MIN), i64::MAX);
}

#[test]
fn roles_survive_the_store() {
    for role in [MessageRole::User, MessageRole::Assistant, MessageRole::System] {
        assert_eq!(role_from_str(role.as_str()), role);
    }
    assert_eq!(role_from_str("moderator"), MessageRole::User);
    assert_eq!(role_from_str(""), MessageRole::User);
    assert_eq!(role_from_str("Assistant"), MessageRole::User);
}

#[test]
fn turns_survive_the_store() {
    let turn = Message { role: MessageRole::Assistant, content: "hi ✅".to_string(), timestamp: 77 };
    let row = message_to_row(&turn);
    assert_eq!(
        row,
        MessageRow { role: "assistant".to_string(), content: "hi ✅".to_string(), timestamp: 77 }
    );
    assert_eq!(message_from_row(&row), turn);
}

#[test]
fn rows_come_newest_first_and_turns_go_oldest_first() {
    let rows = vec![
        MessageRow { role: "assistant".to_string(), content: "c".to_string(), timestamp: 3 },
        MessageRow { role: "user".to_string(), content: "b".to_string(), timestamp: 2 },
        MessageRow { role: "robot".to_string(), content: "a".to_string(), timestamp: 1 },
    ];
    let turns = messages_from_rows(&rows);
    assert_eq!(
        turns,
        vec![
            Message { role: MessageRole::User, content: "a".to_string(), timestamp: 1 },
            Message { role: MessageRole::User, content: "b".to_string(), timestamp: 2 },
            Message { role: MessageRole::Assistant, content: "c".to_string(), timestamp: 3 },
        ]
    );
    assert!(messages_from_rows(&Vec::new()).is_empty());
}

#[test]
fn configuration_round_trips_through_its_row() {
    let config = stored_config();
    let row = config_to_row(&config).unwrap();
    assert_eq!(row.triggers, "[\"@ava\",\"@character\",\"@unhinge\"]");
    assert_eq!(row.chat_guid, config.chat_guid);
    assert_eq!(row.trigger_name, "bob");
    assert_eq!(row.updated_at, 1_700_000_500_000);
    assert_eq!(config_from_row(row), config);

    let plain = ChatConfig::with_defaults("chat-2".to_string(), Vec::new(), 5);
    let row = config_to_row(&plain).unwrap();
    assert_eq!(row.triggers, "[]");
    assert_eq!(config_from_row(row), plain);

    let odd = ChatConfig {
        triggers: vec!["with \"quotes\"".to_string(), "új\nline".to_string(), String::new()],
        ..stored_config()
    };
    assert_eq!(config_from_row(config_to_row(&odd).unwrap()), odd);
}

#[test]
fn unreadable_triggers_count_as_none() {
    let row = ChatConfigRow {
        chat_guid: "chat-1".to_string(),
        character_prompt: None,
        triggers: "not json".to_string(),
        trigger_name: "myai".to_string(),
        use_ollama: false,
        created_at: 1,
        updated_at: 2,
    };
    let config = config_from_row(row.clone());
    assert!(config.triggers.is_empty());
    assert_eq!(config.trigger_name, "myai");
    let numbers = ChatConfigRow { triggers: "[1,2]".to_string(), ..row.clone() };
    assert!(config_from_row(numbers).triggers.is_empty());
    let object = ChatConfigRow { triggers: "{\"a\":\"b\"}".to_string(), ..row };
    assert!(config_from_row(object).triggers.is_empty());
}

#[test]
fn rows_are_built_from_given_parts() {
    let config = stored_config();
    let row = config_row_with(&config, "[\"x\"]".to_string());
    assert_eq!(row.triggers, "[\"x\"]");
    assert_eq!(row.character_prompt, config.character_prompt);
    let back = config_from_row_with(row.clone(), Some(vec!["x".to_string()]));
    assert_eq!(back.triggers, vec!["x".to_string()]);
    assert_eq!(back.chat_guid, config.chat_guid);
    assert!(back.use_ollama);
    let none = config_from_row_with(row, None);
    assert!(none.triggers.is_empty());
}

#[test]
fn file_backed_addresses_give_their_path() {
    assert_eq!(sqlite_path("sqlite:./bot.db"), Some("./bot.db".to_string()));
    assert_eq!(sqlite_path("sqlite::memory:"), Some(":memory:".to_string()));
    assert_eq!(sqlite_path("sqlite:"), Some(String::new()));
    assert_eq!(sqlite_path("postgres://host/db"), None);
    assert_eq!(sqlite_path("SQLITE:./bot.db"), None);
    assert_eq!(sqlite_path(""), None);
}

#[test]
fn statuses_survive_the_store() {
    for status in [
        QueueStatus::Pending,
        QueueStatus::Processing,
        QueueStatus::Completed,
        QueueStatus::Failed,
    ] {
        assert_eq!(QueueStatus::from_name(status.as_str()), Some(status));
    }
    assert_eq!(QueueStatus::from_name("done"), None);
    assert_eq!(QueueStatus::from_name("Pending"), None);
    assert_eq!(QueueStatus::from_name(""), None);
}

#[test]
fn each_status_but_pending_has_the_event_that_leads_to_it() {
    assert_eq!(QueueEvent::leading_to(QueueStatus::Pending), None);
    assert_eq!(QueueEvent::leading_to(QueueStatus::Processing), Some(QueueEvent::Claimed));
    assert_eq!(QueueEvent::leading_to(QueueStatus::Completed), Some(QueueEvent::Delivered));
    assert_eq!(QueueEvent::leading_to(QueueStatus::Failed), Some(QueueEvent::DeliveryFailed));
    assert_eq!(
        QueueStatus::Pending.after(QueueEvent::leading_to(QueueStatus::Processing).unwrap()),
        Ok(QueueStatus::Processing)
    );
}

#[test]
fn lists_of_texts_are_compared_entry_by_entry() {
    let a = vec!["x".to_string(), "y".to_string()];
    assert!(same_texts(&a, &a.clone()));
    assert!(!same_texts(&a, &vec!["x".to_string()]));
    assert!(!same_texts(&a, &vec!["x".to_string(), "z".to_string()]));
    assert!(!same_texts(&a, &vec!["y".to_string(), "x".to_string()]));
    assert!(same_texts(&Vec::new(), &Vec::new()));
}
