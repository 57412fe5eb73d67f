use imessage_bot::registry::{AgentRegistry, Ensured};

#[test]
fn ensure_registers_one_actor_per_conversation() {
    let mut registry = AgentRegistry::new();
    assert_eq!(registry.get("chat-1"), None);
    assert!(!registry.contains("chat-1"));
    assert_eq!(registry.ensure("chat-1"), Ensured::Created(0));
    assert_eq!(registry.ensure("chat-1"), Ensured::Existing(0));
    assert_eq!(registry.ensure("chat-1"), Ensured::Existing(0));
    assert_eq!(registry.ensure("chat-2"), Ensured::Created(1));
    assert_eq!(registry.ensure("chat-1").actor(), 0);
    assert_eq!(registry.get("chat-1"), Some(0));
    assert_eq!(registry.get("chat-2"), Some(1));
    assert!(registry.contains("chat-2"));
    let mut guids = registry.chat_guids();
    guids.sort();
    assert_eq!(guids, vec!["chat-1".to_string(), "chat-2".to_string()]);
}

#[test]
fn removed_actors_are_replaced_by_new_ones() {
    let mut registry = AgentRegistry::new();
    registry.ensure("chat-1");
    registry.ensure("chat-2");
    assert_eq!(registry.remove("chat-1"), Some(0));
    assert_eq!(registry.remove("chat-1"), None);
    assert_eq!(registry.get("chat-1"), None);
    assert_eq!(registry.get("chat-2"), Some(1));
    assert_eq!(registry.chat_guids(), vec!["chat-2".to_string()]);
    assert_eq!(registry.ensure("chat-1"), Ensured::Created(2));
    assert_eq!(registry.remove("never"), None);
}

#[test]
fn empty_registry_lists_nothing() {
    let registry = AgentRegistry::new();
    assert!(registry.chat_guids().is_empty());
}
