use openai_stream::chat::message::{
    AssistantMessage, ChatMessage, Message, Messages, MultimodalContent, Role, SystemMessage, Text,
    ToolMessage, UserMessage,
};

fn text(s: &str) -> MultimodalContent {
    MultimodalContent::Text(Text::new(s))
}

#[test]
fn text_new_and_display() {
    let t = Text::new("hello");
    assert_eq!(t.text, "hello");
    assert_eq!(t.to_string(), "hello\n");
    assert_eq!(Text::from("x".to_string()), Text::new("x"));
}

#[test]
fn user_message_new() {
    let m = UserMessage::new(vec![text("What is the weather?")]);
    assert_eq!(m.role(), Role::User);
    assert_eq!(m.len(), 1);
    assert!(!m.is_empty());
    assert_eq!(m.content()[0], text("What is the weather?"));
    assert!(m.name.is_none());
}

#[test]
fn trait_push_and_mutate() {
    let mut m = SystemMessage { role: Role::System, content: vec![], name: None };
    assert!(m.is_empty());
    m.push_content(text("a"));
    m.push_content(text("b"));
    assert_eq!(m.len(), 2);
    m.content_mut()[0] = text("c");
    assert_eq!(m.content()[0], text("c"));
    assert_eq!(m.role(), Role::System);
}

#[test]
fn message_roles_and_sizes() {
    let sys = Message::from(SystemMessage { role: Role::System, content: vec![text("s")], name: None });
    let user = Message::from(UserMessage::new(vec![]));
    let empty_assistant = Message::from(AssistantMessage {
        content: vec![],
        name: None,
        tool_calls: None,
        refusal: None,
    });
    let tool = Message::Tool(ToolMessage { content: vec![text("72F")], tool_call_id: "weather_123".to_string() });
    assert_eq!(sys.role(), Role::System);
    assert_eq!(user.role(), Role::User);
    assert_eq!(empty_assistant.role(), Role::Assistant);
    assert_eq!(tool.role(), Role::Tool);
    assert!(!user.is_empty());
    assert_eq!(user.len(), 1);
    assert!(empty_assistant.is_empty());
    assert_eq!(empty_assistant.len(), 0);
    assert_eq!(tool.len(), 1);
}

#[test]
fn message_push_content_replaces_for_user_and_assistant() {
    let mut user = Message::from(UserMessage::new(vec![text("a"), text("b")]));
    user.push_content(text("c"));
    assert_eq!(user.content().len(), 1);
    assert_eq!(user.content()[0], text("c"));
    let mut assistant = Message::from(AssistantMessage {
        content: vec![],
        name: None,
        tool_calls: None,
        refusal: None,
    });
    assistant.push_content(text("d"));
    assert!(!assistant.is_empty());
    assert_eq!(assistant.len(), 1);
    let mut sys = Message::from(SystemMessage { role: Role::System, content: vec![text("s")], name: None });
    sys.push_content(text("x"));
    assert_eq!(sys.content().len(), 1);
    assert_eq!(sys.content()[0], text("s"));
}

#[test]
fn messages_deref() {
    let mut ms = Messages::from(Message::from(UserMessage::new(vec![text("hi")])));
    assert_eq!(ms.len(), 1);
    ms.push(Message::from(UserMessage::new(vec![text("again")])));
    assert_eq!(ms.len(), 2);
    assert_eq!(ms[1].content()[0], text("again"));
}
