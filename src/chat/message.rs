use vstd::prelude::*;

verus! {

/// Who speaks a message.
#[derive(Debug, Clone, Copy, PartialEq, Eq, Structural)]
pub enum Role {
    System,
    User,
    Assistant,
    Tool,
}

/// A piece of plain text.
#[derive(Debug, Default, Clone, PartialEq, Eq)]
pub struct Text {
    pub text: String,
}

impl Text {
    /// The text `text`.
    #[must_use]
    pub fn new(text: &str) -> (r: Text)
        ensures
            r.text@ == text@,
    {
        Text { text: text.to_owned() }
    }

    /// The text as it is displayed: followed by a newline.
    pub fn to_string(&self) -> (r: String)
        ensures
            r@ == self.text@.push('\n'),
    {
        let mut r = self.text.clone();
        proof {
            reveal_strlit("\n");
        }
        r.append("\n");
        r
    }
}

impl From<String> for Text {
    fn from(text: String) -> (r: Text)
        ensures
            r.text@ == text@,
    {
        Text { text }
    }
}

impl vstd::std_specs::convert::FromSpecImpl<String> for Text {
    open spec fn obeys_from_spec() -> bool {
        true
    }

    open spec fn from_spec(text: String) -> Text {
        Text { text }
    }
}

/// One part of a message's content.
#[derive(Debug, Clone, PartialEq, Eq)]
pub enum MultimodalContent {
    Text(Text),
}

/// What every kind of chat message offers: its role and its list of content parts.
pub trait ChatMessage: Sized {
    /// The role the message is spoken in.
    spec fn spec_role(&self) -> Role;

    /// The content parts, in order.
    spec fn spec_content(&self) -> Seq<MultimodalContent>;

    fn role(&self) -> (r: Role)
        ensures
            r == self.spec_role(),
    ;

    fn content(&self) -> (r: &Vec<MultimodalContent>)
        ensures
            r@ == self.spec_content(),
    ;

    fn content_mut(&mut self) -> (r: &mut Vec<MultimodalContent>)
        ensures
            r@ == old(self).spec_content(),
            final(self).spec_content() == final(r)@,
            final(self).spec_role() == old(self).spec_role(),
    ;

    fn push_content(&mut self, content: MultimodalContent)
        ensures
            final(self).spec_content() == old(self).spec_content().push(content),
            final(self).spec_role() == old(self).spec_role(),
    ;

    fn is_empty(&self) -> (r: bool)
        ensures
            r == (self.spec_content().len() == 0),
    ;

    fn len(&self) -> (r: usize)
        ensures
            r == self.spec_content().len(),
    ;
}

/// Instructions that frame the conversation.
#[derive(Debug, Clone)]
pub struct SystemMessage {
    pub role: Role,
    pub content: Vec<MultimodalContent>,
    pub name: Option<String>,
}

impl ChatMessage for SystemMessage {
    open spec fn spec_role(&self) -> Role {
        self.role
    }

    open spec fn spec_content(&self) -> Seq<MultimodalContent> {
        self.content@
    }

    fn role(&self) -> (r: Role) {
        self.role
    }

    fn content(&self) -> (r: &Vec<MultimodalContent>) {
        &self.content
    }

    fn content_mut(&mut self) -> (r: &mut Vec<MultimodalContent>) {
        &mut self.content
    }

    fn push_content(&mut self, content: MultimodalContent) {
        self.content.push(content);
    }

    fn is_empty(&self) -> (r: bool) {
        self.content.len() == 0
    }

    fn len(&self) -> (r: usize) {
        self.content.len()
    }
}

/// What the user says.
#[derive(Debug, Clone)]
pub struct UserMessage {
    pub role: Role,
    pub content: Vec<MultimodalContent>,
    pub name: Option<String>,
}

impl ChatMessage for UserMessage {
    open spec fn spec_role(&self) -> Role {
        self.role
    }

    open spec fn spec_content(&self) -> Seq<MultimodalContent> {
        self.content@
    }

    fn role(&self) -> (r: Role) {
        self.role
    }

    fn content(&self) -> (r: &Vec<MultimodalContent>) {
        &self.content
    }

    fn content_mut(&mut self) -> (r: &mut Vec<MultimodalContent>) {
        &mut self.content
    }

    fn push_content(&mut self, content: MultimodalContent) {
        self.content.push(content);
    }

    fn is_empty(&self) -> (r: bool) {
        self.content.len() == 0
    }

    fn len(&self) -> (r: usize) {
        self.content.len()
    }
}

impl UserMessage {
    /// A user message with the parts `content`, in the user role and without a name.
    pub fn new(content: Vec<MultimodalContent>) -> (r: UserMessage)
        ensures
            r.role == Role::User,
            r.content@ == content@,
            r.name is None,
    {
        UserMessage { role: Role::User, content, name: None }
    }
}

/// What the model answered.
#[derive(Debug, Clone)]
pub struct AssistantMessage {
    pub content: Vec<MultimodalContent>,
    pub name: Option<String>,
    pub tool_calls: Option<Vec<serde_json::Value>>,
    pub refusal: Option<String>,
}

/// The result of a tool call, handed back to the model.
#[derive(Debug, Clone)]
pub struct ToolMessage {
    pub content: Vec<MultimodalContent>,
    pub tool_call_id: String,
}

/// A message of any role.
#[derive(Debug, Clone)]
pub enum Message {
    System(SystemMessage),
    User(UserMessage),
    Assistant(AssistantMessage),
    Tool(ToolMessage),
}

impl Message {
    /// The content parts of the message, whatever its role.
    pub open spec fn spec_content(&self) -> Seq<MultimodalContent> {
        match self {
            Message::System(m) => m.content@,
            Message::User(m) => m.content@,
            Message::Assistant(m) => m.content@,
            Message::Tool(m) => m.content@,
        }
    }

    /// The role that the message's kind stands for.
    pub open spec fn spec_role(&self) -> Role {
        match self {
            Message::System(_) => Role::System,
            Message::User(_) => Role::User,
            Message::Assistant(_) => Role::Assistant,
            Message::Tool(_) => Role::Tool,
        }
    }

    /// An assistant message without content.
    pub open spec fn spec_is_empty(&self) -> bool {
        self matches Message::Assistant(m) && m.content@.len() == 0
    }

    /// The role that the message's kind stands for.
    #[must_use]
    pub fn role(&self) -> (r: Role)
        ensures
            r == self.spec_role(),
    {
        match self {
            Message::System(_) => Role::System,
            Message::User(_) => Role::User,
            Message::Assistant(_) => Role::Assistant,
            Message::Tool(_) => Role::Tool,
        }
    }

    /// The content parts of the message.
    pub fn content(&self) -> (r: &Vec<MultimodalContent>)
        ensures
            r@ == self.spec_content(),
    {
        match self {
            Message::System(msg) => &msg.content,
            Message::User(msg) => &msg.content,
            Message::Assistant(msg) => &msg.content,
            Message::Tool(msg) => &msg.content,
        }
    }

    /// The content parts of the message, to change in place.
    pub fn content_mut(&mut self) -> (r: &mut Vec<MultimodalContent>)
        ensures
            r@ == old(self).spec_content(),
            final(self).spec_content() == final(r)@,
            final(self).spec_role() == old(self).spec_role(),
    {
        match self {
            Message::System(msg) => &mut msg.content,
            Message::User(msg) => &mut msg.content,
            Message::Assistant(msg) => &mut msg.content,
            Message::Tool(msg) => &mut msg.content,
        }
    }

    /// Sets the content of a user or assistant message to the single part `content`; system
    /// and tool messages keep theirs.
    pub fn push_content(&mut self, content: MultimodalContent)
        ensures
            match *old(self) {
                Message::User(_) | Message::Assistant(_) => final(self).spec_content() == seq![
                    content,
                ],
                _ => *final(self) == *old(self),
            },
            final(self).spec_role() == old(self).spec_role(),
    {
        match self {
            Message::System(_) => {},
            Message::User(msg) => {
                msg.content = vec![content];
            },
            Message::Assistant(msg) => {
                msg.content = vec![content];
            },
            Message::Tool(_) => {},
        }
    }

    /// An assistant message is empty when it has no content; other messages never are.
    #[must_use]
    pub fn is_empty(&self) -> (r: bool)
        ensures
            r == self.spec_is_empty(),
    {
        match self {
            Message::System(_) => false,
            Message::User(_) => false,
            Message::Assistant(msg) => msg.content.len() == 0,
            Message::Tool(_) => false,
        }
    }

    /// How many messages this counts as: none for an empty assistant message, one otherwise.
    pub fn len(&self) -> (r: usize)
        ensures
            r == (if self.spec_is_empty() {
                0usize
            } else {
                1usize
            }),
    {
        match self {
            Message::System(_) => 1,
            Message::User(_) => 1,
            Message::Assistant(msg) => {
                if msg.content.len() != 0 {
                    1
                } else {
                    0
                }
            },
            Message::Tool(_) => 1,
        }
    }
}

impl From<SystemMessage> for Message {
    fn from(message: SystemMessage) -> (r: Message) {
        Message::System(message)
    }
}

impl vstd::std_specs::convert::FromSpecImpl<SystemMessage> for Message {
    open spec fn obeys_from_spec() -> bool {
        true
    }

    open spec fn from_spec(message: SystemMessage) -> Message {
        Message::System(message)
    }
}

impl From<UserMessage> for Message {
    fn from(message: UserMessage) -> (r: Message) {
        Message::User(message)
    }
}

impl vstd::std_specs::convert::FromSpecImpl<UserMessage> for Message {
    open spec fn obeys_from_spec() -> bool {
        true
    }

    open spec fn from_spec(message: UserMessage) -> Message {
        Message::User(message)
    }
}

impl From<AssistantMessage> for Message {
    fn from(message: AssistantMessage) -> (r: Message) {
        Message::Assistant(message)
    }
}

impl vstd::std_specs::convert::FromSpecImpl<AssistantMessage> for Message {
    open spec fn obeys_from_spec() -> bool {
        true
    }

    open spec fn from_spec(message: AssistantMessage) -> Message {
        Message::Assistant(message)
    }
}

/// The messages of a conversation, oldest first.
#[derive(Debug, Clone, Default)]
pub struct Messages(pub Vec<Message>);

impl Messages {
    /// The messages, in order.
    pub open spec fn view(&self) -> Seq<Message> {
        self.0@
    }
}

impl std::ops::Deref for Messages {
    type Target = Vec<Message>;

    fn deref(&self) -> (r: &Vec<Message>)
        ensures
            r@ == self.0@,
    {
        &self.0
    }
}

impl std::ops::DerefMut for Messages {
    fn deref_mut(&mut self) -> (r: &mut Vec<Message>)
        ensures
            r@ == old(self).0@,
            final(self).0@ == final(r)@,
    {
        &mut self.0
    }
}

impl From<Message> for Messages {
    fn from(value: Message) -> (r: Messages)
        ensures
            r.0@ == seq![value],
    {
        Messages(vec![value])
    }
}

impl vstd::std_specs::convert::FromSpecImpl<Message> for Messages {
    open spec fn obeys_from_spec() -> bool {
        false
    }

    open spec fn from_spec(value: Message) -> Messages {
        arbitrary()
    }
}

} // verus!
