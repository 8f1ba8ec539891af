use vstd::prelude::*;
use vstd::string::*;

verus! {

/// A role as a mathematical value.
pub enum RoleView {
    System,
    User,
    Assistant,
    Tool,
    Unknown(Seq<char>),
}

/// A message as a mathematical value.
pub struct MessageView {
    pub role: RoleView,
    pub content: Seq<char>,
    pub call_id: Option<Seq<char>>,
}

/// The characters of a string once every letter is lower case.
pub uninterp spec fn lower_of(s: Seq<char>) -> Seq<char>;

/// Relies on `str::to_lowercase`: its result depends on the characters alone.
#[verifier::external_body]
fn lowercase(s: &str) -> (r: String)
    ensures
        r@ == lower_of(s@),
{
    s.to_lowercase()
}

/// The role that a role name stands for, given the name as written and its
/// lower-case form: an unrecognised name is kept as written.
pub open spec fn role_of_name(name: Seq<char>, lower: Seq<char>) -> RoleView {
    if lower == "system"@ {
        RoleView::System
    } else if lower == "user"@ {
        RoleView::User
    } else if lower == "assistant"@ {
        RoleView::Assistant
    } else if lower == "tool"@ {
        RoleView::Tool
    } else {
        RoleView::Unknown(name)
    }
}

/// The name written for a role.
pub open spec fn name_of_role(r: RoleView) -> Seq<char> {
    match r {
        RoleView::System => "system"@,
        RoleView::User => "user"@,
        RoleView::Assistant => "assistant"@,
        RoleView::Tool => "tool"@,
        RoleView::Unknown(s) => s,
    }
}

/// Who authored a message in a conversation.
#[derive(Clone, Debug)]
pub enum MessageType {
    SYSTEM,
    User,
    Assistant,
    TOOL,
    /// A role name that no other variant stands for, kept as it was given.
    Unknown(String),
}

impl View for MessageType {
    type V = RoleView;

    open spec fn view(&self) -> RoleView {
        match self {
            MessageType::SYSTEM => RoleView::System,
            MessageType::User => RoleView::User,
            MessageType::Assistant => RoleView::Assistant,
            MessageType::TOOL => RoleView::Tool,
            MessageType::Unknown(s) => RoleView::Unknown(s@),
        }
    }
}

impl MessageType {
    /// The role for a name, compared without regard to case; a name that no
    /// other variant stands for is kept as it was given.
    pub fn from_name(name: &str) -> (r: MessageType)
        ensures
            r@ == role_of_name(name@, lower_of(name@)),
    {
        let lower = lowercase(name);
        if lower == "system".to_owned() {
            MessageType::SYSTEM
        } else if lower == "user".to_owned() {
            MessageType::User
        } else if lower == "assistant".to_owned() {
            MessageType::Assistant
        } else if lower == "tool".to_owned() {
            MessageType::TOOL
        } else {
            MessageType::Unknown(name.to_owned())
        }
    }

    /// The name written for this role.
    pub fn name(&self) -> (r: String)
        ensures
            r@ == name_of_role(self@),
    {
        match self {
            MessageType::SYSTEM => "system".to_owned(),
            MessageType::User => "user".to_owned(),
            MessageType::Assistant => "assistant".to_owned(),
            MessageType::TOOL => "tool".to_owned(),
            MessageType::Unknown(s) => s.clone(),
        }
    }

    /// A copy of this role.
    pub fn duplicate(&self) -> (r: MessageType)
        ensures
            r@ == self@,
    {
        match self {
            MessageType::SYSTEM => MessageType::SYSTEM,
            MessageType::User => MessageType::User,
            MessageType::Assistant => MessageType::Assistant,
            MessageType::TOOL => MessageType::TOOL,
            MessageType::Unknown(s) => MessageType::Unknown(s.clone()),
        }
    }
}

impl Default for MessageType {
    fn default() -> (r: MessageType)
        ensures
            r@ == RoleView::User,
    {
        MessageType::User
    }
}

/// One entry of a conversation.
#[derive(Clone, Debug)]
pub struct Message {
    pub role: MessageType,
    pub content: String,
    pub call_id: Option<String>,
}

pub open spec fn opt_string_view(o: Option<String>) -> Option<Seq<char>> {
    match o {
        Some(s) => Some(s@),
        None => None,
    }
}

impl View for Message {
    type V = MessageView;

    open spec fn view(&self) -> MessageView {
        MessageView { role: self.role@, content: self.content@, call_id: opt_string_view(self.call_id) }
    }
}

/// A message with the given role and content and no call id.
pub open spec fn message_of(role: RoleView, content: Seq<char>) -> MessageView {
    MessageView { role, content, call_id: None }
}

/// The views of a sequence of messages.
pub open spec fn messages_view(s: Seq<Message>) -> Seq<MessageView> {
    s.map_values(|m: Message| m@)
}

impl Message {
    pub fn new(role: MessageType, content: String) -> (r: Message)
        ensures
            r@ == message_of(role@, content@),
    {
        Message { role, content, call_id: None }
    }

    pub fn new_system(content: String) -> (r: Message)
        ensures
            r@ == message_of(RoleView::System, content@),
    {
        Message::new(MessageType::SYSTEM, content)
    }

    pub fn new_user(content: String) -> (r: Message)
        ensures
            r@ == message_of(RoleView::User, content@),
    {
        Message::new(MessageType::User, content)
    }

    pub fn new_assistant(content: String) -> (r: Message)
        ensures
            r@ == message_of(RoleView::Assistant, content@),
    {
        Message::new(MessageType::Assistant, content)
    }

    /// An empty content marks the end of a stream.
    pub fn is_over(&self) -> (r: bool)
        ensures
            r == (self.content@.len() == 0),
    {
        self.content.as_str().is_empty()
    }

    /// A copy of this message.
    pub fn duplicate(&self) -> (r: Message)
        ensures
            r@ == self@,
    {
        let call_id = match &self.call_id {
            Some(c) => Some(c.clone()),
            None => None,
        };
        Message { role: self.role.duplicate(), content: self.content.clone(), call_id }
    }
}

impl Default for Message {
    /// The end-of-stream marker: an empty user message.
    fn default() -> (r: Message)
        ensures
            r@ == message_of(RoleView::User, Seq::empty()),
    {
        Message { role: MessageType::User, content: String::new(), call_id: None }
    }
}

/// A conversation written out by hand, one message after another.
#[derive(Clone, Debug)]
pub struct ChatHistory {
    list: Vec<Message>,
}

impl View for ChatHistory {
    type V = Seq<MessageView>;

    closed spec fn view(&self) -> Seq<MessageView> {
        messages_view(self.list@)
    }
}

impl Default for ChatHistory {
    /// An empty conversation.
    fn default() -> (r: ChatHistory)
        ensures
            r@ == Seq::<MessageView>::empty(),
    {
        let r = ChatHistory { list: Vec::new() };
        assert(r@ =~= Seq::<MessageView>::empty());
        r
    }
}

impl ChatHistory {
    /// A conversation that starts with a system message.
    pub fn system(input: &str) -> (r: ChatHistory)
        ensures
            r@ == seq![message_of(RoleView::System, input@)],
    {
        let mut list: Vec<Message> = Vec::new();
        list.push(Message::new_system(input.to_owned()));
        let r = ChatHistory { list };
        assert(r@ =~= seq![message_of(RoleView::System, input@)]);
        r
    }

    /// This conversation followed by a user message.
    pub fn user(self, input: &str) -> (r: ChatHistory)
        ensures
            r@ == self@.push(message_of(RoleView::User, input@)),
    {
        let mut list = self.list;
        list.push(Message::new_user(input.to_owned()));
        let r = ChatHistory { list };
        assert(r@ =~= self@.push(message_of(RoleView::User, input@)));
        r
    }

    /// This conversation followed by an assistant message.
    pub fn assistant(self, input: &str) -> (r: ChatHistory)
        ensures
            r@ == self@.push(message_of(RoleView::Assistant, input@)),
    {
        let mut list = self.list;
        list.push(Message::new_assistant(input.to_owned()));
        let r = ChatHistory { list };
        assert(r@ =~= self@.push(message_of(RoleView::Assistant, input@)));
        r
    }

    /// The messages, oldest first.
    pub fn into_vec(self) -> (r: Vec<Message>)
        ensures
            messages_view(r@) == self@,
    {
        self.list
    }
}

} // verus!
