//! The values of a chat: who speaks, what is said, and a session of it.

use crate::encoding::str_equal;
use crate::models::base::structs::Metadata;
use vstd::prelude::*;

verus! {

/// Who wrote a message.
#[derive(Clone, Copy, Debug, PartialEq, Eq, Structural)]
pub enum Role {
    System,
    User,
    Assistant,
}

impl Role {
    /// The role's name on the wire.
    pub open spec fn name(&self) -> Seq<char> {
        match self {
            Role::System => "system"@,
            Role::User => "user"@,
            Role::Assistant => "assistant"@,
        }
    }

    /// The role's name on the wire.
    pub fn as_str(&self) -> (name: &'static str)
        ensures
            name@ == self.name(),
    {
        match self {
            Role::System => "system",
            Role::User => "user",
            Role::Assistant => "assistant",
        }
    }
}

/// One message of a chat.
#[derive(Debug)]
pub struct ChatMessage {
    pub content: String,
    pub author: Role,
}

/// An example exchange: what was asked and what should be answered.
#[derive(Debug)]
pub struct ChatExample {
    pub input: ChatMessage,
    pub output: ChatMessage,
}

/// A chat: its context, its examples and the messages so far.
#[derive(Debug)]
pub struct ChatSession {
    pub context: String,
    pub examples: Vec<ChatExample>,
    pub messages: Vec<ChatMessage>,
}

impl ChatSession {
    /// The number of messages that the session puts before a model: two
    /// for each example and one for each message.
    pub open spec fn message_count(&self) -> nat {
        2 * self.examples@.len() + self.messages@.len()
    }
}

/// Mathematical value of a message as it goes over the wire: the author's
/// name and the content.
pub struct WireMessage {
    pub role: Seq<char>,
    pub content: Seq<char>,
}

impl ChatMessage {
    /// The message as it goes over the wire.
    pub open spec fn wire(&self) -> WireMessage {
        WireMessage { role: self.author.name(), content: self.content@ }
    }
}

impl ChatExample {
    /// The two messages that an example stands for: the input from the
    /// user, then the output from the assistant.
    pub open spec fn wire(&self) -> Seq<WireMessage> {
        seq![
            WireMessage { role: Role::User.name(), content: self.input.content@ },
            WireMessage { role: Role::Assistant.name(), content: self.output.content@ },
        ]
    }
}

/// The messages that examples stand for, in order.
pub open spec fn example_messages(examples: Seq<ChatExample>) -> Seq<WireMessage>
    decreases examples.len(),
{
    if examples.len() == 0 {
        Seq::empty()
    } else {
        example_messages(examples.drop_last()) + examples.last().wire()
    }
}

/// Messages as they go over the wire, in order.
pub open spec fn plain_messages(messages: Seq<ChatMessage>) -> Seq<WireMessage>
    decreases messages.len(),
{
    if messages.len() == 0 {
        Seq::empty()
    } else {
        plain_messages(messages.drop_last()).push(messages.last().wire())
    }
}

/// The messages that sessions put before a model: for each session in
/// turn, its examples and then its messages.
pub open spec fn session_messages(sessions: Seq<ChatSession>) -> Seq<WireMessage>
    decreases sessions.len(),
{
    if sessions.len() == 0 {
        Seq::empty()
    } else {
        session_messages(sessions.drop_last()) + example_messages(sessions.last().examples@) + plain_messages(
            sessions.last().messages@,
        )
    }
}

/// The role that a name on the wire stands for; a name that is neither
/// `system` nor `user` is the assistant's.
pub open spec fn role_named(name: Seq<char>) -> Role {
    if name == Role::System.name() {
        Role::System
    } else if name == Role::User.name() {
        Role::User
    } else {
        Role::Assistant
    }
}

impl Role {
    /// The role that a name on the wire stands for.
    pub fn from_name(name: &str) -> (role: Role)
        ensures
            role == role_named(name@),
    {
        if str_equal(name, "system") {
            Role::System
        } else if str_equal(name, "user") {
            Role::User
        } else {
            Role::Assistant
        }
    }
}

/// One answer that a model offers.
#[derive(Debug)]
pub struct Candidate {
    pub message: ChatMessage,
}

/// The answers to one session.
#[derive(Debug)]
pub struct ChatPromptResponse {
    pub candidates: Vec<Candidate>,
}

/// A model's reply to a chat request.
#[derive(Debug)]
pub struct ChatModelResponse {
    pub metadata: Option<Metadata>,
    pub responses: Vec<ChatPromptResponse>,
}

} // verus!
