//! The wire values of the OpenAI chat service.

use crate::models::base::structs::Metadata;
use crate::models::chat::structs::{
    example_messages, plain_messages, role_named, session_messages, Candidate, ChatMessage,
    ChatModelResponse, ChatPromptResponse, ChatSession, Role, WireMessage,
};
use vstd::prelude::*;

verus! {

/// Where a completion is to stop.
#[derive(Debug)]
pub enum StopToken {
    String(String),
    Array(Vec<String>),
}

/// A message as the service sends and receives it.
#[derive(Debug)]
pub struct OpenAIChatMessage {
    pub role: String,
    pub content: String,
}

/// The service's count of tokens.
#[derive(Clone, Copy, Debug, PartialEq, Eq, Structural)]
pub struct Usage {
    pub prompt_tokens: u32,
    pub completion_tokens: u32,
    pub total_tokens: u32,
}

impl Usage {
    /// The token counts in the client's own terms.
    pub fn metadata(&self) -> (metadata: Metadata)
        ensures
            metadata == Metadata::from_usage(self.prompt_tokens, self.completion_tokens),
    {
        Metadata::of_usage(self.prompt_tokens, self.completion_tokens)
    }
}

/// Why a completion ended.
#[derive(Clone, Copy, Debug, PartialEq, Eq, Structural)]
pub enum FinishReason {
    StopSequenceReached,
    TokenLimitReached,
    ContentFilterFlagged,
}

impl FinishReason {
    /// The reason's name on the wire.
    pub open spec fn name(&self) -> Seq<char> {
        match self {
            FinishReason::StopSequenceReached => "stop"@,
            FinishReason::TokenLimitReached => "length"@,
            FinishReason::ContentFilterFlagged => "content_filter"@,
        }
    }

    /// The reason's name on the wire.
    pub fn as_str(&self) -> (name: &'static str)
        ensures
            name@ == self.name(),
    {
        match self {
            FinishReason::StopSequenceReached => "stop",
            FinishReason::TokenLimitReached => "length",
            FinishReason::ContentFilterFlagged => "content_filter",
        }
    }
}

/// One of the completions that the service offers.
#[derive(Debug)]
pub struct OpenAIChatCompletionChoice {
    pub index: u32,
    pub message: OpenAIChatMessage,
    pub finish_reason: Option<FinishReason>,
}

/// The service's reply to a chat request.
#[derive(Debug)]
pub struct OpenAIChatCompletionResponse {
    pub id: String,
    pub object: String,
    pub created: u32,
    pub model: String,
    pub choices: Vec<OpenAIChatCompletionChoice>,
    pub usage: Usage,
}

/// A message with its author's role and, where given, the author's name.
#[derive(Debug)]
pub struct OpenaiAIChatMessage {
    pub role: Role,
    pub content: String,
    pub name: Option<String>,
}

impl OpenAIChatMessage {
    /// The message as it goes over the wire.
    pub open spec fn wire(&self) -> WireMessage {
        WireMessage { role: self.role@, content: self.content@ }
    }
}

/// Messages of the service as they go over the wire, in order.
pub open spec fn wire_messages(messages: Seq<OpenAIChatMessage>) -> Seq<WireMessage> {
    Seq::new(messages.len(), |i: int| messages[i].wire())
}

fn wire_message(role: &str, content: &String) -> (message: OpenAIChatMessage)
    ensures
        message.wire() == (WireMessage { role: role@, content: content@ }),
{
    OpenAIChatMessage { role: String::from_str(role), content: content.clone() }
}

/// The messages of a chat request: for each session in turn, every example
/// as a message of the user and one of the assistant, then every message
/// under its author's name.
pub fn chat_messages(prompts: &Vec<ChatSession>) -> (messages: Vec<OpenAIChatMessage>)
    ensures
        wire_messages(messages@) == session_messages(prompts@),
{
    let mut messages: Vec<OpenAIChatMessage> = Vec::new();
    let mut p: usize = 0;
    assert(wire_messages(messages@) =~= session_messages(prompts@.subrange(0, 0)));
    while p < prompts.len()
        invariant
            p <= prompts.len(),
            wire_messages(messages@) == session_messages(prompts@.subrange(0, p as int)),
        decreases prompts.len() - p,
    {
        let prompt = &prompts[p];
        let ghost before = session_messages(prompts@.subrange(0, p as int));
        let mut e: usize = 0;
        assert(wire_messages(messages@) =~= before + example_messages(prompt.examples@.subrange(0, 0)));
        while e < prompt.examples.len()
            invariant
                e <= prompt.examples.len(),
                wire_messages(messages@) == before + example_messages(prompt.examples@.subrange(0, e as int)),
            decreases prompt.examples.len() - e,
        {
            let example = &prompt.examples[e];
            let ghost sofar = prompt.examples@.subrange(0, e as int);
            let ghost next = prompt.examples@.subrange(0, e + 1);
            let ghost earlier = messages@;
            messages.push(wire_message(Role::User.as_str(), &example.input.content));
            messages.push(wire_message(Role::Assistant.as_str(), &example.output.content));
            e += 1;
            proof {
                assert(next.drop_last() =~= sofar);
                assert(next.last() == *example);
                assert(example_messages(next) == example_messages(sofar) + example.wire());
                assert(wire_messages(messages@) =~= wire_messages(earlier) + example.wire());
                assert(wire_messages(messages@) =~= before + example_messages(next));
            }
        }
        assert(prompt.examples@.subrange(0, e as int) =~= prompt.examples@);
        let ghost with_examples = before + example_messages(prompt.examples@);
        let mut m: usize = 0;
        assert(wire_messages(messages@) =~= with_examples + plain_messages(prompt.messages@.subrange(0, 0)));
        while m < prompt.messages.len()
            invariant
                m <= prompt.messages.len(),
                wire_messages(messages@) == with_examples + plain_messages(prompt.messages@.subrange(0, m as int)),
            decreases prompt.messages.len() - m,
        {
            let message = &prompt.messages[m];
            let ghost sofar = prompt.messages@.subrange(0, m as int);
            let ghost next = prompt.messages@.subrange(0, m + 1);
            let ghost earlier = messages@;
            messages.push(wire_message(message.author.as_str(), &message.content));
            m += 1;
            proof {
                assert(next.drop_last() =~= sofar);
                assert(next.last() == *message);
                assert(plain_messages(next) == plain_messages(sofar).push(message.wire()));
                assert(wire_messages(messages@) =~= wire_messages(earlier).push(message.wire()));
                assert(wire_messages(messages@) =~= with_examples + plain_messages(next));
            }
        }
        assert(prompt.messages@.subrange(0, m as int) =~= prompt.messages@);
        p += 1;
        proof {
            let done = prompts@.subrange(0, p as int);
            assert(done.drop_last() =~= prompts@.subrange(0, p - 1));
            assert(done.last() == *prompt);
        }
    }
    assert(prompts@.subrange(0, p as int) =~= prompts@);
    messages
}

/// The answer that one of the service's choices stands for: one candidate
/// with the choice's content, under the role that the choice names.
pub open spec fn is_answer_to(response: ChatPromptResponse, choice: OpenAIChatCompletionChoice) -> bool {
    &&& response.candidates@.len() == 1
    &&& response.candidates@[0].message.content@ == choice.message.content@
    &&& response.candidates@[0].message.author == role_named(choice.message.role@)
}

/// The service's reply in the client's own terms: one answer for each
/// choice, in order, and the token counts of the usage.
pub fn openai_response_to_chat_model_response(openai_res: OpenAIChatCompletionResponse) -> (r: ChatModelResponse)
    ensures
        r.metadata == Some(Metadata::from_usage(openai_res.usage.prompt_tokens, openai_res.usage.completion_tokens)),
        r.responses@.len() == openai_res.choices@.len(),
        forall|i: int|
            0 <= i < r.responses@.len() ==> is_answer_to(#[trigger] r.responses@[i], openai_res.choices@[i]),
{
    let mut responses: Vec<ChatPromptResponse> = Vec::new();
    let mut i: usize = 0;
    while i < openai_res.choices.len()
        invariant
            i <= openai_res.choices.len(),
            responses@.len() == i,
            forall|k: int| 0 <= k < i ==> is_answer_to(#[trigger] responses@[k], openai_res.choices@[k]),
        decreases openai_res.choices.len() - i,
    {
        let choice = &openai_res.choices[i];
        let message = ChatMessage {
            content: choice.message.content.clone(),
            author: Role::from_name(choice.message.role.as_str()),
        };
        let mut candidates: Vec<Candidate> = Vec::new();
        candidates.push(Candidate { message });
        responses.push(ChatPromptResponse { candidates });
        i += 1;
    }
    ChatModelResponse { metadata: Some(openai_res.usage.metadata()), responses }
}

} // verus!
