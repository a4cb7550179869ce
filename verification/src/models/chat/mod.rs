//! Chat models.

pub mod impls;
pub mod structs;

use vstd::prelude::*;

verus! {

/// The chat models, by the service that hosts them.
#[derive(Clone, Copy, Debug, PartialEq, Eq, Structural)]
pub enum ChatModels {
    ChatBison,
    Gpt35Turbo,
    Gpt4,
    Llama2_70bChat,
    Llama2_13bChat,
    Codellama34bInstruct,
    Mistral7bInstruct,
}

impl ChatModels {
    /// The name that the hosting service knows the model by.
    pub open spec fn name(&self) -> Seq<char> {
        match self {
            ChatModels::ChatBison => "chat-bison"@,
            ChatModels::Gpt35Turbo => "gpt-3.5-turbo"@,
            ChatModels::Gpt4 => "gpt-4"@,
            ChatModels::Llama2_70bChat => "llama-2-70b-chat"@,
            ChatModels::Llama2_13bChat => "llama-2-13b-chat"@,
            ChatModels::Codellama34bInstruct => "codellama-34b-instruct"@,
            ChatModels::Mistral7bInstruct => "mistral-7b-instruct"@,
        }
    }

    /// The path prefix of the service that hosts the model.
    pub open spec fn host(&self) -> Seq<char> {
        match self {
            ChatModels::ChatBison => "replit"@,
            ChatModels::Gpt35Turbo => "openai"@,
            ChatModels::Gpt4 => "openai"@,
            _ => "perplexity"@,
        }
    }

    /// The path below the server's address that chat requests to the model
    /// go to, streamed or not.
    pub open spec fn path(&self, stream: bool) -> Seq<char> {
        match self {
            ChatModels::ChatBison => if stream {
                "/v1beta/chat_streaming"@
            } else {
                "/v1beta/chat"@
            },
            ChatModels::Gpt35Turbo => "/openai/v1/chat/completions"@,
            ChatModels::Gpt4 => "/openai/v1/chat/completions"@,
            _ => "/perplexity/chat/completions"@,
        }
    }

    /// The path below the server's address that chat requests to the model
    /// go to.
    pub fn endpoint(&self, stream: bool) -> (path: &'static str)
        ensures
            path@ == self.path(stream),
    {
        match self {
            ChatModels::ChatBison => if stream {
                "/v1beta/chat_streaming"
            } else {
                "/v1beta/chat"
            },
            ChatModels::Gpt35Turbo => "/openai/v1/chat/completions",
            ChatModels::Gpt4 => "/openai/v1/chat/completions",
            ChatModels::Llama2_70bChat => "/perplexity/chat/completions",
            ChatModels::Llama2_13bChat => "/perplexity/chat/completions",
            ChatModels::Codellama34bInstruct => "/perplexity/chat/completions",
            ChatModels::Mistral7bInstruct => "/perplexity/chat/completions",
        }
    }

    /// The name that the hosting service knows the model by.
    pub fn as_str(&self) -> (name: &'static str)
        ensures
            name@ == self.name(),
    {
        match self {
            ChatModels::ChatBison => "chat-bison",
            ChatModels::Gpt35Turbo => "gpt-3.5-turbo",
            ChatModels::Gpt4 => "gpt-4",
            ChatModels::Llama2_70bChat => "llama-2-70b-chat",
            ChatModels::Llama2_13bChat => "llama-2-13b-chat",
            ChatModels::Codellama34bInstruct => "codellama-34b-instruct",
            ChatModels::Mistral7bInstruct => "mistral-7b-instruct",
        }
    }

    /// The path prefix of the service that hosts the model.
    pub fn uri_prefix(&self) -> (prefix: &'static str)
        ensures
            prefix@ == self.host(),
    {
        match self {
            ChatModels::ChatBison => "replit",
            ChatModels::Gpt35Turbo => "openai",
            ChatModels::Gpt4 => "openai",
            ChatModels::Llama2_70bChat => "perplexity",
            ChatModels::Llama2_13bChat => "perplexity",
            ChatModels::Codellama34bInstruct => "perplexity",
            ChatModels::Mistral7bInstruct => "perplexity",
        }
    }
}

} // verus!
