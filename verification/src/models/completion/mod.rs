//! Completion models.

use vstd::prelude::*;

verus! {

/// The completion models.
#[derive(Clone, Copy, Debug, PartialEq, Eq, Structural)]
pub enum CompletionModels {
    TextBison,
    Gpt35Turbo,
    Gpt4,
}

impl CompletionModels {
    /// The name that the hosting service knows the model by.
    pub open spec fn name(&self) -> Seq<char> {
        match self {
            CompletionModels::TextBison => "text-bison"@,
            CompletionModels::Gpt35Turbo => "gpt-3.5-turbo"@,
            CompletionModels::Gpt4 => "gpt-4"@,
        }
    }

    /// The path below the server's address that completion requests to the
    /// model go to: streamed requests all go to the platform's own path.
    pub open spec fn path(&self, stream: bool) -> Seq<char> {
        if stream || *self == CompletionModels::TextBison {
            "/v1beta/completion"@
        } else {
            "/openai/v1/completion"@
        }
    }

    /// The path below the server's address that completion requests to the
    /// model go to.
    pub fn endpoint(&self, stream: bool) -> (path: &'static str)
        ensures
            path@ == self.path(stream),
    {
        if stream {
            return "/v1beta/completion";
        }
        match self {
            CompletionModels::TextBison => "/v1beta/completion",
            CompletionModels::Gpt35Turbo => "/openai/v1/completion",
            CompletionModels::Gpt4 => "/openai/v1/completion",
        }
    }

    /// The name that the hosting service knows the model by.
    pub fn as_str(&self) -> (name: &'static str)
        ensures
            name@ == self.name(),
    {
        match self {
            CompletionModels::TextBison => "text-bison",
            CompletionModels::Gpt35Turbo => "gpt-3.5-turbo",
            CompletionModels::Gpt4 => "gpt-4",
        }
    }
}

} // verus!
