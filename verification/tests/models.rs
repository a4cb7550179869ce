use bullpen::config::{get_config, Config, LightningBackend};
use bullpen::models::base::structs::{Metadata, TokenCountMetadata};
use bullpen::models::chat::impls::openai_chat_model::{
    chat_messages, openai_response_to_chat_model_response, FinishReason, OpenAIChatCompletionChoice,
    OpenAIChatCompletionResponse, OpenAIChatMessage, Usage,
};
use bullpen::models::chat::impls::perplexity_chat_model as perplexity;
use bullpen::models::base::model::{
    authorization_value, check_response, check_streaming_response, Access, ModelSettings, ResponseError,
};
use bullpen::models::chat::structs::{ChatExample, ChatMessage, ChatSession};
use bullpen::models::chat::structs::Role;
use bullpen::models::chat::ChatModels;
use bullpen::models::completion::CompletionModels;
use bullpen::models::embedding::structs::EmbeddingMetadata;
use bullpen::models::embedding::EmbeddingModels;
use bullpen::token_manager::{
    L402TokenManager, ReplitIdentityTokenManager, ReplitTokenManagerResponse, TokenManager,
};

#[test]
fn chat_model_names_and_hosts() {
    assert_eq!(ChatModels::ChatBison.as_str(), "chat-bison");
    assert_eq!(ChatModels::Gpt35Turbo.as_str(), "gpt-3.5-turbo");
    assert_eq!(ChatModels::Gpt4.as_str(), "gpt-4");
    assert_eq!(ChatModels::Llama2_70bChat.as_str(), "llama-2-70b-chat");
    assert_eq!(ChatModels::Llama2_13bChat.as_str(), "llama-2-13b-chat");
    assert_eq!(ChatModels::Codellama34bInstruct.as_str(), "codellama-34b-instruct");
    assert_eq!(ChatModels::Mistral7bInstruct.as_str(), "mistral-7b-instruct");
    assert_eq!(ChatModels::ChatBison.uri_prefix(), "replit");
    assert_eq!(ChatModels::Gpt35Turbo.uri_prefix(), "openai");
    assert_eq!(ChatModels::Gpt4.uri_prefix(), "openai");
    assert_eq!(ChatModels::Llama2_70bChat.uri_prefix(), "perplexity");
    assert_eq!(ChatModels::Llama2_13bChat.uri_prefix(), "perplexity");
    assert_eq!(ChatModels::Codellama34bInstruct.uri_prefix(), "perplexity");
    assert_eq!(ChatModels::Mistral7bInstruct.uri_prefix(), "perplexity");
}

#[test]
fn other_model_names() {
    assert_eq!(CompletionModels::TextBison.as_str(), "text-bison");
    assert_eq!(CompletionModels::Gpt35Turbo.as_str(), "gpt-3.5-turbo");
    assert_eq!(CompletionModels::Gpt4.as_str(), "gpt-4");
    assert_eq!(EmbeddingModels::TextEmbeddingGecko.as_str(), "textembedding-gecko");
    assert_eq!(Role::System.as_str(), "system");
    assert_eq!(Role::User.as_str(), "user");
    assert_eq!(Role::Assistant.as_str(), "assistant");
    assert_eq!(FinishReason::StopSequenceReached.as_str(), "stop");
    assert_eq!(FinishReason::TokenLimitReached.as_str(), "length");
    assert_eq!(FinishReason::ContentFilterFlagged.as_str(), "content_filter");
}

#[test]
fn token_counts() {
    assert_eq!(
        TokenCountMetadata::default(),
        TokenCountMetadata { billable_tokens: 0, unbilled_tokens: 0, billable_characters: 0, unbilled_characters: 0 }
    );
    assert_eq!(TokenCountMetadata::of_tokens(7).billable_tokens, 7);
    assert_eq!(TokenCountMetadata::of_tokens(2147483647).billable_tokens, i32::MAX);
    assert_eq!(TokenCountMetadata::of_tokens(2147483648).billable_tokens, i32::MIN);
    assert_eq!(TokenCountMetadata::of_tokens(u32::MAX).billable_tokens, -1);
    let metadata = Usage { prompt_tokens: 3, completion_tokens: 4, total_tokens: 7 }.metadata();
    assert_eq!(metadata, Metadata::of_usage(3, 4));
    assert_eq!(metadata.input_token_count.unwrap().billable_tokens, 3);
    assert_eq!(metadata.output_token_count.unwrap().billable_tokens, 4);
    assert_eq!(metadata.output_token_count.unwrap().unbilled_characters, 0);
    assert_eq!(Metadata::default(), Metadata { input_token_count: None, output_token_count: None });
    assert_eq!(EmbeddingMetadata::default().token_count_metadata, None);
}

#[test]
fn stock_configuration() {
    let config = get_config();
    assert_eq!(config.root_url, "https://production-modelfarm.replit.com");
    assert_eq!(config.matador_url, "https://matador-replit.kody.repl.co/replit");
    assert_eq!(config.audience, "modelfarm@replit.com");
    assert_eq!(config.lightning_backend, LightningBackend::Alby);
    assert_eq!(Config::new().root_url, config.root_url);
    assert_eq!(LightningBackend::default(), LightningBackend::Alby);
    assert_eq!(LightningBackend::Alby.endpoint(), "https://api.getalby.com/payments/bolt11");
    assert_eq!(LightningBackend::Alby.name(), "alby");
}

#[test]
fn token_managers() {
    let l402 = L402TokenManager { token: "t".to_string() };
    assert_eq!(l402.get_token(), "t");
    assert_eq!(l402.get_token_type(), "L402");
    let replit = ReplitIdentityTokenManager::from_response(ReplitTokenManagerResponse {
        token: "id".to_string(),
        timeout: 60,
    });
    assert_eq!(replit.get_token(), "id");
    assert_eq!(replit.get_token_type(), "Bearer");
}

fn message(author: Role, content: &str) -> ChatMessage {
    ChatMessage { content: content.to_string(), author }
}

#[test]
fn sessions_become_wire_messages_in_order() {
    let sessions = vec![
        ChatSession {
            context: "ctx".to_string(),
            examples: vec![
                ChatExample { input: message(Role::System, "1 + 1"), output: message(Role::System, "2") },
                ChatExample { input: message(Role::User, "2 + 2"), output: message(Role::Assistant, "4") },
            ],
            messages: vec![message(Role::System, "be brief"), message(Role::User, "3 + 3")],
        },
        ChatSession { context: String::new(), examples: vec![], messages: vec![message(Role::Assistant, "6")] },
    ];
    let wire: Vec<(String, String)> = chat_messages(&sessions).into_iter().map(|m| (m.role, m.content)).collect();
    let expected: Vec<(String, String)> = [
        ("user", "1 + 1"),
        ("assistant", "2"),
        ("user", "2 + 2"),
        ("assistant", "4"),
        ("system", "be brief"),
        ("user", "3 + 3"),
        ("assistant", "6"),
    ]
    .iter()
    .map(|(r, c)| (r.to_string(), c.to_string()))
    .collect();
    assert_eq!(wire, expected);
    assert!(chat_messages(&vec![]).is_empty());
    assert_eq!(perplexity::chat_messages(&sessions).len(), 7);
}

#[test]
fn service_reply_becomes_one_answer_per_choice() {
    let choice = |index: u32, role: &str, content: &str| OpenAIChatCompletionChoice {
        index,
        message: OpenAIChatMessage { role: role.to_string(), content: content.to_string() },
        finish_reason: Some(FinishReason::StopSequenceReached),
    };
    let reply = OpenAIChatCompletionResponse {
        id: "id".to_string(),
        object: "chat.completion".to_string(),
        created: 1,
        model: "gpt-4".to_string(),
        choices: vec![choice(0, "assistant", "hello"), choice(1, "user", "hi"), choice(2, "tool", "x")],
        usage: Usage { prompt_tokens: 11, completion_tokens: 22, total_tokens: 33 },
    };
    let response = openai_response_to_chat_model_response(reply);
    assert_eq!(response.metadata, Some(Metadata::of_usage(11, 22)));
    assert_eq!(response.responses.len(), 3);
    for answers in &response.responses {
        assert_eq!(answers.candidates.len(), 1);
    }
    assert_eq!(response.responses[0].candidates[0].message.content, "hello");
    assert_eq!(response.responses[0].candidates[0].message.author, Role::Assistant);
    assert_eq!(response.responses[1].candidates[0].message.content, "hi");
    assert_eq!(response.responses[1].candidates[0].message.author, Role::User);
    assert_eq!(response.responses[2].candidates[0].message.author, Role::Assistant);
    assert_eq!(Role::from_name("system"), Role::System);
    let empty = perplexity::perplexity_response_to_chat_model_response(perplexity::PerplexityChatCompletionResponse {
        id: String::new(),
        object: String::new(),
        created: 0,
        model: String::new(),
        choices: vec![],
        usage: perplexity::Usage { prompt_tokens: 0, completion_tokens: 0, total_tokens: 0 },
    });
    assert!(empty.responses.is_empty());
    assert_eq!(empty.metadata, Some(Metadata::of_usage(0, 0)));
}

#[test]
fn replies_are_judged_by_status() {
    assert_eq!(check_response(200), Ok(()));
    assert_eq!(check_response(400), Err(ResponseError::InvalidRequest));
    assert_eq!(check_response(201), Err(ResponseError::InvalidResponse));
    assert_eq!(check_response(402), Err(ResponseError::InvalidResponse));
    assert_eq!(check_response(500), Err(ResponseError::InvalidResponse));
    assert_eq!(check_streaming_response(200), Ok(()));
    assert_eq!(check_streaming_response(400), Err(ResponseError::InvalidRequest));
    assert_eq!(check_streaming_response(404), Err(ResponseError::InvalidResponse));
}

#[test]
fn model_settings_follow_the_platform() {
    let config = get_config();
    let on = ModelSettings::select(true, None, &config);
    assert_eq!(on.access, Access::Identity);
    assert_eq!(on.server_url, "https://production-modelfarm.replit.com");
    let off = ModelSettings::select(false, None, &config);
    assert_eq!(off.access, Access::Paid);
    assert_eq!(off.server_url, "https://matador-replit.kody.repl.co/replit");
    let given = ModelSettings::select(false, Some("http://localhost"), &config);
    assert_eq!(given.access, Access::Paid);
    assert_eq!(given.server_url, "http://localhost");
    assert_eq!(ModelSettings::select(true, Some("http://x"), &config).server_url, "http://x");
    assert_eq!(authorization_value("Bearer", "abc"), "Bearer abc");
    assert_eq!(authorization_value("L402", ""), "L402 ");
}

#[test]
fn model_endpoints() {
    assert_eq!(ChatModels::ChatBison.endpoint(false), "/v1beta/chat");
    assert_eq!(ChatModels::ChatBison.endpoint(true), "/v1beta/chat_streaming");
    assert_eq!(ChatModels::Gpt35Turbo.endpoint(false), "/openai/v1/chat/completions");
    assert_eq!(ChatModels::Gpt4.endpoint(true), "/openai/v1/chat/completions");
    for model in [
        ChatModels::Llama2_70bChat,
        ChatModels::Llama2_13bChat,
        ChatModels::Codellama34bInstruct,
        ChatModels::Mistral7bInstruct,
    ] {
        assert_eq!(model.endpoint(false), "/perplexity/chat/completions");
        assert_eq!(model.endpoint(true), "/perplexity/chat/completions");
    }
    assert_eq!(CompletionModels::TextBison.endpoint(false), "/v1beta/completion");
    assert_eq!(CompletionModels::TextBison.endpoint(true), "/v1beta/completion");
    assert_eq!(CompletionModels::Gpt35Turbo.endpoint(false), "/openai/v1/completion");
    assert_eq!(CompletionModels::Gpt4.endpoint(false), "/openai/v1/completion");
    assert_eq!(CompletionModels::Gpt4.endpoint(true), "/v1beta/completion");
    assert_eq!(EmbeddingModels::TextEmbeddingGecko.endpoint(), "/v1beta/embedding");
}
