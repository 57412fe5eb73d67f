use imessage_bot::ai_clients::{
    bearer, build_ollama_request, build_openai_messages, chat_provider, finish_persona_prompt,
    first_image_url, format_tool_call, image_data_url, ollama_chat_url, persona_provider,
    persona_turns, picture_description, picture_request, read_ollama_reply,
    read_ollama_reply_with, read_openai_reply, remove_occurrences, require_api_key, AiError,
    ImageData, ImageGenerationRequest, ImageGenerationResponse, OllamaChatRequest, OllamaMessage,
    OpenAIChatResponse, OpenAIChoice, OpenAIContentPart, OpenAIFunctionCall, OpenAIImageUrl,
    OpenAIMessage, OpenAIResponseMessage, OpenAIToolCall, Provider, OPENAI_CHAT_MODEL,
    PERSONA_SYSTEM_PROMPT,
};
use imessage_bot::chat_agent::parse_image_request;
use imessage_bot::types::{Message, MessageRole};

fn history() -> Vec<Message> {
    vec![
        Message { role: MessageRole::User, content: "hi".to_string(), timestamp: 1 },
        Message { role: MessageRole::Assistant, content: "hello".to_string(), timestamp: 2 },
        Message { role: MessageRole::System, content: "note".to_string(), timestamp: 3 },
    ]
}

fn text_message(role: &str, text: &str) -> OpenAIMessage {
    OpenAIMessage {
        role: role.to_string(),
        content: vec![OpenAIContentPart::Text { text: text.to_string() }],
    }
}

fn choice(content: Option<&str>, calls: Option<Vec<(&str, &str)>>) -> OpenAIChoice {
    OpenAIChoice {
        message: OpenAIResponseMessage {
            content: content.map(|c| c.to_string()),
            tool_calls: calls.map(|list| {
                list.into_iter()
                    .map(|(name, arguments)| OpenAIToolCall {
                        function: OpenAIFunctionCall {
                            name: name.to_string(),
                            arguments: arguments.to_string(),
                        },
                    })
                    .collect()
            }),
        },
    }
}

#[test]
fn hosted_request_starts_with_the_system_message() {
    let messages = build_openai_messages(&history(), "Be brief.", false, None);
    assert_eq!(
        messages,
        vec![
            text_message("system", "Be brief."),
            text_message("user", "hi"),
            text_message("assistant", "hello"),
            text_message("system", "note"),
        ]
    );
    assert_eq!(OPENAI_CHAT_MODEL, "gpt-4o");
}

#[test]
fn hosted_request_mentions_the_picture_tool_when_allowed() {
    let messages = build_openai_messages(&Vec::new(), "Be brief.", true, None);
    assert_eq!(
        messages,
        vec![text_message(
            "system",
            "Be brief. If you want to generate and send a picture or image, use the request_picture tool with a detailed description of what image you want to create."
        )]
    );
}

#[test]
fn hosted_request_ends_with_the_attached_image() {
    let messages = build_openai_messages(&history()[..1].to_vec(), "S", false, Some(b"hi".to_vec()));
    assert_eq!(messages.len(), 3);
    assert_eq!(
        messages[2],
        OpenAIMessage {
            role: "user".to_string(),
            content: vec![
                OpenAIContentPart::Text { text: "what's in this image?".to_string() },
                OpenAIContentPart::ImageUrl {
                    image_url: OpenAIImageUrl { url: "data:image/jpeg;base64,aGk=".to_string() }
                },
            ],
        }
    );
    assert_eq!(image_data_url(&vec![0xff, 0xfe, 0xfd]), "data:image/jpeg;base64,//79");
    assert_eq!(image_data_url(&Vec::new()), "data:image/jpeg;base64,");
}

#[test]
fn hosted_reply_is_the_first_alternatives_text() {
    let response = OpenAIChatResponse {
        choices: vec![choice(Some("first"), None), choice(Some("second"), None)],
    };
    assert_eq!(read_openai_reply(&response), Ok("first".to_string()));
    let response = OpenAIChatResponse { choices: vec![choice(None, None)] };
    assert_eq!(read_openai_reply(&response), Ok(String::new()));
    let response = OpenAIChatResponse { choices: vec![choice(Some("text"), Some(vec![]))] };
    assert_eq!(read_openai_reply(&response), Ok("text".to_string()));
}

#[test]
fn hosted_reply_without_alternatives_is_an_error() {
    let response = OpenAIChatResponse { choices: Vec::new() };
    assert_eq!(read_openai_reply(&response), Err(AiError::NoChoices));
    assert_eq!(AiError::NoChoices.message(), "No choices in OpenAI response");
}

#[test]
fn hosted_picture_request_becomes_the_marker() {
    let response = OpenAIChatResponse {
        choices: vec![choice(
            Some("ignored"),
            Some(vec![
                ("other_tool", "{}"),
                ("request_picture", "{\"description\":\"a cat\"}"),
                ("request_picture", "{\"description\":\"a dog\"}"),
            ]),
        )],
    };
    let reply = read_openai_reply(&response).unwrap();
    assert_eq!(reply, "[TOOL_CALL:request_picture:{\"description\":\"a cat\"}]");
    assert_eq!(parse_image_request(&reply), Some("a cat".to_string()));

    let response = OpenAIChatResponse {
        choices: vec![choice(Some("plain"), Some(vec![("other_tool", "{}")]))],
    };
    assert_eq!(read_openai_reply(&response), Ok("plain".to_string()));
    assert_eq!(format_tool_call("{}"), "[TOOL_CALL:request_picture:{}]");
}

#[test]
fn local_request_tells_how_to_ask_for_a_picture() {
    let request = build_ollama_request("llama3.2", &history()[..2].to_vec(), "Be brief.", false);
    assert_eq!(
        request,
        OllamaChatRequest {
            model: "llama3.2".to_string(),
            messages: vec![
                OllamaMessage {
                    role: "system".to_string(),
                    content: "Be brief. If you want to generate and send a picture, just say [REQUEST_PICTURE] followed by your description.".to_string(),
                },
                OllamaMessage { role: "user".to_string(), content: "hi".to_string() },
                OllamaMessage { role: "assistant".to_string(), content: "hello".to_string() },
            ],
            stream: false,
        }
    );
    let request = build_ollama_request("m", &Vec::new(), "S", true);
    assert_eq!(
        request.messages[0].content,
        "S If you want to generate and send a picture, just say [REQUEST_PICTURE] followed by your description. Note: An image was uploaded but Ollama vision support is limited."
    );
}

#[test]
fn local_picture_request_becomes_the_marker() {
    let reply = read_ollama_reply("[REQUEST_PICTURE] a \"red\" cat ".to_string());
    assert_eq!(reply, "[TOOL_CALL:request_picture:{\"description\":\"a \\\"red\\\" cat\"}]");
    assert_eq!(parse_image_request(&reply), Some("a \"red\" cat".to_string()));
    assert_eq!(read_ollama_reply("just text".to_string()), "just text");
    assert_eq!(
        read_ollama_reply("Sure! [REQUEST_PICTURE]a dog[REQUEST_PICTURE]".to_string()),
        "[TOOL_CALL:request_picture:{\"description\":\"Sure! a dog\"}]"
    );
    assert_eq!(picture_description("  [REQUEST_PICTURE]  a dog  "), "a dog");
    assert_eq!(read_ollama_reply_with("x [REQUEST_PICTURE]".to_string(), "{}"), "[TOOL_CALL:request_picture:{}]");
    assert_eq!(read_ollama_reply_with("x".to_string(), "{}"), "x");
}

#[test]
fn occurrences_are_removed_from_the_left() {
    assert_eq!(remove_occurrences("a--b--c", "--"), "abc");
    assert_eq!(remove_occurrences("aaa", "aa"), "a");
    assert_eq!(remove_occurrences("abab", "ab"), "");
    assert_eq!(remove_occurrences("aabb", "ab"), "ab");
    assert_eq!(remove_occurrences("abc", ""), "abc");
    assert_eq!(remove_occurrences("", "x"), "");
    assert_eq!(remove_occurrences("héllo ✅ wörld ✅", "✅"), "héllo  wörld ");
    assert_eq!(remove_occurrences("abc", "abcd"), "abc");
}

#[test]
fn providers_are_chosen_by_the_settings() {
    assert_eq!(chat_provider(true), Provider::Ollama);
    assert_eq!(chat_provider(false), Provider::OpenAI);
    assert_eq!(persona_provider(&Some("k".to_string())), Provider::OpenAI);
    assert_eq!(persona_provider(&None), Provider::Ollama);
}

#[test]
fn persona_request_is_one_user_turn() {
    assert_eq!(
        persona_turns("a grumpy pirate", 9),
        vec![Message {
            role: MessageRole::User,
            content: "a grumpy pirate".to_string(),
            timestamp: 9
        }]
    );
    assert!(PERSONA_SYSTEM_PROMPT.starts_with("You are a prompt engineer."));
    assert!(PERSONA_SYSTEM_PROMPT.ends_with("Return only the system prompt, nothing else."));
    assert_eq!(finish_persona_prompt("\n  You are a pirate.  \n"), "You are a pirate.");
}

#[test]
fn missing_keys_give_the_named_error() {
    assert_eq!(require_api_key(&Some("k".to_string()), AiError::MissingApiKey), Ok("k".to_string()));
    assert_eq!(require_api_key(&None, AiError::MissingApiKey), Err(AiError::MissingApiKey));
    assert_eq!(require_api_key(&None, AiError::ImageKeyRequired), Err(AiError::ImageKeyRequired));
    assert_eq!(AiError::MissingApiKey.message(), "OpenAI API key not configured");
    assert_eq!(
        AiError::ImageKeyRequired.message(),
        "OpenAI API key required for image generation"
    );
}

#[test]
fn picture_requests_ask_for_one_standard_picture() {
    assert_eq!(
        picture_request("a cat"),
        ImageGenerationRequest {
            model: "dall-e-3".to_string(),
            prompt: "a cat".to_string(),
            n: 1,
            size: "1024x1024".to_string(),
            quality: "standard".to_string(),
        }
    );
}

#[test]
fn the_first_picture_is_fetched() {
    let response = ImageGenerationResponse {
        data: vec![
            ImageData { url: "http://a".to_string() },
            ImageData { url: "http://b".to_string() },
        ],
    };
    assert_eq!(first_image_url(&response), Ok("http://a".to_string()));
    let empty = ImageGenerationResponse { data: Vec::new() };
    assert_eq!(first_image_url(&empty), Err(AiError::NoImageData));
    assert_eq!(AiError::NoImageData.message(), "No image data in response");
}

#[test]
fn headers_and_addresses() {
    assert_eq!(bearer("sk-1"), "Bearer sk-1");
    assert_eq!(ollama_chat_url("http://localhost:11434"), "http://localhost:11434/api/chat");
}
