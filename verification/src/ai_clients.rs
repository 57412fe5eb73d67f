//! The shapes of the AI providers' requests and responses, and the rules
//! that turn a conversation into a request and a response into a reply.
//!
//! Nothing here talks to a provider: requests are built, responses are
//! read, and the caller does the sending.

use crate::chat_agent::TOOL_CALL_PREFIX;
use crate::text::{
    contains_seq, contains_text, join2, join3, matches_at, occurs_at, to_chars, trim, trim_text,
    CharClass,
};
use crate::types::{role_name, turn_views, Message, MessageRole, MessageView};
use vstd::prelude::*;
use vstd::string::StringExecFns;

verus! {

/// The name of the tool through which the hosted provider asks for a
/// picture.
pub const PICTURE_TOOL: &'static str = "request_picture";

/// The marker with which the local provider asks for a picture.
pub const PICTURE_MARKER: &'static str = "[REQUEST_PICTURE]";

/// What the hosted provider is told that the picture tool does.
pub const PICTURE_TOOL_DESCRIPTION: &'static str =
    "Generate and send a picture to the chat using DALL-E";

/// What the hosted provider is told that the tool's one argument is.
pub const PICTURE_ARGUMENT_DESCRIPTION: &'static str =
    "Detailed description of the picture to generate using DALL-E";

/// The chat model of the hosted provider.
pub const OPENAI_CHAT_MODEL: &'static str = "gpt-4o";

/// The hosted provider's chat endpoint.
pub const OPENAI_CHAT_URL: &'static str = "https://api.openai.com/v1/chat/completions";

/// The hosted provider's picture endpoint.
pub const OPENAI_IMAGE_URL: &'static str = "https://api.openai.com/v1/images/generations";

/// How long a request to a provider may take, in seconds.
pub const AI_TIMEOUT_SECS: u64 = 60;

/// What the hosted provider is told about the picture tool.
pub const OPENAI_TOOL_HINT: &'static str =
    " If you want to generate and send a picture or image, use the request_picture tool with a detailed description of what image you want to create.";

/// What the local provider is told about asking for a picture.
pub const OLLAMA_PICTURE_HINT: &'static str =
    " If you want to generate and send a picture, just say [REQUEST_PICTURE] followed by your description.";

/// What the local provider is told in addition when an image came with the
/// conversation.
pub const OLLAMA_VISION_NOTE: &'static str =
    " Note: An image was uploaded but Ollama vision support is limited.";

/// The question that accompanies an image sent to the hosted provider.
pub const VISION_QUESTION: &'static str = "what's in this image?";

/// How the data URL of an attached image begins.
pub const DATA_URL_PREFIX: &'static str = "data:image/jpeg;base64,";

/// The instructions under which a persona prompt is synthesised.
pub const PERSONA_SYSTEM_PROMPT: &'static str =
    "You are a prompt engineer. Generate a detailed system prompt for an AI character based on the user's description. The prompt should:\n1. Define the character's personality, mannerisms, and speaking style\n2. Include specific behavioral traits and quirks\n3. Be detailed enough to create a consistent character persona\n4. Start with \"You are [character description]...\"\n\nKeep it concise but comprehensive. Return only the system prompt, nothing else.";

/// The content of a message to the hosted provider: plain text, or parts.
#[derive(Clone, Debug, PartialEq, Eq)]
pub enum OpenAIContent {
    Text(String),
    Vision(Vec<OpenAIContentPart>),
}

/// A message to the hosted provider.
#[derive(Clone, Debug, PartialEq, Eq)]
pub struct OpenAIMessage {
    pub role: String,
    pub content: Vec<OpenAIContentPart>,
}

/// One part of a message to the hosted provider.
#[derive(Clone, Debug, PartialEq, Eq)]
pub enum OpenAIContentPart {
    Text { text: String },
    ImageUrl { image_url: OpenAIImageUrl },
}

/// The address of an image, possibly a data URL.
#[derive(Clone, Debug, PartialEq, Eq)]
pub struct OpenAIImageUrl {
    pub url: String,
}

/// The hosted provider's answer to a chat request.
#[derive(Clone, Debug, PartialEq, Eq)]
pub struct OpenAIChatResponse {
    pub choices: Vec<OpenAIChoice>,
}

/// One alternative of the hosted provider's answer.
#[derive(Clone, Debug, PartialEq, Eq)]
pub struct OpenAIChoice {
    pub message: OpenAIResponseMessage,
}

/// The message of one alternative.
#[derive(Clone, Debug, PartialEq, Eq)]
pub struct OpenAIResponseMessage {
    pub content: Option<String>,
    pub tool_calls: Option<Vec<OpenAIToolCall>>,
}

/// A tool call requested by the hosted provider.
#[derive(Clone, Debug, PartialEq, Eq)]
pub struct OpenAIToolCall {
    pub function: OpenAIFunctionCall,
}

/// The function of a tool call, with its JSON arguments as text.
#[derive(Clone, Debug, PartialEq, Eq)]
pub struct OpenAIFunctionCall {
    pub name: String,
    pub arguments: String,
}

/// A message to the local provider.
#[derive(Clone, Debug, PartialEq, Eq)]
pub struct OllamaMessage {
    pub role: String,
    pub content: String,
}

/// A chat request to the local provider.
#[derive(Clone, Debug, PartialEq, Eq)]
pub struct OllamaChatRequest {
    pub model: String,
    pub messages: Vec<OllamaMessage>,
    pub stream: bool,
}

/// The local provider's answer to a chat request.
#[derive(Clone, Debug, PartialEq, Eq)]
pub struct OllamaChatResponse {
    pub message: OllamaResponseMessage,
}

/// The message of the local provider's answer.
#[derive(Clone, Debug, PartialEq, Eq)]
pub struct OllamaResponseMessage {
    pub content: String,
}

/// A request for one generated picture.
#[derive(Clone, Debug, PartialEq, Eq)]
pub struct ImageGenerationRequest {
    pub model: String,
    pub prompt: String,
    pub n: u32,
    pub size: String,
    pub quality: String,
}

/// The answer to a request for pictures.
#[derive(Clone, Debug, PartialEq, Eq)]
pub struct ImageGenerationResponse {
    pub data: Vec<ImageData>,
}

/// Where a generated picture can be fetched.
#[derive(Clone, Debug, PartialEq, Eq)]
pub struct ImageData {
    pub url: String,
}

/// Why a provider could not be asked, or its answer not be used.
#[derive(Clone, Copy, Debug, PartialEq, Eq, Structural)]
pub enum AiError {
    /// The hosted provider is needed but no key is configured.
    MissingApiKey,
    /// A picture is wanted but no key for the hosted provider is
    /// configured.
    ImageKeyRequired,
    /// The hosted provider answered without any alternative.
    NoChoices,
    /// The answer to a picture request holds no picture.
    NoImageData,
}

impl AiError {
    /// The text of the error.
    pub open spec fn message_text(self) -> Seq<char> {
        match self {
            AiError::MissingApiKey => "OpenAI API key not configured"@,
            AiError::ImageKeyRequired => "OpenAI API key required for image generation"@,
            AiError::NoChoices => "No choices in OpenAI response"@,
            AiError::NoImageData => "No image data in response"@,
        }
    }

    /// The text of the error.
    pub fn message(&self) -> (r: String)
        ensures
            r@ == self.message_text(),
    {
        match self {
            AiError::MissingApiKey => "OpenAI API key not configured".to_owned(),
            AiError::ImageKeyRequired => "OpenAI API key required for image generation".to_owned(),
            AiError::NoChoices => "No choices in OpenAI response".to_owned(),
            AiError::NoImageData => "No image data in response".to_owned(),
        }
    }
}

/// The mathematical value of an [`OpenAIContentPart`].
pub enum OpenAIContentPartView {
    Text { text: Seq<char> },
    ImageUrl { url: Seq<char> },
}

impl View for OpenAIContentPart {
    type V = OpenAIContentPartView;

    open spec fn view(&self) -> OpenAIContentPartView {
        match self {
            OpenAIContentPart::Text { text } => OpenAIContentPartView::Text { text: text@ },
            OpenAIContentPart::ImageUrl { image_url } => OpenAIContentPartView::ImageUrl {
                url: image_url.url@,
            },
        }
    }
}

/// The mathematical value of an [`OpenAIMessage`].
pub struct OpenAIMessageView {
    pub role: Seq<char>,
    pub content: Seq<OpenAIContentPartView>,
}

impl View for OpenAIMessage {
    type V = OpenAIMessageView;

    open spec fn view(&self) -> OpenAIMessageView {
        OpenAIMessageView {
            role: self.role@,
            content: self.content@.map_values(|p: OpenAIContentPart| p@),
        }
    }
}

/// The mathematical value of an [`OllamaMessage`].
pub struct OllamaMessageView {
    pub role: Seq<char>,
    pub content: Seq<char>,
}

impl View for OllamaMessage {
    type V = OllamaMessageView;

    open spec fn view(&self) -> OllamaMessageView {
        OllamaMessageView { role: self.role@, content: self.content@ }
    }
}

/// What `base64`'s standard engine (standard alphabet, with padding)
/// encodes `bytes` to.
pub uninterp spec fn base64_standard(bytes: Seq<u8>) -> Seq<char>;

/// Calls `Engine::encode` on `base64::engine::general_purpose::STANDARD`.
/// The contract names the result without restating the encoding.
#[verifier::external_body]
fn encode_base64(bytes: &Vec<u8>) -> (r: String)
    ensures
        r@ == base64_standard(bytes@),
{
    base64::Engine::encode(&base64::engine::general_purpose::STANDARD, bytes)
}

/// The text of the JSON object with the single member `key`, whose value
/// is the string `value`, as `serde_json` writes it.
pub uninterp spec fn json_single_member(key: Seq<char>, value: Seq<char>) -> Seq<char>;

/// Builds a `serde_json::Map` with one member by `Map::insert`, the value
/// being a `serde_json::Value::String`, and writes the object out with
/// the `to_string` of `serde_json::Value`. The contract names the result
/// without restating how JSON escapes a string.
#[verifier::external_body]
fn write_single_member(key: &str, value: &str) -> (r: String)
    ensures
        r@ == json_single_member(key@, value@),
{
    let mut members = serde_json::Map::new();
    members.insert(key.to_string(), serde_json::Value::String(value.to_string()));
    serde_json::Value::Object(members).to_string()
}

/// The reply that stands for a request for a picture with the given JSON
/// arguments.
pub open spec fn tool_call_marker(arguments: Seq<char>) -> Seq<char> {
    TOOL_CALL_PREFIX@ + arguments + "]"@
}

/// The reply that stands for a request for a picture with the given JSON
/// arguments.
pub fn format_tool_call(arguments: &str) -> (r: String)
    ensures
        r@ == tool_call_marker(arguments@),
{
    join3(TOOL_CALL_PREFIX, arguments, "]")
}

/// The data URL under which an image is attached to a request.
pub fn image_data_url(bytes: &Vec<u8>) -> (r: String)
    ensures
        r@ == DATA_URL_PREFIX@ + base64_standard(bytes@),
{
    let encoded = encode_base64(bytes);
    join2(DATA_URL_PREFIX, encoded.as_str())
}

/// The value of the `Authorization` header for an API key.
pub fn bearer(api_key: &str) -> (r: String)
    ensures
        r@ == "Bearer "@ + api_key@,
{
    join2("Bearer ", api_key)
}

/// The address of the local provider's chat endpoint.
pub fn ollama_chat_url(ollama_api: &str) -> (r: String)
    ensures
        r@ == ollama_api@ + "/api/chat"@,
{
    join2(ollama_api, "/api/chat")
}

/// The message that carries one turn to the hosted provider.
pub open spec fn openai_turn(turn: MessageView) -> OpenAIMessageView {
    OpenAIMessageView {
        role: role_name(turn.role),
        content: seq![OpenAIContentPartView::Text { text: turn.content }],
    }
}

/// The system text for the hosted provider.
pub open spec fn openai_system_text(system_prompt: Seq<char>, include_image_tool: bool) -> Seq<
    char,
> {
    if include_image_tool {
        system_prompt + OPENAI_TOOL_HINT@
    } else {
        system_prompt
    }
}

/// The messages of a chat request to the hosted provider: the system
/// message, the turns in order, and last the attached image, if any.
pub open spec fn openai_messages(
    history: Seq<MessageView>,
    system_prompt: Seq<char>,
    include_image_tool: bool,
    image_url: Option<Seq<char>>,
) -> Seq<OpenAIMessageView> {
    let head = seq![
        OpenAIMessageView {
            role: "system"@,
            content: seq![
                OpenAIContentPartView::Text {
                    text: openai_system_text(system_prompt, include_image_tool),
                },
            ],
        },
    ];
    let turns = history.map_values(|t: MessageView| openai_turn(t));
    let tail = match image_url {
        Some(url) => seq![
            OpenAIMessageView {
                role: "user"@,
                content: seq![
                    OpenAIContentPartView::Text { text: VISION_QUESTION@ },
                    OpenAIContentPartView::ImageUrl { url },
                ],
            },
        ],
        None => Seq::<OpenAIMessageView>::empty(),
    };
    head + turns + tail
}

/// The values of a list of messages to the hosted provider.
pub open spec fn openai_views(messages: Seq<OpenAIMessage>) -> Seq<OpenAIMessageView> {
    messages.map_values(|m: OpenAIMessage| m@)
}

/// The values of a list of messages to the local provider.
pub open spec fn ollama_views(messages: Seq<OllamaMessage>) -> Seq<OllamaMessageView> {
    messages.map_values(|m: OllamaMessage| m@)
}

/// A message with a single text part.
fn openai_text_message(role: &str, text: String) -> (r: OpenAIMessage)
    ensures
        r@ == (OpenAIMessageView {
            role: role@,
            content: seq![OpenAIContentPartView::Text { text: text@ }],
        }),
{
    let mut content: Vec<OpenAIContentPart> = Vec::new();
    content.push(OpenAIContentPart::Text { text });
    let r = OpenAIMessage { role: role.to_owned(), content };
    assert(r@.content =~= seq![OpenAIContentPartView::Text { text: text@ }]);
    r
}

/// Builds the messages of a chat request to the hosted provider.
pub fn build_openai_messages(
    messages: &Vec<Message>,
    system_prompt: &str,
    include_image_tool: bool,
    image_data: Option<Vec<u8>>,
) -> (r: Vec<OpenAIMessage>)
    ensures
        openai_views(r@) == openai_messages(
            turn_views(messages@),
            system_prompt@,
            include_image_tool,
            match image_data {
                Some(bytes) => Some(DATA_URL_PREFIX@ + base64_standard(bytes@)),
                None => None,
            },
        ),
{
    let system_text = if include_image_tool {
        join2(system_prompt, OPENAI_TOOL_HINT)
    } else {
        system_prompt.to_owned()
    };
    let mut r: Vec<OpenAIMessage> = Vec::new();
    r.push(openai_text_message("system", system_text));
    let ghost head = openai_views(r@);
    let ghost turns = turn_views(messages@).map_values(|t: MessageView| openai_turn(t));
    let mut i: usize = 0;
    while i < messages.len()
        invariant
            i <= messages.len(),
            turns == turn_views(messages@).map_values(|t: MessageView| openai_turn(t)),
            openai_views(r@) == head + turns.subrange(0, i as int),
        decreases messages.len() - i,
    {
        let ghost before = r@;
        let turn = &messages[i];
        r.push(openai_text_message(turn.role.as_str(), turn.content.clone()));
        assert(openai_views(r@) =~= openai_views(before).push(turns[i as int]));
        i += 1;
        assert(openai_views(r@) =~= head + turns.subrange(0, i as int));
    }
    assert(turns.subrange(0, i as int) =~= turns);
    match image_data {
        Some(bytes) => {
            let url = image_data_url(&bytes);
            let mut content: Vec<OpenAIContentPart> = Vec::new();
            content.push(OpenAIContentPart::Text { text: VISION_QUESTION.to_owned() });
            content.push(OpenAIContentPart::ImageUrl { image_url: OpenAIImageUrl { url } });
            let message = OpenAIMessage { role: "user".to_owned(), content };
            assert(message@.content =~= seq![
                OpenAIContentPartView::Text { text: VISION_QUESTION@ },
                OpenAIContentPartView::ImageUrl {
                    url: DATA_URL_PREFIX@ + base64_standard(bytes@),
                },
            ]);
            let ghost before = r@;
            r.push(message);
            assert(openai_views(r@) =~= openai_views(before).push(message@));
            assert(openai_views(r@) =~= head + turns + seq![message@]);
        },
        None => {
            assert(openai_views(r@) =~= head + turns + Seq::<OpenAIMessageView>::empty());
        },
    }
    r
}

/// The index of the first tool call at or after `from` that asks for a
/// picture, or the number of calls where there is none.
pub open spec fn first_picture_call(calls: Seq<OpenAIToolCall>, from: int) -> int
    decreases calls.len() - from,
{
    if from < 0 || from >= calls.len() || calls[from].function.name@ == PICTURE_TOOL@ {
        from
    } else {
        first_picture_call(calls, from + 1)
    }
}

/// The reply that an alternative of the hosted provider stands for: the
/// marker of the first picture request among its tool calls, else its
/// text, else the empty text.
pub open spec fn reply_of_choice(message: OpenAIResponseMessage) -> Seq<char> {
    let text = match message.content {
        Some(t) => t@,
        None => Seq::<char>::empty(),
    };
    match message.tool_calls {
        Some(calls) => {
            let k = first_picture_call(calls@, 0);
            if k < calls@.len() {
                tool_call_marker(calls@[k].function.arguments@)
            } else {
                text
            }
        },
        None => text,
    }
}

/// The reply that an answer of the hosted provider stands for: that of
/// its first alternative.
pub open spec fn openai_reply(response: OpenAIChatResponse) -> Result<Seq<char>, AiError> {
    if response.choices@.len() > 0 {
        Ok(reply_of_choice(response.choices@[0].message))
    } else {
        Err(AiError::NoChoices)
    }
}

/// The value of a reply or the error in its place.
pub open spec fn reply_outcome(outcome: Result<String, AiError>) -> Result<Seq<char>, AiError> {
    match outcome {
        Ok(t) => Ok(t@),
        Err(e) => Err(e),
    }
}

/// Reads the reply out of an answer of the hosted provider.
pub fn read_openai_reply(response: &OpenAIChatResponse) -> (r: Result<String, AiError>)
    ensures
        reply_outcome(r) == openai_reply(*response),
{
    if response.choices.len() == 0 {
        return Err(AiError::NoChoices);
    }
    let message = &response.choices[0].message;
    match &message.tool_calls {
        Some(calls) => {
            let picture_tool = PICTURE_TOOL.to_owned();
            let mut i: usize = 0;
            while i < calls.len() && !(calls[i].function.name == picture_tool)
                invariant
                    i <= calls.len(),
                    picture_tool@ == PICTURE_TOOL@,
                    first_picture_call(calls@, 0) == first_picture_call(calls@, i as int),
                decreases calls.len() - i,
            {
                i += 1;
            }
            if i < calls.len() {
                return Ok(format_tool_call(calls[i].function.arguments.as_str()));
            }
        },
        None => {},
    }
    match &message.content {
        Some(t) => Ok(t.clone()),
        None => Ok(String::new()),
    }
}

/// The system text for the local provider.
pub open spec fn ollama_system_text(system_prompt: Seq<char>, has_image: bool) -> Seq<char> {
    if has_image {
        system_prompt + OLLAMA_PICTURE_HINT@ + OLLAMA_VISION_NOTE@
    } else {
        system_prompt + OLLAMA_PICTURE_HINT@
    }
}

/// The message that carries one turn to the local provider.
pub open spec fn ollama_turn(turn: MessageView) -> OllamaMessageView {
    OllamaMessageView { role: role_name(turn.role), content: turn.content }
}

/// The messages of a chat request to the local provider: the system
/// message, then the turns in order.
pub open spec fn ollama_messages(
    history: Seq<MessageView>,
    system_prompt: Seq<char>,
    has_image: bool,
) -> Seq<OllamaMessageView> {
    seq![
        OllamaMessageView {
            role: "system"@,
            content: ollama_system_text(system_prompt, has_image),
        },
    ] + history.map_values(|t: MessageView| ollama_turn(t))
}

/// Builds a chat request to the local provider. Streaming is off.
pub fn build_ollama_request(
    model: &str,
    messages: &Vec<Message>,
    system_prompt: &str,
    has_image: bool,
) -> (r: OllamaChatRequest)
    ensures
        r.model@ == model@,
        !r.stream,
        ollama_views(r.messages@) == ollama_messages(
            turn_views(messages@),
            system_prompt@,
            has_image,
        ),
{
    let system_text = if has_image {
        join3(system_prompt, OLLAMA_PICTURE_HINT, OLLAMA_VISION_NOTE)
    } else {
        join2(system_prompt, OLLAMA_PICTURE_HINT)
    };
    let mut list: Vec<OllamaMessage> = Vec::new();
    list.push(OllamaMessage { role: "system".to_owned(), content: system_text });
    let ghost head = ollama_views(list@);
    let ghost turns = turn_views(messages@).map_values(|t: MessageView| ollama_turn(t));
    let mut i: usize = 0;
    while i < messages.len()
        invariant
            i <= messages.len(),
            turns == turn_views(messages@).map_values(|t: MessageView| ollama_turn(t)),
            ollama_views(list@) == head + turns.subrange(0, i as int),
        decreases messages.len() - i,
    {
        let ghost before = list@;
        let turn = &messages[i];
        list.push(
            OllamaMessage { role: turn.role.as_str().to_owned(), content: turn.content.clone() },
        );
        assert(ollama_views(list@) =~= ollama_views(before).push(turns[i as int]));
        i += 1;
        assert(ollama_views(list@) =~= head + turns.subrange(0, i as int));
    }
    assert(turns.subrange(0, i as int) =~= turns);
    assert(head =~= seq![
        OllamaMessageView {
            role: "system"@,
            content: ollama_system_text(system_prompt@, has_image),
        },
    ]);
    OllamaChatRequest { model: model.to_owned(), messages: list, stream: false }
}

/// `text` with every occurrence of `pat` removed, scanning from the left
/// and never looking back into what a removal uncovered.
pub open spec fn remove_all(text: Seq<char>, pat: Seq<char>) -> Seq<char>
    decreases text.len(),
{
    if text.len() == 0 || pat.len() == 0 {
        text
    } else if occurs_at(text, pat, 0) {
        remove_all(text.subrange(pat.len() as int, text.len() as int), pat)
    } else {
        seq![text[0]] + remove_all(text.subrange(1, text.len() as int), pat)
    }
}

/// Removing from a text is removing from what follows its first
/// character, or from what follows the occurrence it begins with.
proof fn lemma_remove_all_step(text: Seq<char>, pat: Seq<char>, i: int)
    requires
        0 <= i < text.len(),
        pat.len() > 0,
    ensures
        occurs_at(text, pat, i) ==> remove_all(text.subrange(i, text.len() as int), pat)
            == remove_all(text.subrange(i + pat.len(), text.len() as int), pat),
        !occurs_at(text, pat, i) ==> remove_all(text.subrange(i, text.len() as int), pat)
            == seq![text[i]] + remove_all(text.subrange(i + 1, text.len() as int), pat),
{
    let n = text.len() as int;
    let tail = text.subrange(i, n);
    if i + pat.len() <= n {
        assert(tail.subrange(0, pat.len() as int) =~= text.subrange(i, i + pat.len()));
    }
    assert(occurs_at(tail, pat, 0) == occurs_at(text, pat, i));
    if occurs_at(text, pat, i) {
        assert(tail.subrange(pat.len() as int, tail.len() as int) =~= text.subrange(
            i + pat.len(),
            n,
        ));
    } else {
        assert(tail.subrange(1, tail.len() as int) =~= text.subrange(i + 1, n));
    }
}

/// `text` with every occurrence of `pat` removed.
pub fn remove_occurrences(text: &str, pat: &str) -> (r: String)
    ensures
        r@ == remove_all(text@, pat@),
{
    let chars = to_chars(text);
    let needle = to_chars(pat);
    let n: usize = chars.len();
    let m: usize = needle.len();
    if m == 0 || n == 0 {
        return text.to_owned();
    }
    let mut kept = String::new();
    let mut segment: usize = 0;
    let mut i: usize = 0;
    assert(text@.subrange(0, n as int) =~= text@);
    while i < n
        invariant
            n == chars.len(),
            m == needle.len(),
            m > 0,
            chars@ == text@,
            needle@ == pat@,
            segment <= i <= n,
            kept@ + text@.subrange(segment as int, i as int) + remove_all(
                text@.subrange(i as int, n as int),
                pat@,
            ) == remove_all(text@, pat@),
        decreases n - i,
    {
        proof {
            lemma_remove_all_step(text@, pat@, i as int);
        }
        if matches_at(&chars, &needle, i) {
            let part = crate::text::slice_chars(text, segment, i);
            kept = kept.concat(part.as_str());
            i += m;
            segment = i;
            assert(text@.subrange(segment as int, i as int) =~= Seq::<char>::empty());
            assert(kept@ + text@.subrange(segment as int, i as int) =~= kept@);
        } else {
            assert(text@.subrange(segment as int, i as int) + seq![text@[i as int]]
                =~= text@.subrange(segment as int, i + 1));
            assert(kept@ + text@.subrange(segment as int, i + 1) + remove_all(
                text@.subrange(i + 1, n as int),
                pat@,
            ) =~= kept@ + text@.subrange(segment as int, i as int) + (seq![text@[i as int]]
                + remove_all(text@.subrange(i + 1, n as int), pat@)));
            i += 1;
        }
    }
    assert(text@.subrange(n as int, n as int) =~= Seq::<char>::empty());
    assert(remove_all(text@.subrange(n as int, n as int), pat@) =~= Seq::<char>::empty());
    let part = crate::text::slice_chars(text, segment, n);
    let r = kept.concat(part.as_str());
    assert(r@ =~= remove_all(text@, pat@));
    r
}

/// The reply that an answer of the local provider stands for. An answer
/// that holds the picture marker becomes a request for a picture, its
/// description being the answer without the markers, trimmed; any other
/// answer is the reply as it is.
pub open spec fn ollama_reply(content: Seq<char>) -> Seq<char> {
    if contains_seq(content, PICTURE_MARKER@) {
        tool_call_marker(
            json_single_member(
                crate::chat_agent::DESCRIPTION_KEY@,
                trim(remove_all(content, PICTURE_MARKER@), CharClass::Whitespace),
            ),
        )
    } else {
        content
    }
}

/// The reply for an answer of the local provider, given the JSON
/// arguments that carry the description of the picture it asks for.
pub open spec fn ollama_reply_with(content: Seq<char>, arguments: Seq<char>) -> Seq<char> {
    if contains_seq(content, PICTURE_MARKER@) {
        tool_call_marker(arguments)
    } else {
        content
    }
}

/// The description of the picture that an answer of the local provider
/// asks for: the answer without the markers, trimmed.
pub fn picture_description(content: &str) -> (r: String)
    ensures
        r@ == trim(remove_all(content@, PICTURE_MARKER@), CharClass::Whitespace),
{
    let stripped = remove_occurrences(content, PICTURE_MARKER);
    trim_text(stripped.as_str(), CharClass::Whitespace)
}

/// Reads the reply out of an answer of the local provider, given the JSON
/// arguments to use if it asks for a picture.
pub fn read_ollama_reply_with(content: String, arguments: &str) -> (r: String)
    ensures
        r@ == ollama_reply_with(content@, arguments@),
{
    if contains_text(content.as_str(), PICTURE_MARKER) {
        format_tool_call(arguments)
    } else {
        content
    }
}

/// Reads the reply out of an answer of the local provider.
pub fn read_ollama_reply(content: String) -> (r: String)
    ensures
        r@ == ollama_reply(content@),
{
    let description = picture_description(content.as_str());
    let arguments = write_single_member(crate::chat_agent::DESCRIPTION_KEY, description.as_str());
    read_ollama_reply_with(content, arguments.as_str())
}

/// The providers.
#[derive(Clone, Copy, Debug, PartialEq, Eq, Structural)]
pub enum Provider {
    /// The hosted provider.
    OpenAI,
    /// The local provider.
    Ollama,
}

/// The provider that answers a conversation.
pub fn chat_provider(use_ollama: bool) -> (r: Provider)
    ensures
        r == if use_ollama {
            Provider::Ollama
        } else {
            Provider::OpenAI
        },
{
    if use_ollama {
        Provider::Ollama
    } else {
        Provider::OpenAI
    }
}

/// The provider that synthesises persona prompts: the hosted one where a
/// key is configured, else the local one.
pub fn persona_provider(openai_api_key: &Option<String>) -> (r: Provider)
    ensures
        r == if openai_api_key is Some {
            Provider::OpenAI
        } else {
            Provider::Ollama
        },
{
    match openai_api_key {
        Some(_) => Provider::OpenAI,
        None => Provider::Ollama,
    }
}

/// The single turn that asks for a persona prompt.
pub fn persona_turns(description: &str, now: i64) -> (r: Vec<Message>)
    ensures
        turn_views(r@) == seq![
            MessageView { role: MessageRole::User, content: description@, timestamp: now },
        ],
{
    let mut r: Vec<Message> = Vec::new();
    r.push(Message { role: MessageRole::User, content: description.to_owned(), timestamp: now });
    assert(turn_views(r@) =~= seq![
        MessageView { role: MessageRole::User, content: description@, timestamp: now },
    ]);
    r
}

/// The persona prompt as it is stored: the provider's text, trimmed.
pub fn finish_persona_prompt(raw: &str) -> (r: String)
    ensures
        r@ == trim(raw@, CharClass::Whitespace),
{
    trim_text(raw, CharClass::Whitespace)
}

/// The key of the hosted provider, or the given error where none is
/// configured.
pub fn require_api_key(openai_api_key: &Option<String>, missing: AiError) -> (r: Result<
    String,
    AiError,
>)
    ensures
        match *openai_api_key {
            Some(key) => r is Ok && r->Ok_0@ == key@,
            None => r == Err::<String, AiError>(missing),
        },
{
    match openai_api_key {
        Some(key) => Ok(key.clone()),
        None => Err(missing),
    }
}

/// The request for one picture of the given description.
pub fn picture_request(description: &str) -> (r: ImageGenerationRequest)
    ensures
        r.model@ == "dall-e-3"@,
        r.prompt@ == description@,
        r.n == 1,
        r.size@ == "1024x1024"@,
        r.quality@ == "standard"@,
{
    ImageGenerationRequest {
        model: "dall-e-3".to_owned(),
        prompt: description.to_owned(),
        n: 1,
        size: "1024x1024".to_owned(),
        quality: "standard".to_owned(),
    }
}

/// Where the generated picture can be fetched: the address of the first
/// entry of the answer.
pub fn first_image_url(response: &ImageGenerationResponse) -> (r: Result<String, AiError>)
    ensures
        reply_outcome(r) == if response.data@.len() > 0 {
            Ok::<Seq<char>, AiError>(response.data@[0].url@)
        } else {
            Err::<Seq<char>, AiError>(AiError::NoImageData)
        },
{
    if response.data.len() > 0 {
        Ok(response.data[0].url.clone())
    } else {
        Err(AiError::NoImageData)
    }
}

} // verus!
