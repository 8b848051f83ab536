//! Conversation turns and the client side of the generation backend.

use crate::error::EngineError;
use crate::text::{begins_with, starts_with};
use crate::textgen::character::{Character, CharacterView};
use crate::textgen::json::{
    array_value, as_text, bool_value, copy_value, element, element_of, empty_object,
    integer_value, json_parsed, json_text, json_tree, member, member_of, parse, render,
    set_member, text_of, text_value, JsonNumber, JsonTree,
};
use crate::textgen::template::{replace_all, replaced_all, slice_texts, string_texts};
use vstd::prelude::*;
use vstd::string::*;

verus! {

/// One conversation turn: who spoke, and what they said.
#[derive(Clone, Debug, PartialEq, Eq)]
pub struct Message {
    pub speaker: String,
    pub content: String,
}

/// The mathematical value of a [`Message`].
pub struct MessageView {
    pub speaker: Seq<char>,
    pub content: Seq<char>,
}

impl View for Message {
    type V = MessageView;

    open spec fn view(&self) -> MessageView {
        MessageView { speaker: self.speaker@, content: self.content@ }
    }
}

/// The views of a sequence of messages, in the same order.
pub open spec fn message_views(messages: Seq<Message>) -> Seq<MessageView> {
    messages.map_values(|m: Message| m@)
}

/// A turn as it appears in a prompt: `speaker: content`.
pub open spec fn line_of(m: MessageView) -> Seq<char> {
    m.speaker + seq![':', ' '] + m.content
}

/// The lines of the given turns, in order, separated by single newlines.
/// There is no trailing newline, and no turns give the empty text.
pub open spec fn conversation_text(turns: Seq<MessageView>) -> Seq<char>
    decreases turns.len(),
{
    if turns.len() == 0 {
        Seq::empty()
    } else if turns.len() == 1 {
        line_of(turns[0])
    } else {
        conversation_text(turns.drop_last()) + seq!['\n'] + line_of(turns.last())
    }
}

impl Message {
    /// Renders this turn as `speaker: content`.
    pub fn to_string(&self) -> (line: String)
        ensures
            line@ == line_of(self@),
    {
        proof {
            reveal_strlit(": ");
        }
        let mut line = self.speaker.clone();
        line.append(": ");
        line.append(self.content.as_str());
        assert(line@ =~= line_of(self@));
        line
    }

    /// Renders a conversation, one `speaker: content` line per turn.
    pub fn format_conversation(messages: &Vec<Message>) -> (text: String)
        ensures
            text@ == conversation_text(message_views(messages@)),
    {
        let ghost turns = message_views(messages@);
        let mut text = String::new();
        let mut i: usize = 0;
        while i < messages.len()
            invariant
                i <= messages.len(),
                turns == message_views(messages@),
                text@ == conversation_text(turns.take(i as int)),
            decreases messages.len() - i,
        {
            proof {
                reveal_strlit("\n");
                assert(turns.take(i + 1).drop_last() =~= turns.take(i as int));
                assert(turns.take(i + 1).last() == messages@[i as int]@);
            }
            if i > 0 {
                text.append("\n");
            }
            let line = messages[i].to_string();
            text.append(line.as_str());
            i = i + 1;
            assert(text@ =~= conversation_text(turns.take(i as int)));
        }
        assert(turns.take(messages.len() as int) =~= turns);
        text
    }
}

/// How long a generation request may take, in seconds.
pub const REQUEST_TIMEOUT_SECS: u64 = 20;

/// The bound on newly generated tokens that every request carries.
pub const MAX_NEW_TOKENS: i64 = 200;

/// The context length beyond which the backend truncates the prompt.
pub const TRUNCATION_LENGTH: i64 = 2000;

/// The configured part of the sampling parameters. The numbers with a fraction
/// are held as the JSON values that go into the request unchanged.
pub struct SamplingParams {
    pub temperature: serde_json::Value,
    pub top_p: serde_json::Value,
    pub typical_p: serde_json::Value,
    pub repetition_penalty: serde_json::Value,
    pub encoder_repetition_penalty: serde_json::Value,
    pub top_k: serde_json::Value,
    pub min_length: i32,
    pub no_repeat_ngram_size: i32,
    pub num_beams: i32,
    pub penalty_alpha: serde_json::Value,
    pub length_penalty: serde_json::Value,
}

/// The client side of the generation backend: where it is, and how it samples.
pub struct TextgenApi {
    /// Where generation requests are posted.
    pub textgen_url: String,
    /// Where the name of the loaded model is read.
    pub model_url: String,
    /// The configured sampling parameters.
    pub sampling: SamplingParams,
}

/// How an exchange with the backend ended, as the transport saw it.
#[derive(Clone, Debug, PartialEq, Eq)]
pub enum BackendOutcome {
    /// The backend answered with this body.
    Answered(String),
    /// No answer came within the allowed wait.
    TimedOut,
    /// The backend could not be reached, or the exchange broke off.
    Unreachable,
}

/// The four placeholders of a prompt template: persona name, persona text,
/// example dialogue and conversation history.
pub open spec fn placeholders() -> Seq<Seq<char>> {
    seq!["[[NAME]]"@, "[[PERSONA]]"@, "[[EXAMPLE]]"@, "[[CONTEXT]]"@]
}

/// What stands in for the placeholders, in their order.
pub open spec fn substitutes(persona: CharacterView, window: Seq<MessageView>) -> Seq<Seq<char>> {
    seq![
        persona.char_name,
        persona.char_persona,
        conversation_text(persona.example_dialogue),
        conversation_text(window),
    ]
}

/// The prompt: the template with the placeholders replaced, all at once and
/// literally, by the persona's fields and the rendered conversation.
pub open spec fn rendered(
    template: Seq<char>,
    persona: CharacterView,
    window: Seq<MessageView>,
) -> Seq<char> {
    replaced_all(placeholders(), template, substitutes(persona, window))
}

/// Rendering is deterministic: the prompt depends on nothing but the text of
/// the template, the persona's fields and the turns of the window, so equal
/// inputs give the same prompt, character for character.
pub proof fn lemma_rendering_is_deterministic(
    template: Seq<char>,
    persona: CharacterView,
    window: Seq<MessageView>,
    same_template: Seq<char>,
    same_persona: CharacterView,
    same_window: Seq<MessageView>,
)
    requires
        template == same_template,
        persona == same_persona,
        window == same_window,
    ensures
        rendered(template, persona, window) == rendered(same_template, same_persona, same_window),
{
}

/// The sampling parameter object of a request: the fixed settings and the
/// configured ones.
pub open spec fn sampling_tree(sampling: SamplingParams) -> JsonTree {
    JsonTree::Object(
        Map::<Seq<char>, JsonTree>::empty().insert(
            "max_new_tokens"@,
            JsonTree::Number(JsonNumber::Integer(MAX_NEW_TOKENS as int)),
        ).insert("do_sample"@, JsonTree::Bool(true)).insert(
            "temperature"@,
            json_tree(sampling.temperature),
        ).insert("top_p"@, json_tree(sampling.top_p)).insert(
            "typical_p"@,
            json_tree(sampling.typical_p),
        ).insert("repetition_penalty"@, json_tree(sampling.repetition_penalty)).insert(
            "encoder_repetition_penalty"@,
            json_tree(sampling.encoder_repetition_penalty),
        ).insert("top_k"@, json_tree(sampling.top_k)).insert(
            "min_length"@,
            JsonTree::Number(JsonNumber::Integer(sampling.min_length as int)),
        ).insert(
            "no_repeat_ngram_size"@,
            JsonTree::Number(JsonNumber::Integer(sampling.no_repeat_ngram_size as int)),
        ).insert(
            "num_beams"@,
            JsonTree::Number(JsonNumber::Integer(sampling.num_beams as int)),
        ).insert("penalty_alpha"@, json_tree(sampling.penalty_alpha)).insert(
            "length_penalty"@,
            json_tree(sampling.length_penalty),
        ).insert("early_stopping"@, JsonTree::Bool(false)).insert(
            "seed"@,
            JsonTree::Number(JsonNumber::Integer(-1)),
        ).insert("add_bos_token"@, JsonTree::Bool(false)).insert(
            "truncation_length"@,
            JsonTree::Number(JsonNumber::Integer(TRUNCATION_LENGTH as int)),
        ).insert("custom_stopping_strings"@, JsonTree::Array(Seq::empty())).insert(
            "ban_eos_token"@,
            JsonTree::Bool(true),
        ),
    )
}

/// The inner document of a request: the prompt, then the sampling parameters.
pub open spec fn payload_tree(prompt: Seq<char>, sampling: JsonTree) -> JsonTree {
    JsonTree::Array(seq![JsonTree::Text(prompt), sampling])
}

/// The envelope of a request: an object whose `data` is an array of one
/// string, and that string is the inner document rendered as text.
pub open spec fn envelope_tree(prompt: Seq<char>, sampling: JsonTree) -> JsonTree {
    JsonTree::Object(
        Map::<Seq<char>, JsonTree>::empty().insert(
            "data"@,
            JsonTree::Array(seq![JsonTree::Text(json_text(payload_tree(prompt, sampling)))]),
        ),
    )
}

/// The generated text in a response: the first element of `data`, where that
/// is a string.
pub open spec fn generated_text(response: JsonTree) -> Option<Seq<char>> {
    match member_of(response, "data"@) {
        Some(data) => match element_of(data, 0) {
            Some(first) => text_of(first),
            None => None,
        },
        None => None,
    }
}

/// The model name in a response: the member `result`, where that is a string.
pub open spec fn reported_model(response: JsonTree) -> Option<Seq<char>> {
    match member_of(response, "result"@) {
        Some(result) => text_of(result),
        None => None,
    }
}

/// The completion without a leading echo of the prompt: where the completion
/// begins with the prompt, what follows it; otherwise the completion as it is.
pub open spec fn without_echo(completion: Seq<char>, prompt: Seq<char>) -> Seq<char> {
    if begins_with(completion, prompt) {
        completion.skip(prompt.len() as int)
    } else {
        completion
    }
}

/// The completion that a response body carries for a prompt, or the error
/// that it amounts to.
pub open spec fn completion_of(body: Seq<char>, prompt: Seq<char>) -> Result<
    Seq<char>,
    EngineError,
> {
    match json_parsed(body) {
        Some(response) => match generated_text(response) {
            Some(text) => Ok(without_echo(text, prompt)),
            None => Err(EngineError::MalformedBackendResponse),
        },
        None => Err(EngineError::MalformedBackendResponse),
    }
}

/// The model name that a response body carries, or the error that it amounts to.
pub open spec fn model_of(body: Seq<char>) -> Result<Seq<char>, EngineError> {
    match json_parsed(body) {
        Some(response) => match reported_model(response) {
            Some(name) => Ok(name),
            None => Err(EngineError::MalformedBackendResponse),
        },
        None => Err(EngineError::MalformedBackendResponse),
    }
}

/// A result with the text of its string.
pub open spec fn text_result(result: Result<String, EngineError>) -> Result<Seq<char>, EngineError> {
    match result {
        Ok(text) => Ok(text@),
        Err(e) => Err(e),
    }
}

/// An optional string as its text.
pub open spec fn text_option(option: Option<String>) -> Option<Seq<char>> {
    match option {
        Some(text) => Some(text@),
        None => None,
    }
}

/// Removes a leading echo of the prompt from a completion.
pub fn strip_echo(completion: &str, prompt: &str) -> (rest: String)
    ensures
        rest@ == without_echo(completion@, prompt@),
{
    if starts_with(completion, prompt) {
        let from = prompt.unicode_len();
        let to = completion.unicode_len();
        assert(completion@.subrange(from as int, to as int) =~= completion@.skip(from as int));
        String::from_str(completion.substring_char(from, to))
    } else {
        String::from_str(completion)
    }
}

/// The generated text in a parsed response.
pub fn generated_text_in(response: &serde_json::Value) -> (text: Option<String>)
    ensures
        text_option(text) == generated_text(json_tree(*response)),
{
    match member(response, "data") {
        Some(data) => match element(data, 0) {
            Some(first) => match as_text(first) {
                Some(text) => Some(String::from_str(text)),
                None => None,
            },
            None => None,
        },
        None => None,
    }
}

/// The model name in a parsed response.
pub fn reported_model_in(response: &serde_json::Value) -> (name: Option<String>)
    ensures
        text_option(name) == reported_model(json_tree(*response)),
{
    match member(response, "result") {
        Some(result) => match as_text(result) {
            Some(text) => Some(String::from_str(text)),
            None => None,
        },
        None => None,
    }
}

/// Reads the completion for `prompt` out of a response body: the generated
/// text without a leading echo of the prompt. A body that is no JSON
/// document, or has no string as first element of `data`, is malformed.
pub fn completion_from(body: &str, prompt: &str) -> (completion: Result<String, EngineError>)
    ensures
        text_result(completion) == completion_of(body@, prompt@),
{
    match parse(body) {
        Ok(response) => match generated_text_in(&response) {
            Some(text) => Ok(strip_echo(text.as_str(), prompt)),
            None => Err(EngineError::MalformedBackendResponse),
        },
        Err(_) => Err(EngineError::MalformedBackendResponse),
    }
}

/// Reads the model name out of a response body. A body that is no JSON
/// document, or has no string under `result`, is malformed.
pub fn model_from(body: &str) -> (name: Result<String, EngineError>)
    ensures
        text_result(name) == model_of(body@),
{
    match parse(body) {
        Ok(response) => match reported_model_in(&response) {
            Some(name) => Ok(name),
            None => Err(EngineError::MalformedBackendResponse),
        },
        Err(_) => Err(EngineError::MalformedBackendResponse),
    }
}

impl SamplingParams {
    /// The sampling parameter object of a request.
    pub fn to_json(&self) -> (object: serde_json::Value)
        ensures
            json_tree(object) == sampling_tree(*self),
    {
        let mut object = empty_object();
        set_member(&mut object, "max_new_tokens", integer_value(MAX_NEW_TOKENS));
        set_member(&mut object, "do_sample", bool_value(true));
        set_member(&mut object, "temperature", copy_value(&self.temperature));
        set_member(&mut object, "top_p", copy_value(&self.top_p));
        set_member(&mut object, "typical_p", copy_value(&self.typical_p));
        set_member(&mut object, "repetition_penalty", copy_value(&self.repetition_penalty));
        set_member(
            &mut object,
            "encoder_repetition_penalty",
            copy_value(&self.encoder_repetition_penalty),
        );
        set_member(&mut object, "top_k", copy_value(&self.top_k));
        set_member(&mut object, "min_length", integer_value(self.min_length as i64));
        set_member(
            &mut object,
            "no_repeat_ngram_size",
            integer_value(self.no_repeat_ngram_size as i64),
        );
        set_member(&mut object, "num_beams", integer_value(self.num_beams as i64));
        set_member(&mut object, "penalty_alpha", copy_value(&self.penalty_alpha));
        set_member(&mut object, "length_penalty", copy_value(&self.length_penalty));
        set_member(&mut object, "early_stopping", bool_value(false));
        set_member(&mut object, "seed", integer_value(-1));
        set_member(&mut object, "add_bos_token", bool_value(false));
        set_member(&mut object, "truncation_length", integer_value(TRUNCATION_LENGTH));
        let none: Vec<serde_json::Value> = Vec::new();
        assert(crate::textgen::json::json_trees(none@) =~= Seq::<JsonTree>::empty());
        set_member(&mut object, "custom_stopping_strings", array_value(none));
        set_member(&mut object, "ban_eos_token", bool_value(true));
        object
    }
}

impl TextgenApi {
    /// A client for the backend at the given addresses.
    pub fn new(textgen_url: String, model_url: String, sampling: SamplingParams) -> (api:
        TextgenApi)
        ensures
            api.textgen_url == textgen_url,
            api.model_url == model_url,
            api.sampling == sampling,
    {
        TextgenApi { textgen_url, model_url, sampling }
    }

    /// Renders the prompt for a persona and a conversation window. `template`
    /// is the text of the prompt template, or `None` where it could not be
    /// loaded, which is reported as [`EngineError::TemplateLoadFailure`].
    pub fn make_prompt(
        &self,
        character: &Character,
        history: &Vec<Message>,
        template: Option<&str>,
    ) -> (prompt: Result<String, EngineError>)
        ensures
            text_result(prompt) == match template {
                Some(text) => Ok(rendered(text@, character@, message_views(history@))),
                None => Err(EngineError::TemplateLoadFailure),
            },
    {
        match template {
            Some(text) => {
                proof {
                    reveal_strlit("[[NAME]]");
                    reveal_strlit("[[PERSONA]]");
                    reveal_strlit("[[EXAMPLE]]");
                    reveal_strlit("[[CONTEXT]]");
                }
                let mut patterns: Vec<&str> = Vec::new();
                patterns.push("[[NAME]]");
                patterns.push("[[PERSONA]]");
                patterns.push("[[EXAMPLE]]");
                patterns.push("[[CONTEXT]]");
                let mut replacements: Vec<String> = Vec::new();
                replacements.push(character.char_name.clone());
                replacements.push(character.char_persona.clone());
                replacements.push(Message::format_conversation(&character.example_dialogue));
                replacements.push(Message::format_conversation(history));
                assert(slice_texts(patterns@) =~= placeholders());
                assert(string_texts(replacements@) =~= substitutes(
                    character@,
                    message_views(history@),
                ));
                Ok(replace_all(&patterns, text, &replacements))
            },
            None => Err(EngineError::TemplateLoadFailure),
        }
    }

    /// The body of the generation request for `prompt`: the envelope, rendered
    /// as compact JSON.
    pub fn request_body(&self, prompt: &str) -> (body: String)
        ensures
            body@ == json_text(envelope_tree(prompt@, sampling_tree(self.sampling))),
    {
        let mut parts: Vec<serde_json::Value> = Vec::new();
        parts.push(text_value(prompt));
        parts.push(self.sampling.to_json());
        assert(crate::textgen::json::json_trees(parts@) =~= seq![
            JsonTree::Text(prompt@),
            sampling_tree(self.sampling),
        ]);
        let payload = array_value(parts);
        let inner = render(&payload);
        let mut data: Vec<serde_json::Value> = Vec::new();
        data.push(text_value(inner.as_str()));
        assert(crate::textgen::json::json_trees(data@) =~= seq![JsonTree::Text(inner@)]);
        let mut envelope = empty_object();
        set_member(&mut envelope, "data", array_value(data));
        render(&envelope)
    }

    /// Concludes a generation request for `prompt` from the way the exchange
    /// with the backend ended: the completion, freed of a leading echo of
    /// the prompt, or the error.
    pub fn request(&self, prompt: &str, outcome: &BackendOutcome) -> (completion: Result<
        String,
        EngineError,
    >)
        ensures
            text_result(completion) == match *outcome {
                BackendOutcome::Answered(body) => completion_of(body@, prompt@),
                BackendOutcome::TimedOut => Err(EngineError::BackendTimeout),
                BackendOutcome::Unreachable => Err(EngineError::BackendUnreachable),
            },
    {
        match outcome {
            BackendOutcome::Answered(body) => completion_from(body.as_str(), prompt),
            BackendOutcome::TimedOut => Err(EngineError::BackendTimeout),
            BackendOutcome::Unreachable => Err(EngineError::BackendUnreachable),
        }
    }

    /// Concludes the check of the backend from the way the exchange ended:
    /// the name of the loaded model, or the error.
    pub fn check_model(&self, outcome: &BackendOutcome) -> (model: Result<String, EngineError>)
        ensures
            text_result(model) == match *outcome {
                BackendOutcome::Answered(body) => model_of(body@),
                BackendOutcome::TimedOut => Err(EngineError::BackendTimeout),
                BackendOutcome::Unreachable => Err(EngineError::BackendUnreachable),
            },
    {
        match outcome {
            BackendOutcome::Answered(body) => model_from(body.as_str()),
            BackendOutcome::TimedOut => Err(EngineError::BackendTimeout),
            BackendOutcome::Unreachable => Err(EngineError::BackendUnreachable),
        }
    }
}

} // verus!
