//! The backends a chat request can be served by, what each sends upstream,
//! and the synthetic word generator.

use vstd::prelude::*;
use vstd::string::StringExecFns;
use crate::adapter::{
    GPT3ChatCompletion, MistralChatCompletion, gpt_chunks, gpt_texts, mistral_chunks,
    mistral_texts, strings_view,
};

verus! {

/// The backend that a request selects.
#[derive(PartialEq, Eq, Structural, Clone, Copy, Debug)]
pub enum ChatModel {
    Lorem,
    GPT3,
    Mistral,
}

impl Default for ChatModel {
    /// Requests that name no backend get the synthetic one.
    fn default() -> (r: ChatModel)
        ensures
            r == ChatModel::Lorem,
    {
        ChatModel::Lorem
    }
}

/// Where an HTTP backend lives, the model it is asked for, and the
/// environment variable that holds its credential.
pub struct Upstream {
    pub url: &'static str,
    pub model: &'static str,
    pub key_var: &'static str,
}

/// One message of a chat request.
pub struct ChatMessage {
    pub role: String,
    pub content: String,
}

/// The body posted to an HTTP backend.
pub struct ChatRequest {
    pub model: String,
    pub stream: bool,
    pub messages: Vec<ChatMessage>,
}

/// The request body for `prompt`: the model, streaming on, and one user
/// message that carries the prompt.
pub open spec fn is_user_request(r: ChatRequest, model: Seq<char>, prompt: Seq<char>) -> bool {
    &&& r.model@ == model
    &&& r.stream
    &&& r.messages@.len() == 1
    &&& r.messages@[0].role@ == "user"@
    &&& r.messages@[0].content@ == prompt
}

/// Builds the streaming request that asks `model` to answer `prompt`.
pub fn chat_request(model: &str, prompt: String) -> (r: ChatRequest)
    ensures
        is_user_request(r, model@, prompt@),
{
    let mut messages: Vec<ChatMessage> = Vec::new();
    messages.push(ChatMessage { role: "user".to_owned(), content: prompt });
    ChatRequest { model: model.to_owned(), stream: true, messages }
}

/// The value of the `Authorization` header for a credential.
pub fn bearer(key: &str) -> (r: String)
    ensures
        r@ == "Bearer "@ + key@,
{
    let mut r = "Bearer ".to_owned();
    r.append(key);
    r
}

/// The synthetic backend: a fixed number of random words.
pub struct LoremPipeline {}

/// The OpenAI-compatible backend.
pub struct GPT3Pipeline {}

/// The Mistral-compatible backend.
pub struct MistralPipeline {}

/// How many chunks the synthetic backend emits.
pub const LOREM_CHUNKS: usize = 20;

/// A word of lower-case letters followed by one space.
pub open spec fn is_word_chunk(s: Seq<char>) -> bool {
    &&& s.len() >= 2
    &&& s.last() == ' '
    &&& forall|i: int| 0 <= i < s.len() - 1 ==> 'a' <= #[trigger] s[i] <= 'z'
}

/// Relies on fake's English lorem `Word`: it picks one entry of a fixed
/// list, and every entry is a non-empty run of lower-case letters.
#[verifier::external_body]
fn lorem_word() -> (r: String)
    ensures
        r@.len() > 0,
        forall|i: int| 0 <= i < r@.len() ==> 'a' <= #[trigger] r@[i] <= 'z',
{
    fake::Fake::fake::<String>(&fake::faker::lorem::en::Word())
}

impl LoremPipeline {
    /// The chunks of one run: a fixed number of random words, each followed
    /// by one space.
    pub fn chunks(&self) -> (r: Vec<String>)
        ensures
            r@.len() == LOREM_CHUNKS,
            forall|i: int| 0 <= i < r@.len() ==> is_word_chunk(#[trigger] r@[i]@),
    {
        let mut out: Vec<String> = Vec::new();
        let mut n: usize = 0;
        while n < LOREM_CHUNKS
            invariant
                n <= LOREM_CHUNKS,
                out@.len() == n,
                forall|i: int| 0 <= i < out@.len() ==> is_word_chunk(#[trigger] out@[i]@),
            decreases LOREM_CHUNKS - n,
        {
            let mut word = lorem_word();
            let ghost w = word@;
            crate::text::push_char(&mut word, ' ');
            assert(word@.last() == ' ');
            assert(forall|i: int| 0 <= i < word@.len() - 1 ==> word@[i] == w[i]);
            out.push(word);
            n = n + 1;
        }
        out
    }
}

impl GPT3Pipeline {
    pub fn upstream(&self) -> (r: Upstream)
        ensures
            r.url@ == "https://api.openai.com/v1/chat/completions"@,
            r.model@ == "gpt-3.5-turbo"@,
            r.key_var@ == "OPENAI_API_KEY"@,
    {
        Upstream {
            url: "https://api.openai.com/v1/chat/completions",
            model: "gpt-3.5-turbo",
            key_var: "OPENAI_API_KEY",
        }
    }

    /// The request body that asks this backend to answer `prompt`.
    pub fn request(&self, prompt: String) -> (r: ChatRequest)
        ensures
            is_user_request(r, "gpt-3.5-turbo"@, prompt@),
    {
        chat_request(self.upstream().model, prompt)
    }

    /// The chunks of one decoded envelope: the text of every choice that
    /// carries one, in order.
    pub fn chunks(&self, completion: &GPT3ChatCompletion) -> (r: Vec<String>)
        ensures
            strings_view(r@) == gpt_texts(completion.choices@),
    {
        gpt_chunks(completion)
    }
}

impl MistralPipeline {
    pub fn upstream(&self) -> (r: Upstream)
        ensures
            r.url@ == "https://api.mistral.ai/v1/chat/completions"@,
            r.model@ == "mistral-tiny"@,
            r.key_var@ == "MISTRAL_API_KEY"@,
    {
        Upstream {
            url: "https://api.mistral.ai/v1/chat/completions",
            model: "mistral-tiny",
            key_var: "MISTRAL_API_KEY",
        }
    }

    /// The request body that asks this backend to answer `prompt`.
    pub fn request(&self, prompt: String) -> (r: ChatRequest)
        ensures
            is_user_request(r, "mistral-tiny"@, prompt@),
    {
        chat_request(self.upstream().model, prompt)
    }

    /// The chunks of one decoded envelope: the content of every choice, in
    /// order.
    pub fn chunks(&self, completion: &MistralChatCompletion) -> (r: Vec<String>)
        ensures
            strings_view(r@) == mistral_texts(completion.choices@),
    {
        mistral_chunks(completion)
    }
}

} // verus!
