//! What the two chat backends stream back: the delta envelopes, which text
//! each one carries, and how an HTTP adapter treats each decoded event.

use vstd::prelude::*;
use crate::event::{SSEvent, default_name};

verus! {

/// An incremental delta of the OpenAI-compatible backend: a bare string, an
/// object with content, or an object that carries no text.
pub enum GPT3Delta {
    Simple(String),
    Complex(ComplexDelta),
    Empty(EmptyDelta),
}

pub struct ComplexDelta {
    pub content: String,
}

pub struct EmptyDelta {}

pub struct GPT3Choice {
    pub index: usize,
    pub delta: Option<GPT3Delta>,
    pub finish_reason: Option<String>,
}

pub struct GPT3ChatCompletion {
    pub id: String,
    pub object: String,
    pub created: i64,
    pub model: String,
    pub choices: Vec<GPT3Choice>,
}

/// A delta of the Mistral-compatible backend: its content is always there.
pub struct MistralMessage {
    pub role: Option<String>,
    pub content: String,
}

pub struct MistralChoice {
    pub index: usize,
    pub delta: MistralMessage,
    pub finish_reason: Option<String>,
}

pub struct MistralChatCompletion {
    pub id: String,
    pub object: String,
    pub created: i64,
    pub model: String,
    pub choices: Vec<MistralChoice>,
}

pub open spec fn strings_view(v: Seq<String>) -> Seq<Seq<char>> {
    v.map_values(|s: String| s@)
}

/// The text a choice of the OpenAI-compatible backend carries, if any.
pub open spec fn gpt_choice_text(c: GPT3Choice) -> Option<Seq<char>> {
    match c.delta {
        Some(GPT3Delta::Simple(v)) => Some(v@),
        Some(GPT3Delta::Complex(d)) => Some(d.content@),
        _ => None,
    }
}

/// The texts of the choices that carry one, in the order of the choices.
pub open spec fn gpt_texts(cs: Seq<GPT3Choice>) -> Seq<Seq<char>>
    decreases cs.len(),
{
    if cs.len() == 0 {
        Seq::empty()
    } else {
        let init = gpt_texts(cs.drop_last());
        match gpt_choice_text(cs.last()) {
            Some(t) => init.push(t),
            None => init,
        }
    }
}

/// The content of every choice, in order.
pub open spec fn mistral_texts(cs: Seq<MistralChoice>) -> Seq<Seq<char>> {
    cs.map_values(|c: MistralChoice| c.delta.content@)
}

/// The chunks that one OpenAI-compatible envelope yields.
pub fn gpt_chunks(completion: &GPT3ChatCompletion) -> (r: Vec<String>)
    ensures
        strings_view(r@) == gpt_texts(completion.choices@),
{
    let choices = &completion.choices;
    let mut out: Vec<String> = Vec::new();
    let mut i: usize = 0;
    assert(choices@.subrange(0, 0) =~= Seq::<GPT3Choice>::empty());
    while i < choices.len()
        invariant
            i <= choices@.len(),
            strings_view(out@) == gpt_texts(choices@.subrange(0, i as int)),
        decreases choices@.len() - i,
    {
        let ghost before = out@;
        assert(choices@.subrange(0, i + 1).drop_last() =~= choices@.subrange(0, i as int));
        assert(choices@.subrange(0, i + 1).last() == choices@[i as int]);
        match &choices[i].delta {
            Some(GPT3Delta::Simple(v)) => {
                out.push(v.clone());
                assert(strings_view(out@) =~= strings_view(before).push(v@));
            },
            Some(GPT3Delta::Complex(d)) => {
                out.push(d.content.clone());
                assert(strings_view(out@) =~= strings_view(before).push(d.content@));
            },
            _ => {},
        }
        i = i + 1;
    }
    assert(choices@.subrange(0, i as int) =~= choices@);
    out
}

/// The chunks that one Mistral-compatible envelope yields: one per choice.
pub fn mistral_chunks(completion: &MistralChatCompletion) -> (r: Vec<String>)
    ensures
        strings_view(r@) == mistral_texts(completion.choices@),
{
    let choices = &completion.choices;
    let mut out: Vec<String> = Vec::new();
    let mut i: usize = 0;
    while i < choices.len()
        invariant
            i <= choices@.len(),
            strings_view(out@) =~= mistral_texts(choices@.subrange(0, i as int)),
        decreases choices@.len() - i,
    {
        let ghost before = out@;
        out.push(choices[i].delta.content.clone());
        assert(strings_view(out@) =~= strings_view(before).push(choices@[i as int].delta.content@));
        assert(mistral_texts(choices@.subrange(0, i + 1)) =~= mistral_texts(
            choices@.subrange(0, i as int),
        ).push(choices@[i as int].delta.content@));
        i = i + 1;
    }
    assert(choices@.subrange(0, i as int) =~= choices@);
    out
}

/// The payload that marks the logical end of an upstream stream.
pub open spec fn done_marker() -> Seq<char> {
    seq!['[', 'D', 'O', 'N', 'E', ']', '\n']
}

/// How an HTTP adapter treats one decoded event.
#[derive(PartialEq, Eq, Structural, Clone, Copy, Debug)]
pub enum RelayAction {
    /// The end marker: stop consuming, emit nothing for it.
    Finish,
    /// An event of another name: nothing to emit.
    Skip,
    /// A payload to decode as the backend's envelope.
    Decode,
}

pub open spec fn relay_action_of(data: Seq<char>, name: Seq<char>) -> RelayAction {
    if data == done_marker() {
        RelayAction::Finish
    } else if name == default_name() {
        RelayAction::Decode
    } else {
        RelayAction::Skip
    }
}

/// Decides what an HTTP adapter does with one decoded event.
pub fn relay_action(event: &SSEvent<String>) -> (r: RelayAction)
    ensures
        r == relay_action_of(event.data@, event.name@),
{
    let done = "[DONE]\n".to_owned();
    let message = "message".to_owned();
    proof {
        reveal_strlit("[DONE]\n");
        reveal_strlit("message");
        assert(done@ =~= done_marker());
        assert(message@ =~= default_name());
    }
    if event.data == done {
        RelayAction::Finish
    } else if event.name == message {
        RelayAction::Decode
    } else {
        RelayAction::Skip
    }
}

} // verus!
