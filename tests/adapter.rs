use serde_json::Value;
use streamchat::adapter::{
    gpt_chunks, mistral_chunks, relay_action, ComplexDelta, EmptyDelta, GPT3ChatCompletion,
    GPT3Choice, GPT3Delta, MistralChatCompletion, MistralChoice, MistralMessage, RelayAction,
};
use streamchat::event::SSEvent;
use streamchat::pipeline::{GPT3Pipeline, MistralPipeline};

fn text(v: &Value, key: &str) -> String {
    v.get(key).and_then(Value::as_str).unwrap_or_default().to_string()
}

fn opt_text(v: &Value, key: &str) -> Option<String> {
    v.get(key).and_then(Value::as_str).map(str::to_string)
}

fn gpt_delta(v: &Value) -> Option<GPT3Delta> {
    match v {
        Value::Null => None,
        Value::String(s) => Some(GPT3Delta::Simple(s.clone())),
        Value::Object(m) => match m.get("content").and_then(Value::as_str) {
            Some(c) => Some(GPT3Delta::Complex(ComplexDelta { content: c.to_string() })),
            None => Some(GPT3Delta::Empty(EmptyDelta {})),
        },
        _ => panic!("not a delta"),
    }
}

fn gpt_completion(payload: &str) -> GPT3ChatCompletion {
    let v: Value = serde_json::from_str(payload).unwrap();
    let choices = v["choices"]
        .as_array()
        .unwrap()
        .iter()
        .map(|c| GPT3Choice {
            index: c["index"].as_u64().unwrap() as usize,
            delta: c.get("delta").and_then(gpt_delta),
            finish_reason: opt_text(c, "finish_reason"),
        })
        .collect();
    GPT3ChatCompletion {
        id: text(&v, "id"),
        object: text(&v, "object"),
        created: v.get("created").and_then(Value::as_i64).unwrap_or(0),
        model: text(&v, "model"),
        choices,
    }
}

fn mistral_completion(payload: &str) -> MistralChatCompletion {
    let v: Value = serde_json::from_str(payload).unwrap();
    let choices = v["choices"]
        .as_array()
        .unwrap()
        .iter()
        .map(|c| MistralChoice {
            index: c["index"].as_u64().unwrap() as usize,
            delta: MistralMessage {
                role: opt_text(&c["delta"], "role"),
                content: text(&c["delta"], "content"),
            },
            finish_reason: opt_text(c, "finish_reason"),
        })
        .collect();
    MistralChatCompletion {
        id: text(&v, "id"),
        object: text(&v, "object"),
        created: v.get("created").and_then(Value::as_i64).unwrap_or(0),
        model: text(&v, "model"),
        choices,
    }
}

fn event(name: &str, data: &str) -> SSEvent<String> {
    SSEvent { id: None, name: name.to_string(), data: data.to_string() }
}

#[test]
fn gpt_content_delta_gives_one_chunk() {
    let c = gpt_completion(r#"{"choices":[{"index":0,"delta":{"content":"hi"}}]}"#);
    assert_eq!(GPT3Pipeline {}.chunks(&c), vec!["hi".to_string()]);
}

#[test]
fn mistral_content_delta_gives_one_chunk() {
    let c = mistral_completion(
        r#"{"choices":[{"index":0,"delta":{"role":"assistant","content":"yo"}}]}"#,
    );
    assert_eq!(MistralPipeline {}.chunks(&c), vec!["yo".to_string()]);
}

#[test]
fn gpt_choices_without_text_are_skipped_and_order_is_kept() {
    let c = gpt_completion(
        r#"{"id":"x","choices":[{"index":0,"delta":"a"},{"index":1,"delta":{}},
            {"index":2},{"index":3,"delta":{"content":"b"}},{"index":4,"delta":null}]}"#,
    );
    assert_eq!(gpt_chunks(&c), vec!["a".to_string(), "b".to_string()]);
}

#[test]
fn gpt_empty_envelope_gives_no_chunk() {
    let c = gpt_completion(r#"{"choices":[]}"#);
    assert!(gpt_chunks(&c).is_empty());
}

#[test]
fn mistral_every_choice_gives_a_chunk() {
    let c = mistral_completion(
        r#"{"choices":[{"index":0,"delta":{"content":""}},{"index":1,"delta":{"content":"z"}}]}"#,
    );
    assert_eq!(mistral_chunks(&c), vec!["".to_string(), "z".to_string()]);
}

#[test]
fn relay_decodes_messages_and_skips_other_names() {
    assert_eq!(relay_action(&event("message", "{}\n")), RelayAction::Decode);
    assert_eq!(relay_action(&event("ping", "")), RelayAction::Skip);
    assert_eq!(relay_action(&event("message", "[DONE]\n")), RelayAction::Finish);
    assert_eq!(relay_action(&event("message", "[DONE]")), RelayAction::Decode);
}
