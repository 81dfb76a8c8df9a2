use streamchat::adapter::{relay_action, RelayAction};
use streamchat::decoder::{DecodeStep, Decoder, ReadOutcome};
use streamchat::event::{parse_line, SSEvent};

fn feed_str(d: &mut Decoder, s: &str) -> Vec<SSEvent<String>> {
    d.feed(s.as_bytes().to_vec())
}

fn summary(events: &[SSEvent<String>]) -> Vec<(Option<String>, String, String)> {
    events
        .iter()
        .map(|e| (e.id.clone(), e.name.clone(), e.data.clone()))
        .collect()
}

#[test]
fn done_line_yields_done_payload_and_finishes() {
    let mut d = Decoder::new();
    let events = feed_str(&mut d, "data: [DONE]\n");
    assert_eq!(events.len(), 1);
    assert_eq!(events[0].data, "[DONE]\n");
    assert_eq!(events[0].name, "message");
    assert_eq!(events[0].id, None);
    assert_eq!(relay_action(&events[0]), RelayAction::Finish);
}

#[test]
fn bare_id_line_is_suppressed() {
    let mut d = Decoder::new();
    let events = feed_str(&mut d, "id: 42\n\n");
    assert!(events.is_empty());
}

#[test]
fn event_and_data_lines_give_two_events() {
    let mut d = Decoder::new();
    let events = feed_str(&mut d, "event: ping\ndata: hello\n");
    assert_eq!(
        summary(&events),
        vec![
            (None, "ping".to_string(), "".to_string()),
            (None, "message".to_string(), "hello\n".to_string()),
        ]
    );
}

#[test]
fn split_reads_match_one_read() {
    let text = "event: ping\r\ndata: {\"a\": \"é\"}\n\nid: 7\ndata:x\nretry: 3\ndata\nda";
    let mut whole = Decoder::new();
    let expected = summary(&feed_str(&mut whole, text));
    assert_eq!(expected.len(), 4);
    let bytes = text.as_bytes();
    for cut in 0..=bytes.len() {
        if !text.is_char_boundary(cut) {
            continue;
        }
        let mut d = Decoder::new();
        let mut got = summary(&d.feed(bytes[..cut].to_vec()));
        got.extend(summary(&d.feed(bytes[cut..].to_vec())));
        assert_eq!(got, expected, "cut at {}", cut);
    }
    let mut d = Decoder::new();
    let mut got = Vec::new();
    for (i, _) in text.char_indices() {
        let end = text[i..].chars().next().map(|c| i + c.len_utf8()).unwrap();
        got.extend(summary(&d.feed(bytes[i..end].to_vec())));
    }
    assert_eq!(got, expected);
}

#[test]
fn partial_line_waits_for_its_terminator() {
    let mut d = Decoder::new();
    assert!(feed_str(&mut d, "data: hel").is_empty());
    let events = feed_str(&mut d, "lo\n");
    assert_eq!(summary(&events), vec![(None, "message".to_string(), "hello\n".to_string())]);
}

#[test]
fn invalid_utf8_read_is_dropped() {
    let mut d = Decoder::new();
    assert!(feed_str(&mut d, "data: a").is_empty());
    assert!(d.feed(vec![0xff, b'\n']).is_empty());
    let events = feed_str(&mut d, "b\n");
    assert_eq!(summary(&events), vec![(None, "message".to_string(), "ab\n".to_string())]);
}

#[test]
fn split_multibyte_character_is_lost() {
    let mut d = Decoder::new();
    let bytes = "data: é\n".as_bytes();
    assert!(d.feed(bytes[..7].to_vec()).is_empty());
    let events = d.feed(bytes[7..].to_vec());
    assert!(events.is_empty());
}

#[test]
fn carriage_return_before_newline_is_removed() {
    let mut d = Decoder::new();
    let events = feed_str(&mut d, "data: x\r\n");
    assert_eq!(events[0].data, "x\n");
}

#[test]
fn value_strips_one_colon_space_and_white_space() {
    let mut d = Decoder::new();
    let events = feed_str(&mut d, "data:   x\ndata:y\ndata: : z\ndata\n");
    let data: Vec<String> = events.iter().map(|e| e.data.clone()).collect();
    assert_eq!(data, vec!["x\n", ":y\n", ": z\n", "\n"]);
}

#[test]
fn unknown_fields_and_default_name_are_suppressed() {
    let mut d = Decoder::new();
    assert!(feed_str(&mut d, "retry: 5\nevent: message\n: comment\n\n").is_empty());
}

#[test]
fn id_with_data_on_another_line_stays_apart() {
    let mut d = Decoder::new();
    let events = feed_str(&mut d, "id: 1\ndata: a\nevent: x\n");
    assert_eq!(
        summary(&events),
        vec![
            (None, "message".to_string(), "a\n".to_string()),
            (None, "x".to_string(), "".to_string()),
        ]
    );
}

#[test]
fn parse_line_reads_id() {
    assert!(parse_line(&['i', 'd', ':', ' ', '4', '2']).is_none());
    let e = parse_line(&['e', 'v', 'e', 'n', 't', ':', ' ', 'p']).unwrap();
    assert_eq!(e.name, "p");
    assert_eq!(e.id, None);
    assert_eq!(e.data, "");
}

#[test]
fn read_outcomes_decide_the_next_step() {
    let mut d = Decoder::new();
    assert!(matches!(d.on_read(ReadOutcome::Failed), DecodeStep::Stop));
    assert!(matches!(d.on_read(ReadOutcome::Data(Vec::new())), DecodeStep::Stop));
    match d.on_read(ReadOutcome::Data(b"data: q\n".to_vec())) {
        DecodeStep::Emit(events) => assert_eq!(events[0].data, "q\n"),
        DecodeStep::Stop => panic!("expected events"),
    }
}
