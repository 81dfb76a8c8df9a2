//! The incremental event-stream decoder: bytes arrive in reads of any size,
//! complete lines become events, and the unterminated tail of the text is
//! carried over to the next read.

use vstd::prelude::*;
use vstd::std_specs::iter::IteratorSpec;
use vstd::utf8::{decode_utf8, pop_first_scalar, valid_first_scalar, valid_utf8, valid_utf8_concat};
use crate::event::{EventModel, SSEvent, line_event, parse_line};
use crate::text::utf8_to_string;

verus! {

/// A line without one trailing carriage return.
pub open spec fn strip_cr(l: Seq<char>) -> Seq<char> {
    if l.len() > 0 && l.last() == '\r' {
        l.drop_last()
    } else {
        l
    }
}

/// The events (zero or one) that a complete line yields.
pub open spec fn events_of_line(l: Seq<char>) -> Seq<EventModel> {
    match line_event(strip_cr(l)) {
        Some(e) => seq![e],
        None => Seq::empty(),
    }
}

/// Decoding `text` after the unterminated line `pending`: the events of every
/// line that a `'\n'` completes, in order, and the new unterminated tail.
pub open spec fn scan(pending: Seq<char>, text: Seq<char>) -> (Seq<EventModel>, Seq<char>)
    decreases text.len(),
{
    if text.len() == 0 {
        (Seq::empty(), pending)
    } else {
        let (events, rest) = scan(pending, text.drop_last());
        if text.last() == '\n' {
            (events + events_of_line(rest), Seq::empty())
        } else {
            (events, rest.push(text.last()))
        }
    }
}

/// One read of raw bytes: text that is not well-formed UTF-8 is dropped
/// whole and leaves the pending line as it was.
pub open spec fn feed_bytes(pending: Seq<char>, bytes: Seq<u8>) -> (Seq<EventModel>, Seq<char>) {
    if valid_utf8(bytes) {
        scan(pending, decode_utf8(bytes))
    } else {
        (Seq::empty(), pending)
    }
}

/// Several reads in turn: the events of each, concatenated, and the final
/// pending line.
pub open spec fn feed_all(pending: Seq<char>, reads: Seq<Seq<u8>>) -> (Seq<EventModel>, Seq<char>)
    decreases reads.len(),
{
    if reads.len() == 0 {
        (Seq::empty(), pending)
    } else {
        let (events, rest) = feed_all(pending, reads.drop_last());
        let (more, last) = feed_bytes(rest, reads.last());
        (events + more, last)
    }
}

/// All reads joined into one byte sequence.
pub open spec fn joined(reads: Seq<Seq<u8>>) -> Seq<u8>
    decreases reads.len(),
{
    if reads.len() == 0 {
        Seq::empty()
    } else {
        joined(reads.drop_last()) + reads.last()
    }
}

pub open spec fn all_valid(reads: Seq<Seq<u8>>) -> bool {
    forall|i: int| 0 <= i < reads.len() ==> valid_utf8(#[trigger] reads[i])
}

pub open spec fn events_view(v: Seq<SSEvent<String>>) -> Seq<EventModel> {
    v.map_values(|e: SSEvent<String>| e@)
}

/// Decoding `a` and then `b` gives the events and the pending line that
/// decoding the text `a + b` in one piece gives.
pub proof fn lemma_scan_split(pending: Seq<char>, a: Seq<char>, b: Seq<char>)
    ensures
        scan(pending, a + b) == ({
            let (e1, p1) = scan(pending, a);
            let (e2, p2) = scan(p1, b);
            (e1 + e2, p2)
        }),
    decreases b.len(),
{
    if b.len() == 0 {
        assert(a + b =~= a);
        let (e1, p1) = scan(pending, a);
        assert(e1 + Seq::<EventModel>::empty() =~= e1);
    } else {
        lemma_scan_split(pending, a, b.drop_last());
        assert((a + b).drop_last() =~= a + b.drop_last());
        assert((a + b).last() == b.last());
        let (e1, p1) = scan(pending, a);
        let (e2, p2) = scan(p1, b.drop_last());
        assert(e1 + e2 + events_of_line(p2) =~= e1 + (e2 + events_of_line(p2)));
    }
}

/// Well-formed UTF-8 decodes piecewise.
proof fn lemma_decode_concat(a: Seq<u8>, b: Seq<u8>)
    requires
        valid_utf8(a),
        valid_utf8(b),
    ensures
        valid_utf8(a + b),
        decode_utf8(a + b) == decode_utf8(a) + decode_utf8(b),
    decreases a.len(),
{
    valid_utf8_concat(a, b);
    if a.len() == 0 {
        assert(a + b =~= b);
        assert(decode_utf8(a) + decode_utf8(b) =~= decode_utf8(b));
    } else {
        let rest = pop_first_scalar(a);
        assert(valid_first_scalar(a));
        assert(rest.len() < a.len());
        lemma_decode_concat(rest, b);
        assert(pop_first_scalar(a + b) =~= rest + b);
        assert((a + b)[0] == a[0]);
        assert(decode_utf8(a + b) =~= decode_utf8(a) + decode_utf8(b));
    }
}

/// Split invariance: reads of well-formed UTF-8, however the bytes were cut
/// into them, give the same events and the same pending line as one read of
/// all the bytes together.
pub proof fn lemma_split_invariance(pending: Seq<char>, reads: Seq<Seq<u8>>)
    requires
        all_valid(reads),
    ensures
        valid_utf8(joined(reads)),
        feed_all(pending, reads) == feed_bytes(pending, joined(reads)),
    decreases reads.len(),
{
    if reads.len() == 0 {
        assert(decode_utf8(Seq::<u8>::empty()) =~= Seq::<char>::empty());
    } else {
        let init = reads.drop_last();
        assert(all_valid(init)) by {
            assert forall|i: int| 0 <= i < init.len() implies valid_utf8(#[trigger] init[i]) by {
                assert(init[i] == reads[i]);
            }
        }
        assert(valid_utf8(reads.last())) by {
            assert(reads.last() == reads[reads.len() - 1]);
        }
        lemma_split_invariance(pending, init);
        lemma_decode_concat(joined(init), reads.last());
        lemma_scan_split(pending, decode_utf8(joined(init)), decode_utf8(reads.last()));
    }
}

/// The decoder's state: the text after the last line terminator seen.
pub struct Decoder {
    pending: Vec<char>,
}

impl View for Decoder {
    type V = Seq<char>;

    closed spec fn view(&self) -> Seq<char> {
        self.pending@
    }
}

/// What one read of the byte source gave.
pub enum ReadOutcome {
    /// The bytes read; none means the source is exhausted.
    Data(Vec<u8>),
    /// The read failed.
    Failed,
}

/// What the reading task does next.
pub enum DecodeStep {
    /// Hand these events on, in order, and read again.
    Emit(Vec<SSEvent<String>>),
    /// Stop reading and close the event queue.
    Stop,
}

impl Decoder {
    /// A decoder with nothing pending.
    pub fn new() -> (r: Decoder)
        ensures
            r@ == Seq::<char>::empty(),
    {
        Decoder { pending: Vec::new() }
    }

    /// Decodes a piece of text: emits the event of every line that the text
    /// completes and keeps the unterminated tail.
    pub fn feed_text(&mut self, text: &str) -> (r: Vec<SSEvent<String>>)
        ensures
            (events_view(r@), final(self)@) == scan(old(self)@, text@),
    {
        let ghost start = self.pending@;
        let ghost total = text@;
        let mut out: Vec<SSEvent<String>> = Vec::new();
        let mut it = text.chars();
        let ghost k: int = 0;
        assert(total.subrange(0, 0) =~= Seq::<char>::empty());
        loop
            invariant
                0 <= k <= total.len(),
                it.remaining() == total.subrange(k, total.len() as int),
                (events_view(out@), self.pending@) == scan(start, total.subrange(0, k)),
            ensures
                (events_view(out@), self.pending@) == scan(start, total),
            decreases total.len() - k,
        {
            let next = it.next();
            match next {
                None => {
                    assert(total.subrange(k, total.len() as int).len() == 0);
                    assert(total.subrange(0, k) =~= total);
                    break;
                },
                Some(c) => {
                    assert(total[k] == c);
                    let ghost prefix = total.subrange(0, k + 1);
                    assert(prefix.drop_last() =~= total.subrange(0, k));
                    assert(prefix.last() == c);
                    if c == '\n' {
                        let n = self.pending.len();
                        if n > 0 && self.pending[n - 1] == '\r' {
                            self.pending.pop();
                        }
                        let ghost line = scan(start, total.subrange(0, k)).1;
                        assert(self.pending@ =~= strip_cr(line));
                        let ghost before = out@;
                        match parse_line(self.pending.as_slice()) {
                            Some(e) => {
                                out.push(e);
                                assert(events_view(out@) =~= events_view(before) + events_of_line(
                                    line,
                                ));
                            },
                            None => {
                                assert(events_view(out@) =~= events_view(before) + events_of_line(
                                    line,
                                ));
                            },
                        }
                        self.pending = Vec::new();
                        assert(self.pending@ =~= Seq::<char>::empty());
                    } else {
                        self.pending.push(c);
                    }
                    proof {
                        k = k + 1;
                        assert(it.remaining() =~= total.subrange(k, total.len() as int));
                    }
                },
            }
        }
        out
    }

    /// Decodes one read of raw bytes. A read that is not well-formed UTF-8 is
    /// dropped and leaves the pending line unchanged.
    pub fn feed(&mut self, bytes: Vec<u8>) -> (r: Vec<SSEvent<String>>)
        ensures
            (events_view(r@), final(self)@) == feed_bytes(old(self)@, bytes@),
    {
        match utf8_to_string(bytes) {
            Some(text) => self.feed_text(text.as_str()),
            None => {
                assert(events_view(Seq::<SSEvent<String>>::empty()) =~= Seq::<EventModel>::empty());
                Vec::new()
            },
        }
    }

    /// Decides what follows a read: a failed or empty read ends the stream
    /// (the pending line is never emitted); otherwise the events of the read
    /// are handed on.
    pub fn on_read(&mut self, outcome: ReadOutcome) -> (r: DecodeStep)
        ensures
            match outcome {
                ReadOutcome::Data(bytes) => if bytes@.len() == 0 {
                    r is Stop && final(self)@ == old(self)@
                } else {
                    match r {
                        DecodeStep::Emit(events) => (events_view(events@), final(self)@)
                            == feed_bytes(old(self)@, bytes@),
                        DecodeStep::Stop => false,
                    }
                },
                ReadOutcome::Failed => r is Stop && final(self)@ == old(self)@,
            },
    {
        match outcome {
            ReadOutcome::Data(bytes) => {
                if bytes.len() == 0 {
                    DecodeStep::Stop
                } else {
                    DecodeStep::Emit(self.feed(bytes))
                }
            },
            ReadOutcome::Failed => DecodeStep::Stop,
        }
    }
}

} // verus!
