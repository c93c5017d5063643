//! Server-sent-event framing of streamed completions: decoding the received
//! bytes, cutting them into lines and recognising the data lines.
use vstd::prelude::*;
use vstd::utf8::{decode_utf8, encode_utf8, valid_utf8};
use crate::text::{
    append_str, chars_of, char_vecs_view, lines_of, pieces, split_pieces, std_lines, strings_view,
    string_of, strip_all_cr, strip_trailing_crs, lemma_last_piece_has_no_newline, lemma_pieces_concat,
    lemma_pieces_nonempty, lemma_pieces_without_newline,
};

verus! {

/// The text `String::from_utf8_lossy` makes of some bytes.
pub uninterp spec fn utf8_lossy(bytes: Seq<u8>) -> Seq<char>;

/// `String::from_utf8_lossy`: decodes the bytes, putting U+FFFD in place of
/// each invalid sequence; valid UTF-8 is decoded as it is.
#[verifier::external_body]
pub(crate) fn text_from_bytes_lossy(bytes: &[u8]) -> (s: String)
    ensures
        s@ == utf8_lossy(bytes@),
        valid_utf8(bytes@) ==> s@ == decode_utf8(bytes@),
{
    String::from_utf8_lossy(bytes).into_owned()
}

/// The text of a received piece of a stream.
pub fn decode_received(bytes: &[u8]) -> (s: String)
    ensures
        s@ == utf8_lossy(bytes@),
        valid_utf8(bytes@) ==> s@ == decode_utf8(bytes@),
{
    text_from_bytes_lossy(bytes)
}

/// The prefix of a data line.
pub open spec fn data_prefix() -> Seq<char> {
    "data: "@
}

/// The payload that ends a stream.
pub open spec fn done_marker() -> Seq<char> {
    "[DONE]"@
}

/// What one line of an event stream holds.
#[derive(Debug)]
pub enum SseLine {
    /// `data: [DONE]`: the stream is over.
    Done,
    /// `data: <payload>`: one event, to be parsed.
    Data(String),
    /// Anything else.
    Other,
}

/// What a line of an event stream holds: lines that start with `data: ` carry
/// the rest of the line, and `[DONE]` as that rest ends the stream.
pub open spec fn sse_line_kind(line: Seq<char>) -> Option<Option<Seq<char>>> {
    if line.len() >= 6 && line.take(6) == data_prefix() {
        let payload = line.skip(6);
        if payload == done_marker() {
            Some(None)
        } else {
            Some(Some(payload))
        }
    } else {
        None
    }
}

/// Whether `c` is what `classify_sse_line` made of `line`.
pub open spec fn classified(line: Seq<char>, c: SseLine) -> bool {
    match sse_line_kind(line) {
        None => c is Other,
        Some(None) => c is Done,
        Some(Some(p)) => c matches SseLine::Data(d) && d@ == p,
    }
}

/// Recognises a data line and its payload.
pub fn classify_sse_line(line: &str) -> (c: SseLine)
    ensures
        classified(line@, c),
{
    proof {
        reveal_strlit("data: ");
        reveal_strlit("[DONE]");
    }
    let cs = chars_of(line);
    let prefix = chars_of("data: ");
    if cs.len() < 6 {
        return SseLine::Other;
    }
    assert(prefix@.len() == 6);
    let mut i: usize = 0;
    while i < 6
        invariant
            cs@ == line@,
            prefix@ == data_prefix(),
            prefix.len() == 6,
            cs.len() >= 6,
            i <= 6,
            forall|j: int| 0 <= j < i ==> cs@[j] == prefix@[j],
        decreases 6 - i,
    {
        if cs[i] != prefix[i] {
            assert(line@.take(6)[i as int] != data_prefix()[i as int]);
            return SseLine::Other;
        }
        i = i + 1;
    }
    assert(line@.take(6) =~= data_prefix());
    let mut payload: Vec<char> = Vec::new();
    let mut k: usize = 6;
    while k < cs.len()
        invariant
            cs@ == line@,
            6 <= k <= cs.len(),
            payload@ == line@.subrange(6, k as int),
        decreases cs.len() - k,
    {
        payload.push(cs[k]);
        assert(line@.subrange(6, k + 1) == line@.subrange(6, k as int).push(line@[k as int]));
        k = k + 1;
    }
    assert(payload@ == line@.skip(6));
    let text = string_of(&payload);
    let done = chars_of("[DONE]");
    if payload.len() == done.len() {
        let mut j: usize = 0;
        let mut same = true;
        while j < done.len()
            invariant
                payload.len() == done.len(),
                done@ == done_marker(),
                j <= done.len(),
                same == (forall|m: int| 0 <= m < j ==> payload@[m] == done@[m]),
            decreases done.len() - j,
        {
            if payload[j] != done[j] {
                same = false;
            }
            j = j + 1;
        }
        if same {
            assert(payload@ =~= done_marker());
            return SseLine::Done;
        }
        assert(payload@ != done_marker()) by {
            let m = choose|m: int| 0 <= m < done.len() && payload@[m] != done@[m];
        }
    }
    SseLine::Data(text)
}

/// The payloads of the data lines among the lines of a received text, the
/// end marker excepted, in order.
pub open spec fn data_payloads(lines: Seq<Seq<char>>) -> Seq<Seq<char>>
    decreases lines.len(),
{
    if lines.len() == 0 {
        Seq::empty()
    } else {
        let before = data_payloads(lines.drop_last());
        match sse_line_kind(lines.last()) {
            Some(Some(p)) => before.push(p),
            _ => before,
        }
    }
}

/// The data payloads (other than the end marker) of the lines of one received
/// piece of a stream, decoded on its own.
pub fn payloads_of_received(bytes: &[u8]) -> (out: Vec<String>)
    ensures
        strings_view(out@) == data_payloads(std_lines(utf8_lossy(bytes@))),
{
    let text = text_from_bytes_lossy(bytes);
    payloads_of_text(text.as_str())
}

/// The data payloads (other than the end marker) of the lines of a received
/// text, in order.
pub fn payloads_of_text(text: &str) -> (out: Vec<String>)
    ensures
        strings_view(out@) == data_payloads(std_lines(text@)),
{
    let lines = lines_of(text);
    let ghost lv = strings_view(lines@);
    let mut out: Vec<String> = Vec::new();
    for i in 0..lines.len()
        invariant
            lv == strings_view(lines@),
            strings_view(out@) == data_payloads(lv.take(i as int)),
    {
        assert(lv.take(i + 1).drop_last() == lv.take(i as int));
        assert(lv.take(i + 1).last() == lines@[i as int]@);
        match classify_sse_line(lines[i].as_str()) {
            SseLine::Data(p) => {
                let ghost old_out = out@;
                out.push(p);
                assert(strings_view(out@) =~= strings_view(old_out).push(p@));
            },
            _ => {},
        }
    }
    assert(lv.take(lines.len() as int) == lv);
    out
}

/// Text received but not yet ended by a line feed; lines of a stream may be
/// split across the pieces in which it arrives.
pub struct SseLineBuffer {
    pending: String,
}

impl View for SseLineBuffer {
    type V = Seq<char>;

    closed spec fn view(&self) -> Seq<char> {
        self.pending@
    }
}

/// The complete lines of `s`, each without its trailing carriage returns.
pub open spec fn complete_lines(s: Seq<char>) -> Seq<Seq<char>> {
    pieces(s).drop_last().map_values(|l: Seq<char>| strip_all_cr(l))
}

impl SseLineBuffer {
    /// An empty buffer.
    pub fn new() -> (b: SseLineBuffer)
        ensures
            b@ == Seq::<char>::empty(),
    {
        SseLineBuffer { pending: String::new() }
    }

    /// Adds a received piece of the stream and takes out every line it
    /// completes; what follows the last line feed stays buffered.
    pub fn feed(&mut self, bytes: &[u8]) -> (lines: Vec<String>)
        ensures
            strings_view(lines@) == complete_lines(old(self)@ + utf8_lossy(bytes@)),
            final(self)@ == pieces(old(self)@ + utf8_lossy(bytes@)).last(),
            valid_utf8(bytes@) ==> strings_view(lines@) == complete_lines(old(self)@ + decode_utf8(bytes@)),
            valid_utf8(bytes@) ==> final(self)@ == pieces(old(self)@ + decode_utf8(bytes@)).last(),
    {
        let text = text_from_bytes_lossy(bytes);
        self.feed_text(text.as_str())
    }

    /// Adds received text and takes out every line it completes; what follows
    /// the last line feed stays buffered.
    pub fn feed_text(&mut self, text: &str) -> (lines: Vec<String>)
        ensures
            strings_view(lines@) == complete_lines(old(self)@ + text@),
            final(self)@ == pieces(old(self)@ + text@).last(),
    {
        append_str(&mut self.pending, text);
        let ghost all = self.pending@;
        let cs = chars_of(self.pending.as_str());
        let (done, tail) = split_pieces(&cs);
        let mut lines: Vec<String> = Vec::new();
        for i in 0..done.len()
            invariant
                pieces(all).len() >= 1,
                char_vecs_view(done@) == pieces(all).drop_last(),
                strings_view(lines@) == pieces(all).drop_last().take(i as int).map_values(
                    |l: Seq<char>| strip_all_cr(l),
                ),
        {
            let trimmed = strip_trailing_crs(&done[i]);
            let line = string_of(&trimmed);
            let ghost old_lines = lines@;
            lines.push(line);
            assert(strings_view(lines@) =~= strings_view(old_lines).push(line@));
            assert(pieces(all).drop_last().take(i + 1) == pieces(all).drop_last().take(i as int).push(
                pieces(all).drop_last()[i as int],
            ));
            assert(pieces(all).drop_last().take(i + 1).map_values(|l: Seq<char>| strip_all_cr(l))
                =~= pieces(all).drop_last().take(i as int).map_values(
                |l: Seq<char>| strip_all_cr(l),
            ).push(strip_all_cr(pieces(all).drop_last()[i as int])));
        }
        assert(pieces(all).drop_last().take(done.len() as int) == pieces(all).drop_last());
        self.pending = string_of(&tail);
        lines
    }
}

/// A stream delivered in two parts is cut into the same lines as when it
/// arrives at once: the lines completed by the first part, followed by those
/// completed by the second, are the lines of the whole, and the same text is
/// left waiting for its line feed.
pub proof fn law_split_delivery(pending: Seq<char>, x: Seq<char>, y: Seq<char>)
    ensures
        complete_lines(pending + x) + complete_lines(pieces(pending + x).last() + y)
            == complete_lines(pending + x + y),
        pieces(pieces(pending + x).last() + y).last() == pieces(pending + x + y).last(),
{
    let px = pending + x;
    lemma_pieces_concat(px, y);
    lemma_pieces_nonempty(px);
    let l = pieces(px).last();
    lemma_pieces_nonempty(l + y);
    let a = pieces(px).drop_last();
    let b = pieces(l + y);
    assert(pieces(px + y) == a + b);
    assert((a + b).drop_last() =~= a + b.drop_last());
    assert((a + b).last() == b.last());
    assert((a + b.drop_last()).map_values(|t: Seq<char>| strip_all_cr(t)) =~= a.map_values(
        |t: Seq<char>| strip_all_cr(t),
    ) + b.drop_last().map_values(|t: Seq<char>| strip_all_cr(t)));
}


/// The lines that each of the received texts `parts` completes, in turn, when
/// they are fed to a buffer that holds `pending`.
pub open spec fn fed_lines(pending: Seq<char>, parts: Seq<Seq<char>>) -> Seq<Seq<Seq<char>>>
    decreases parts.len(),
{
    if parts.len() == 0 {
        Seq::empty()
    } else {
        seq![complete_lines(pending + parts[0])] + fed_lines(
            pieces(pending + parts[0]).last(),
            parts.drop_first(),
        )
    }
}

/// What the buffer holds after the texts `parts` were fed to it.
pub open spec fn fed_rest(pending: Seq<char>, parts: Seq<Seq<char>>) -> Seq<char>
    decreases parts.len(),
{
    if parts.len() == 0 {
        pending
    } else {
        fed_rest(pieces(pending + parts[0]).last(), parts.drop_first())
    }
}

/// A stream fed to a buffer in any number of parts gives up each of its
/// complete lines once, in order: the lines taken out after each part, put
/// together, are the complete lines of the whole text, and what is left is the
/// text after its last line feed.
pub proof fn law_fed_lines_cover_the_stream(pending: Seq<char>, parts: Seq<Seq<char>>)
    requires
        !pending.contains('\n'),
    ensures
        fed_lines(pending, parts).flatten() == complete_lines(pending + parts.flatten()),
        fed_rest(pending, parts) == pieces(pending + parts.flatten()).last(),
    decreases parts.len(),
{
    if parts.len() == 0 {
        lemma_pieces_without_newline(pending);
        assert(pending + parts.flatten() =~= pending);
        assert(complete_lines(pending) =~= Seq::<Seq<char>>::empty());
    } else {
        let p0 = parts[0];
        let rest = parts.drop_first();
        let left = pieces(pending + p0).last();
        lemma_last_piece_has_no_newline(pending + p0);
        law_fed_lines_cover_the_stream(left, rest);
        law_split_delivery(pending, p0, rest.flatten());
        assert(parts.flatten() == p0 + rest.flatten());
        assert(pending + parts.flatten() =~= pending + p0 + rest.flatten());
        let head = seq![complete_lines(pending + p0)];
        assert(fed_lines(pending, parts) == head + fed_lines(left, rest));
        assert((head + fed_lines(left, rest)).flatten() =~= complete_lines(pending + p0) + fed_lines(
            left,
            rest,
        ).flatten()) by {
            let whole = head + fed_lines(left, rest);
            assert(whole.first() == complete_lines(pending + p0));
            assert(whole.drop_first() =~= fed_lines(left, rest));
        }
    }
}


proof fn lemma_encode_concat(a: Seq<char>, b: Seq<char>)
    ensures
        encode_utf8(a + b) == encode_utf8(a) + encode_utf8(b),
    decreases a.len(),
{
    if a.len() == 0 {
        assert(a + b =~= b);
        assert(encode_utf8(a) + encode_utf8(b) =~= encode_utf8(b));
    } else {
        lemma_encode_concat(a.drop_first(), b);
        assert((a + b).drop_first() =~= a.drop_first() + b);
        assert((a + b)[0] == a[0]);
        assert(encode_utf8(a + b) =~= encode_utf8(a) + encode_utf8(b));
    }
}

/// Valid UTF-8 pieces decode piece by piece.
proof fn lemma_decode_concat(a: Seq<u8>, b: Seq<u8>)
    requires
        valid_utf8(a),
        valid_utf8(b),
    ensures
        valid_utf8(a + b),
        decode_utf8(a + b) == decode_utf8(a) + decode_utf8(b),
{
    vstd::utf8::valid_utf8_concat(a, b);
    vstd::utf8::decode_utf8_encode_utf8(a);
    vstd::utf8::decode_utf8_encode_utf8(b);
    lemma_encode_concat(decode_utf8(a), decode_utf8(b));
    vstd::utf8::encode_utf8_decode_utf8(decode_utf8(a) + decode_utf8(b));
}

/// The texts of received byte pieces, each decoded on its own.
pub open spec fn decoded_parts(parts: Seq<Seq<u8>>) -> Seq<Seq<char>> {
    parts.map_values(|p: Seq<u8>| decode_utf8(p))
}

proof fn lemma_decode_flatten(parts: Seq<Seq<u8>>)
    requires
        forall|i: int| 0 <= i < parts.len() ==> valid_utf8(#[trigger] parts[i]),
    ensures
        valid_utf8(parts.flatten()),
        decode_utf8(parts.flatten()) == decoded_parts(parts).flatten(),
    decreases parts.len(),
{
    if parts.len() == 0 {
        assert(decoded_parts(parts).flatten() =~= Seq::<char>::empty());
        assert(decode_utf8(Seq::<u8>::empty()) =~= Seq::<char>::empty());
    } else {
        let rest = parts.drop_first();
        assert forall|i: int| 0 <= i < rest.len() implies valid_utf8(#[trigger] rest[i]) by {
            assert(rest[i] == parts[i + 1]);
        }
        lemma_decode_flatten(rest);
        assert(valid_utf8(parts[0]));
        lemma_decode_concat(parts[0], rest.flatten());
        assert(decoded_parts(parts).drop_first() =~= decoded_parts(rest));
        assert(decoded_parts(parts).first() == decode_utf8(parts[0]));
    }
}

/// A stream of valid UTF-8 that arrives in byte pieces cut on character
/// boundaries gives up each of its complete lines once, in order, whatever
/// the cuts: the lines taken out after each piece, put together, are the
/// complete lines of the whole decoded stream, and what is left is the text
/// after its last line feed.
pub proof fn law_fed_bytes_cover_the_stream(parts: Seq<Seq<u8>>)
    requires
        forall|i: int| 0 <= i < parts.len() ==> valid_utf8(#[trigger] parts[i]),
    ensures
        valid_utf8(parts.flatten()),
        fed_lines(Seq::empty(), decoded_parts(parts)).flatten() == complete_lines(decode_utf8(parts.flatten())),
        fed_rest(Seq::empty(), decoded_parts(parts)) == pieces(decode_utf8(parts.flatten())).last(),
{
    lemma_decode_flatten(parts);
    law_fed_lines_cover_the_stream(Seq::empty(), decoded_parts(parts));
    assert(Seq::<char>::empty() + decoded_parts(parts).flatten() =~= decoded_parts(parts).flatten());
}

} // verus!
