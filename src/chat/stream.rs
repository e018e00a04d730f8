use vstd::prelude::*;
use vstd::utf8::{decode_utf8, valid_utf8};

use super::{is_heartbeat, ChatCompletionChunkResponse};
use crate::text::{has_prefix, starts_with};
use crate::ApiRequestError;

verus! {

/// The prefix that introduces the payload of a server-sent event line.
pub open spec fn data_prefix() -> Seq<char> {
    seq!['d', 'a', 't', 'a', ':', ' ']
}

/// A blank line (`"\n\n"`) starts at position `i` of `s`.
pub open spec fn blank_at(s: Seq<char>, i: int) -> bool {
    0 <= i && i + 1 < s.len() && s[i] == '\n' && s[i + 1] == '\n'
}

/// The pieces of `s[start..]` between blank lines, scanning from `i` on, where no blank
/// line starts in `s[start..i]`: the rule of `str::split("\n\n")`.
pub open spec fn split_blank_from(s: Seq<char>, start: int, i: int) -> Seq<Seq<char>>
    recommends
        0 <= start <= i <= s.len(),
    decreases s.len() - i,
{
    if i + 1 >= s.len() {
        seq![s.subrange(start, s.len() as int)]
    } else if blank_at(s, i) {
        seq![s.subrange(start, i)] + split_blank_from(s, i + 2, i + 2)
    } else {
        split_blank_from(s, start, i + 1)
    }
}

/// `s` cut at every blank line, left to right; the blank lines themselves are dropped.
pub open spec fn split_blank(s: Seq<char>) -> Seq<Seq<char>> {
    split_blank_from(s, 0, 0)
}

/// The characters of `s`, in order.
fn chars_of(s: &str) -> (r: Vec<char>)
    ensures
        r@ == s@,
{
    let mut r: Vec<char> = Vec::new();
    for c in it: s.chars()
        invariant
            r@ == it.seq().subrange(0, it.index() as int),
    {
        r.push(c);
    }
    r
}

/// The views of a sequence of strings.
pub open spec fn views(v: Seq<String>) -> Seq<Seq<char>> {
    v.map_values(|x: String| x@)
}

/// The pieces of `s` between blank lines, as `split_blank` gives them.
fn split_blank_lines(s: &str) -> (r: Vec<String>)
    ensures
        views(r@) == split_blank(s@),
{
    let cs = chars_of(s);
    let n = cs.len();
    let mut pieces: Vec<String> = Vec::new();
    let mut start: usize = 0;
    let mut i: usize = 0;
    while n - i > 1
        invariant
            cs@ == s@,
            n == s@.len(),
            start <= i <= n,
            views(pieces@) + split_blank_from(s@, start as int, i as int) == split_blank(s@),
        decreases n - i,
    {
        if cs[i] == '\n' && cs[i + 1] == '\n' {
            let piece = s.substring_char(start, i).to_owned();
            proof {
                let rest = split_blank_from(s@, i + 2, i + 2);
                assert(views(pieces@.push(piece)) =~= views(pieces@).push(piece@));
                assert(views(pieces@) + (seq![piece@] + rest) =~= views(pieces@).push(piece@)
                    + rest);
            }
            pieces.push(piece);
            i = i + 2;
            start = i;
        } else {
            i = i + 1;
        }
    }
    let last = s.substring_char(start, n).to_owned();
    proof {
        assert(views(pieces@.push(last)) =~= views(pieces@) + seq![last@]);
    }
    pieces.push(last);
    pieces
}

/// The sub-message that marks the end of the stream: `data: [DONE]`.
pub open spec fn sentinel_line() -> Seq<char> {
    data_prefix() + seq!['[', 'D', 'O', 'N', 'E', ']']
}

/// The payload that one sub-message of a data frame carries: its text after the `data: `
/// prefix, unless it is empty, the sentinel, or lacks the prefix.
pub open spec fn payload_of(piece: Seq<char>) -> Option<Seq<char>> {
    if piece.len() > 0 && piece != sentinel_line() && has_prefix(piece, data_prefix()) {
        Some(piece.subrange(data_prefix().len() as int, piece.len() as int))
    } else {
        None
    }
}

/// The payloads of the sub-messages `pieces`, in order.
pub open spec fn payloads(pieces: Seq<Seq<char>>) -> Seq<Seq<char>>
    decreases pieces.len(),
{
    if pieces.len() == 0 {
        seq![]
    } else {
        let rest = payloads(pieces.drop_last());
        match payload_of(pieces.last()) {
            Some(p) => rest.push(p),
            None => rest,
        }
    }
}

/// Payloads as candidate items.
pub open spec fn as_candidates(ps: Seq<Seq<char>>) -> Seq<Result<Seq<char>, Seq<char>>> {
    ps.map_values(|p: Seq<char>| Ok::<Seq<char>, Seq<char>>(p))
}

/// The message of the error that a frame without the `data: ` prefix becomes.
pub open spec fn invalid_event_message(text: Seq<char>) -> Seq<char> {
    seq!['I', 'n', 'v', 'a', 'l', 'i', 'd', ' ', 'e', 'v', 'e', 'n', 't', ' ', 'd', 'a', 't', 'a',
        ':', ' '] + text
}

/// What a decoded text frame stands for, item by item: `Ok` for a candidate payload, `Err`
/// for a malformed-event message.
pub open spec fn frame_items(text: Seq<char>) -> Seq<Result<Seq<char>, Seq<char>>> {
    if text.len() == 0 {
        seq![]
    } else if has_prefix(text, data_prefix()) {
        as_candidates(payloads(split_blank(text)))
    } else {
        seq![Err(invalid_event_message(text))]
    }
}

/// A text frame holds the end-of-stream sentinel.
pub open spec fn frame_done(text: Seq<char>) -> bool {
    has_prefix(text, data_prefix()) && split_blank(text).contains(sentinel_line())
}

/// `r` is the item that `m` describes.
pub open spec fn item_matches(
    r: Result<String, ApiRequestError>,
    m: Result<Seq<char>, Seq<char>>,
) -> bool {
    match (r, m) {
        (Ok(s), Ok(p)) => s@ == p,
        (Err(ApiRequestError::Stream(e)), Err(msg)) => e@ == msg,
        _ => false,
    }
}

/// `rs` are the items that `ms` describe, one for one.
pub open spec fn items_match(
    rs: Seq<Result<String, ApiRequestError>>,
    ms: Seq<Result<Seq<char>, Seq<char>>>,
) -> bool {
    rs.len() == ms.len() && forall|i: int| 0 <= i < rs.len() ==> item_matches(rs[i], ms[i])
}

/// The candidate payloads of the sub-messages `pieces`, and whether one was the sentinel.
fn collect_payloads(pieces: &Vec<String>) -> (r: (Vec<Result<String, ApiRequestError>>, bool))
    ensures
        items_match(r.0@, as_candidates(payloads(views(pieces@)))),
        r.1 == views(pieces@).contains(sentinel_line()),
{
    let prefix = "data: ";
    let sentinel_text = "data: [DONE]";
    let sentinel = sentinel_text.to_owned();
    proof {
        reveal_strlit("data: ");
        reveal_strlit("data: [DONE]");
        assert(prefix@ =~= data_prefix());
        assert(sentinel_text@ =~= sentinel_line());
    }
    let mut items: Vec<Result<String, ApiRequestError>> = Vec::new();
    let mut done = false;
    let mut i: usize = 0;
    while i < pieces.len()
        invariant
            prefix@ == data_prefix(),
            sentinel@ == sentinel_line(),
            i <= pieces.len(),
            items_match(
                items@,
                as_candidates(payloads(views(pieces@).subrange(0, i as int))),
            ),
            done == views(pieces@).subrange(0, i as int).contains(sentinel_line()),
        decreases pieces.len() - i,
    {
        let piece = &pieces[i];
        let ghost before = views(pieces@).subrange(0, i as int);
        let ghost after = views(pieces@).subrange(0, i + 1);
        proof {
            assert(after.drop_last() =~= before);
            assert(after.last() == piece@);
        }
        let is_sentinel = piece.eq(&sentinel);
        if is_sentinel {
            done = true;
        } else if starts_with(piece.as_str(), prefix) {
            let len = piece.as_str().unicode_len();
            let payload = piece.as_str().substring_char(6, len).to_owned();
            items.push(Ok(payload));
            proof {
                let ms = as_candidates(payloads(after));
                assert(payload_of(piece@) == Some(payload@));
                assert(payloads(after) == payloads(before).push(payload@));
                assert forall|j: int| 0 <= j < items@.len() implies item_matches(
                    items@[j],
                    ms[j],
                ) by {
                    if j < items@.len() - 1 {
                        assert(ms[j] == as_candidates(payloads(before))[j]);
                    }
                }
            }
        } else {
            proof {
                assert(payloads(after) == payloads(before));
            }
        }
        proof {
            assert(after =~= before.push(piece@));
            assert(after.contains(sentinel_line()) == (before.contains(sentinel_line()) || piece@
                == sentinel_line())) by {
                if piece@ == sentinel_line() {
                    assert(after[i as int] == piece@);
                }
                if after.contains(sentinel_line()) {
                    let k = choose|k: int| 0 <= k < after.len() && after[k] == sentinel_line();
                    if k < i {
                        assert(before[k] == sentinel_line());
                    }
                }
            }
        }
        i = i + 1;
    }
    proof {
        assert(views(pieces@).subrange(0, pieces@.len() as int) =~= views(pieces@));
    }
    (items, done)
}

/// What one frame of the event stream came to.
#[derive(Debug)]
pub struct DecodedFrame {
    /// Candidate payloads (`Ok`) and malformed-event errors, in arrival order.
    pub items: Vec<Result<String, ApiRequestError>>,
    /// The frame held the `[DONE]` sentinel: the stream ends once these items are out.
    pub done: bool,
}

/// Classifies one text frame of the event stream.
///
/// An empty frame holds nothing. A frame that begins with `data: ` is cut at its blank lines;
/// each sub-message that carries the prefix gives its payload, except the sentinel
/// `data: [DONE]`, which ends the stream. Any other frame is one malformed-event error whose
/// message holds the frame verbatim.
pub fn decode_text(text: &str) -> (r: DecodedFrame)
    ensures
        items_match(r.items@, frame_items(text@)),
        r.done == frame_done(text@),
{
    let prefix = "data: ";
    proof {
        reveal_strlit("data: ");
        assert(prefix@ =~= data_prefix());
    }
    if text.unicode_len() == 0 {
        DecodedFrame { items: Vec::new(), done: false }
    } else if starts_with(text, prefix) {
        let pieces = split_blank_lines(text);
        let (items, done) = collect_payloads(&pieces);
        DecodedFrame { items, done }
    } else {
        let head = "Invalid event data: ";
        proof {
            reveal_strlit("Invalid event data: ");
        }
        let mut message = head.to_owned();
        message.append(text);
        assert(message@ =~= invalid_event_message(text@));
        let mut items: Vec<Result<String, ApiRequestError>> = Vec::new();
        items.push(Err(ApiRequestError::Stream(message)));
        DecodedFrame { items, done: false }
    }
}

/// std's error for bytes that are not UTF-8, turned into a stream error by its text.
#[verifier::external_type_specification]
#[verifier::external_body]
pub struct ExFromUtf8Error(std::string::FromUtf8Error);

/// Relies on std's `String::from_utf8`: `Ok` exactly when the bytes are valid UTF-8, and then
/// the text they encode.
#[verifier::external_body]
fn utf8_text(bytes: Vec<u8>) -> (r: Result<String, std::string::FromUtf8Error>)
    ensures
        r is Ok <==> valid_utf8(bytes@),
        r matches Ok(s) ==> s@ == decode_utf8(bytes@),
{
    String::from_utf8(bytes)
}

/// Decodes one raw frame of the event stream: as UTF-8 text, then as `decode_text` says.
///
/// Bytes that are not UTF-8 become one stream error, and the stream goes on: a bad frame is
/// treated like a malformed event, not like a broken connection.
pub fn decode_frame(frame: Vec<u8>) -> (r: DecodedFrame)
    ensures
        valid_utf8(frame@) ==> items_match(r.items@, frame_items(decode_utf8(frame@))),
        valid_utf8(frame@) ==> r.done == frame_done(decode_utf8(frame@)),
        !valid_utf8(frame@) ==> !r.done && r.items@.len() == 1
            && r.items@[0] matches Err(ApiRequestError::Stream(_)),
{
    match utf8_text(frame) {
        Ok(text) => decode_text(text.as_str()),
        Err(e) => {
            let mut items: Vec<Result<String, ApiRequestError>> = Vec::new();
            items.push(Err(ApiRequestError::Stream(e.to_string())));
            DecodedFrame { items, done: false }
        },
    }
}

/// Where a stream stands: `Idle`, then `Connecting` once the request is out, `Streaming` while
/// frames arrive, and at last `Done` (sentinel or close) or `Errored` (transport failure).
#[derive(Debug, Clone, Copy, PartialEq, Eq, Structural)]
pub enum StreamPhase {
    Idle,
    Connecting,
    Streaming,
    Done,
    Errored,
}

/// What the transport reports while a stream is open.
#[derive(Debug)]
pub enum TransportEvent {
    /// The server accepted the request; frames follow.
    Opened,
    /// One raw frame of the response body.
    Frame(Vec<u8>),
    /// The connection failed; the text describes how.
    Failed(String),
    /// The server closed the connection.
    Closed,
}

/// The phase that follows `phase` on `event`.
pub open spec fn next_phase(phase: StreamPhase, event: TransportEvent) -> StreamPhase {
    match event {
        TransportEvent::Opened => StreamPhase::Streaming,
        TransportEvent::Frame(bytes) => {
            if valid_utf8(bytes@) && frame_done(decode_utf8(bytes@)) {
                StreamPhase::Done
            } else {
                StreamPhase::Streaming
            }
        },
        TransportEvent::Failed(_) => StreamPhase::Errored,
        TransportEvent::Closed => StreamPhase::Done,
    }
}

/// The decisions of one streamed chat completion: which items a transport event yields,
/// which decoded chunks reach the caller, and when the stream is over.
///
/// The caller runs the connection: it calls `start` when it sends the request, hands each
/// transport event to `on_event`, decodes every `Ok` payload that comes back as a chunk and
/// passes the outcome through `accept`, and stops once `is_finished` holds.
#[derive(Debug)]
pub struct ChatStream {
    phase: StreamPhase,
    suppress_heartbeats: bool,
}

impl ChatStream {
    /// The stream's phase.
    pub closed spec fn spec_phase(&self) -> StreamPhase {
        self.phase
    }

    /// Whether heartbeat chunks are kept from the caller.
    pub closed spec fn spec_suppresses(&self) -> bool {
        self.suppress_heartbeats
    }

    /// A stream that has not started; `suppress_heartbeats` sets the filtering policy.
    pub fn new(suppress_heartbeats: bool) -> (r: ChatStream)
        ensures
            r.spec_phase() == StreamPhase::Idle,
            r.spec_suppresses() == suppress_heartbeats,
    {
        ChatStream { phase: StreamPhase::Idle, suppress_heartbeats }
    }

    /// The stream's phase.
    pub fn phase(&self) -> (r: StreamPhase)
        ensures
            r == self.spec_phase(),
    {
        self.phase
    }

    /// Whether heartbeat chunks are kept from the caller.
    pub fn suppresses_heartbeats(&self) -> (r: bool)
        ensures
            r == self.spec_suppresses(),
    {
        self.suppress_heartbeats
    }

    /// The stream is over: the sentinel came, the connection closed, or it failed.
    pub fn is_finished(&self) -> (r: bool)
        ensures
            r == (self.spec_phase() == StreamPhase::Done || self.spec_phase()
                == StreamPhase::Errored),
    {
        self.phase == StreamPhase::Done || self.phase == StreamPhase::Errored
    }

    /// The request has been sent.
    pub fn start(&mut self)
        requires
            old(self).spec_phase() == StreamPhase::Idle,
        ensures
            final(self).spec_phase() == StreamPhase::Connecting,
            final(self).spec_suppresses() == old(self).spec_suppresses(),
    {
        self.phase = StreamPhase::Connecting;
    }

    /// Takes one transport event and returns the items it yields, in order: candidate payloads
    /// (`Ok`) and stream errors. A failed transport yields its error once and ends the stream;
    /// the sentinel or a close ends it gracefully; malformed frames are reported inline and the
    /// stream goes on.
    pub fn on_event(&mut self, event: TransportEvent) -> (items: Vec<
        Result<String, ApiRequestError>,
    >)
        requires
            old(self).spec_phase() == StreamPhase::Connecting || old(self).spec_phase()
                == StreamPhase::Streaming,
        ensures
            final(self).spec_phase() == next_phase(old(self).spec_phase(), event),
            final(self).spec_suppresses() == old(self).spec_suppresses(),
            match event {
                TransportEvent::Opened => items@.len() == 0,
                TransportEvent::Frame(bytes) => {
                    &&& valid_utf8(bytes@) ==> items_match(items@, frame_items(decode_utf8(bytes@)))
                    &&& !valid_utf8(bytes@) ==> items@.len() == 1 && items@[0] matches Err(
                        ApiRequestError::Stream(_),
                    )
                },
                TransportEvent::Failed(msg) => items_match(items@, seq![Err(msg@)]),
                TransportEvent::Closed => items@.len() == 0,
            },
    {
        match event {
            TransportEvent::Opened => {
                self.phase = StreamPhase::Streaming;
                Vec::new()
            },
            TransportEvent::Frame(bytes) => {
                let decoded = decode_frame(bytes);
                self.phase = if decoded.done {
                    StreamPhase::Done
                } else {
                    StreamPhase::Streaming
                };
                decoded.items
            },
            TransportEvent::Failed(msg) => {
                self.phase = StreamPhase::Errored;
                let mut items: Vec<Result<String, ApiRequestError>> = Vec::new();
                items.push(Err(ApiRequestError::Stream(msg)));
                items
            },
            TransportEvent::Closed => {
                self.phase = StreamPhase::Done;
                Vec::new()
            },
        }
    }

    /// What reaches the caller of one decoded payload: a decode failure always, as a
    /// `SerdeError`; a chunk unless it is a heartbeat and heartbeats are suppressed.
    pub fn accept(&self, parsed: Result<ChatCompletionChunkResponse, serde_json::Error>) -> (r:
        Option<Result<ChatCompletionChunkResponse, ApiRequestError>>)
        ensures
            match parsed {
                Ok(chunk) => if self.spec_suppresses() && is_heartbeat(chunk) {
                    r is None
                } else {
                    r == Some(Ok::<ChatCompletionChunkResponse, ApiRequestError>(chunk))
                },
                Err(e) => r == Some(
                    Err::<ChatCompletionChunkResponse, ApiRequestError>(
                        ApiRequestError::SerdeError(e),
                    ),
                ),
            },
    {
        match parsed {
            Ok(chunk) => {
                if self.suppress_heartbeats && chunk.is_heartbeat() {
                    None
                } else {
                    Some(Ok(chunk))
                }
            },
            Err(e) => Some(Err(ApiRequestError::SerdeError(e))),
        }
    }
}

/// Scanning from `i` with no blank line before `k`, the first piece ends at the blank line at `k`.
proof fn lemma_scan_to_blank(s: Seq<char>, start: int, i: int, k: int)
    requires
        0 <= start <= i <= k,
        blank_at(s, k),
        forall|j: int| i <= j < k ==> !blank_at(s, j),
    ensures
        split_blank_from(s, start, i) == seq![s.subrange(start, k)] + split_blank_from(
            s,
            k + 2,
            k + 2,
        ),
    decreases k - i,
{
    if i < k {
        assert(!blank_at(s, i));
        lemma_scan_to_blank(s, start, i + 1, k);
    }
}

/// A line `line` without blank lines and not ending in a newline, followed by a blank line,
/// splits into the line itself and an empty rest.
proof fn lemma_split_single_line(line: Seq<char>)
    requires
        line.len() > 0,
        line.last() != '\n',
        forall|j: int| !blank_at(line, j),
    ensures
        split_blank(line + seq!['\n', '\n']) == seq![line, Seq::<char>::empty()],
{
    let f = line + seq!['\n', '\n'];
    let k = line.len() as int;
    assert forall|j: int| 0 <= j < k implies !blank_at(f, j) by {
        if j + 1 < k {
            assert(!blank_at(line, j));
            assert(f[j] == line[j] && f[j + 1] == line[j + 1]);
        } else {
            assert(f[j] == line.last());
        }
    }
    assert(blank_at(f, k));
    lemma_scan_to_blank(f, 0, 0, k);
    assert(f.subrange(0, k) =~= line);
    assert(f.subrange(k + 2, k + 2) =~= Seq::<char>::empty());
}

/// A frame `data: {json}` closed by a blank line, whose JSON object holds no blank line, yields
/// exactly one candidate payload, the object's text, and does not end the stream.
pub proof fn lemma_data_frame_yields_payload(json: Seq<char>)
    requires
        json.len() > 0,
        json[0] == '{',
        json.last() == '}',
        forall|j: int| !blank_at(json, j),
    ensures
        frame_items(data_prefix() + json + seq!['\n', '\n']) == seq![
            Ok::<Seq<char>, Seq<char>>(json),
        ],
        !frame_done(data_prefix() + json + seq!['\n', '\n']),
{
    let line = data_prefix() + json;
    let f = line + seq!['\n', '\n'];
    assert forall|j: int| !blank_at(line, j) by {
        if 6 <= j {
            if blank_at(line, j) {
                assert(line[j] == json[j - 6] && line[j + 1] == json[j - 5]);
                assert(blank_at(json, j - 6));
            }
        }
    }
    assert(line.last() == json.last());
    lemma_split_single_line(line);
    let pieces = seq![line, Seq::<char>::empty()];
    assert(line[6] != sentinel_line()[6]);
    assert(line != sentinel_line());
    assert(line.subrange(0, 6) =~= data_prefix());
    assert(line.subrange(6, line.len() as int) =~= json);
    assert(pieces.drop_last() =~= seq![line]);
    assert(seq![line].drop_last() =~= Seq::<Seq<char>>::empty());
    assert(payload_of(line) == Some(json));
    assert(payload_of(Seq::<char>::empty()) is None);
    assert(seq![line].last() == line);
    assert(payloads(Seq::<Seq<char>>::empty()) == Seq::<Seq<char>>::empty());
    assert(payloads(seq![line]) == payloads(Seq::<Seq<char>>::empty()).push(json));
    assert(payloads(seq![line]) =~= seq![json]);
    assert(payloads(pieces) =~= seq![json]);
    assert(f.subrange(0, 6) =~= data_prefix());
    assert(frame_items(f) =~= seq![Ok::<Seq<char>, Seq<char>>(json)]);
    assert(Seq::<char>::empty() != sentinel_line()) by {
        assert(sentinel_line().len() == 12);
    }
    assert(!pieces.contains(sentinel_line())) by {
        if pieces.contains(sentinel_line()) {
            let k = choose|k: int| 0 <= k < pieces.len() && pieces[k] == sentinel_line();
            assert(k == 0 || k == 1);
        }
    }
}

/// The sentinel frame `data: [DONE]` closed by a blank line yields no candidate payload and
/// ends the stream from whatever phase it arrives in.
pub proof fn lemma_sentinel_frame_ends_stream(frame: Vec<u8>, phase: StreamPhase)
    requires
        valid_utf8(frame@),
        decode_utf8(frame@) == sentinel_line() + seq!['\n', '\n'],
    ensures
        frame_items(decode_utf8(frame@)).len() == 0,
        frame_done(decode_utf8(frame@)),
        next_phase(phase, TransportEvent::Frame(frame)) == StreamPhase::Done,
{
    let line = sentinel_line();
    let f = line + seq!['\n', '\n'];
    assert forall|j: int| !blank_at(line, j) by {
        if 0 <= j < 12 {
            assert(line[j] != '\n');
        }
    }
    lemma_split_single_line(line);
    let pieces = seq![line, Seq::<char>::empty()];
    assert(pieces.drop_last() =~= seq![line]);
    assert(seq![line].drop_last() =~= Seq::<Seq<char>>::empty());
    assert(payload_of(line) is None);
    assert(payload_of(Seq::<char>::empty()) is None);
    assert(seq![line].last() == line);
    assert(payloads(Seq::<Seq<char>>::empty()) == Seq::<Seq<char>>::empty());
    assert(payloads(seq![line]) =~= Seq::<Seq<char>>::empty());
    assert(payloads(pieces) =~= Seq::<Seq<char>>::empty());
    assert(f.subrange(0, 6) =~= data_prefix());
    assert(pieces[0] == sentinel_line());
}

/// An empty frame yields no item and leaves a streaming stream streaming.
pub proof fn lemma_empty_frame_is_ignored(frame: Vec<u8>, phase: StreamPhase)
    requires
        frame@.len() == 0,
    ensures
        valid_utf8(frame@),
        frame_items(decode_utf8(frame@)).len() == 0,
        !frame_done(decode_utf8(frame@)),
        next_phase(phase, TransportEvent::Frame(frame)) == StreamPhase::Streaming,
{
    assert(decode_utf8(frame@) =~= Seq::<char>::empty());
}

/// A non-empty frame that does not begin with `data: ` yields exactly one malformed-event
/// error, whose message holds the frame verbatim, and the stream goes on streaming.
pub proof fn lemma_malformed_frame_is_reported(frame: Vec<u8>, phase: StreamPhase)
    requires
        valid_utf8(frame@),
        decode_utf8(frame@).len() > 0,
        !has_prefix(decode_utf8(frame@), data_prefix()),
    ensures
        frame_items(decode_utf8(frame@)) == seq![
            Err::<Seq<char>, Seq<char>>(invalid_event_message(decode_utf8(frame@))),
        ],
        !frame_done(decode_utf8(frame@)),
        next_phase(phase, TransportEvent::Frame(frame)) == StreamPhase::Streaming,
{
}

} // verus!
