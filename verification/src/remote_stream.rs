//! Remote streaming transcription: the WebSocket endpoint, the server
//! message rules, the PCM framing, and the session's decisions.
//!
//! The client sends raw int16 little-endian PCM as binary frames; an empty
//! binary frame signals end-of-audio. The server sends
//! `{"type":"partial","partial":true,"text":...}` while streaming and
//! `{"type":"final","partial":false,"text":...}` after the end-of-audio frame.

use vstd::prelude::*;

use crate::remote_transcribe::spec_transcriptions_url;
use crate::text::{
    lemma_trim_trailing_slashes, starts_with, starts_with_within, trim_trailing_slashes, trimmed_len,
};

verus! {

/// The WebSocket base for an HTTP base URL: `https://` becomes `wss://`,
/// `http://` becomes `ws://`, and anything else gets `ws://` in front.
pub open spec fn spec_ws_base(b: Seq<char>) -> Seq<char> {
    if starts_with(b, "https://"@) {
        "wss://"@ + b.skip("https://"@.len() as int)
    } else if starts_with(b, "http://"@) {
        "ws://"@ + b.skip("http://"@.len() as int)
    } else {
        "ws://"@ + b
    }
}

/// The streaming endpoint for an HTTP base URL.
pub open spec fn spec_stream_url(base_url: Seq<char>) -> Seq<char> {
    spec_ws_base(trim_trailing_slashes(base_url)) + "/v1/audio/transcriptions/stream"@
}

/// Derives the WebSocket URL from the HTTP base URL:
/// `http://dgxp:3001` gives `ws://dgxp:3001/v1/audio/transcriptions/stream`.
pub fn stream_url(base_url: &str) -> (url: String)
    ensures
        url@ == spec_stream_url(base_url@),
{
    let end = trimmed_len(base_url);
    let ghost base = base_url@.subrange(0, end as int);
    let mut url;
    if starts_with_within(base_url, end, "https://") {
        let k = "https://".unicode_len();
        url = "wss://".to_owned();
        url.append(base_url.substring_char(k, end));
        assert(base_url@.subrange(k as int, end as int) =~= base.skip(k as int));
    } else if starts_with_within(base_url, end, "http://") {
        let k = "http://".unicode_len();
        url = "ws://".to_owned();
        url.append(base_url.substring_char(k, end));
        assert(base_url@.subrange(k as int, end as int) =~= base.skip(k as int));
    } else {
        url = "ws://".to_owned();
        url.append(base_url.substring_char(0, end));
    }
    url.append("/v1/audio/transcriptions/stream");
    url
}

/// The streaming endpoint is the batch endpoint reached over a WebSocket:
/// the same host and path with the scheme switched to `ws`/`wss`, and
/// `/stream` appended. Every streaming URL starts with `ws://` or `wss://`.
pub proof fn lemma_stream_url_is_batch_url_over_websocket(base_url: Seq<char>)
    ensures
        spec_stream_url(base_url) == spec_ws_base(spec_transcriptions_url(base_url)) + "/stream"@,
        starts_with(spec_stream_url(base_url), "ws://"@) || starts_with(
            spec_stream_url(base_url),
            "wss://"@,
        ),
{
    reveal_strlit("https://");
    reveal_strlit("http://");
    reveal_strlit("wss://");
    reveal_strlit("ws://");
    reveal_strlit("/v1/audio/transcriptions");
    reveal_strlit("/stream");
    reveal_strlit("/v1/audio/transcriptions/stream");
    lemma_trim_trailing_slashes(base_url);
    let t = trim_trailing_slashes(base_url);
    let path = "/v1/audio/transcriptions"@;
    let u = t + path;
    assert(path + "/stream"@ =~= "/v1/audio/transcriptions/stream"@);
    let ps = "https://"@;
    let p = "http://"@;
    assert(ps =~= seq!['h', 't', 't', 'p', 's', ':', '/', '/']);
    assert(p =~= seq!['h', 't', 't', 'p', ':', '/', '/']);
    assert(path[0] == '/' && path[1] == 'v');
    assert(starts_with(u, ps) == starts_with(t, ps)) by {
        if t.len() >= 8 {
            assert(u.subrange(0, 8) =~= t.subrange(0, 8));
        } else if starts_with(u, ps) {
            let k = t.len() as int;
            assert(u.subrange(0, 8)[6] == u[6] && u.subrange(0, 8)[7] == u[7]);
            assert(u.subrange(0, 8)[k] == u[k]);
            if k == 7 {
                assert(u[6] == t[6]);
            } else if k == 6 {
                assert(u[7] == path[1]);
            } else {
                assert(u[k] == path[0]);
            }
        }
    }
    assert(starts_with(u, p) == starts_with(t, p)) by {
        if t.len() >= 7 {
            assert(u.subrange(0, 7) =~= t.subrange(0, 7));
        } else if starts_with(u, p) {
            let k = t.len() as int;
            assert(u.subrange(0, 7)[5] == u[5] && u.subrange(0, 7)[6] == u[6]);
            assert(u.subrange(0, 7)[k] == u[k]);
            if k == 6 {
                assert(u[5] == t[5]);
            } else if k == 5 {
                assert(u[6] == path[1]);
            } else {
                assert(u[k] == path[0]);
            }
        }
    }
    if starts_with(t, "https://"@) {
        assert(u.skip(8) =~= t.skip(8) + path);
        assert(spec_ws_base(u) =~= spec_ws_base(t) + path);
        assert(spec_stream_url(base_url).subrange(0, 6) =~= "wss://"@);
    } else if starts_with(t, "http://"@) {
        assert(u.skip(7) =~= t.skip(7) + path);
        assert(spec_ws_base(u) =~= spec_ws_base(t) + path);
        assert(spec_stream_url(base_url).subrange(0, 5) =~= "ws://"@);
    } else {
        assert(spec_ws_base(u) =~= spec_ws_base(t) + path);
        assert(spec_stream_url(base_url).subrange(0, 5) =~= "ws://"@);
    }
    assert(spec_stream_url(base_url) =~= spec_ws_base(spec_transcriptions_url(base_url))
        + "/stream"@);
}

/// A message of the server, as parsed from a JSON text frame; `text` is
/// empty and `partial` true when the server leaves them out.
#[derive(Debug, Clone, PartialEq, Eq)]
pub struct StreamMessage {
    /// The `type` field.
    pub kind: String,
    pub text: String,
    pub partial: bool,
}

/// The value a message's `partial` flag takes when the server leaves it out.
pub fn default_true() -> (r: bool)
    ensures
        r,
{
    true
}

/// The final is flagged `partial:false`; servers that only send the boolean
/// without a type field are tolerated.
pub open spec fn spec_is_final(kind: Seq<char>, partial: bool) -> bool {
    kind == "final"@ || !partial
}

/// Whether a server message carries the final transcript.
pub fn is_final_message(msg: &StreamMessage) -> (r: bool)
    ensures
        r == spec_is_final(msg.kind@, msg.partial),
{
    crate::text::str_eq(msg.kind.as_str(), "final") || !msg.partial
}

/// What the socket reader receives next.
#[derive(Debug, Clone, PartialEq, Eq)]
pub enum ServerEvent {
    /// A text frame, with the message parsed from it (`None` when it does
    /// not parse as a server message).
    Text(Option<StreamMessage>),
    /// The server closed the socket; the close frame, rendered for a message.
    Closed(String),
    /// A binary, ping or pong frame.
    Other,
    /// The socket failed; the error, rendered for a message.
    Failed(String),
    /// The stream ended.
    Ended,
}

/// An error the reader ends a session with: the server closed the socket,
/// the socket failed, or the stream ended before a final.
pub open spec fn spec_reader_error(e: Seq<char>) -> bool {
    ||| starts_with(e, "stream closed by server: "@)
    ||| starts_with(e, "stream error: "@)
    ||| e == "stream ended without a final"@
}

/// How the reader ended a session: the final transcript, or one of the
/// reader's errors. Only the reader's rule makes one, so an error in it is
/// always a reader error.
#[derive(Debug, PartialEq, Eq)]
pub struct SessionOutcome {
    result: Result<String, String>,
}

impl SessionOutcome {
    #[verifier::type_invariant]
    spec fn errors_are_reader_errors(self) -> bool {
        self.result matches Err(e) ==> spec_reader_error(e@)
    }

    /// The outcome, its strings taken by their characters.
    pub closed spec fn outcome(self) -> Result<Seq<char>, Seq<char>> {
        result_view(self.result)
    }

    /// The final transcript, or the reader's error.
    pub fn into_result(self) -> (r: Result<String, String>)
        ensures
            result_view(r) == self.outcome(),
            r matches Err(e) ==> spec_reader_error(e@),
    {
        proof {
            use_type_invariant(&self);
        }
        self.result
    }
}

/// Prefixing a text keeps the prefix at its start.
proof fn lemma_starts_with_prefix(p: Seq<char>, x: Seq<char>)
    ensures
        starts_with(p + x, p),
{
    assert((p + x).subrange(0, p.len() as int) =~= p);
}

/// What the socket reader does with an event.
#[derive(Debug, PartialEq, Eq)]
pub enum ReaderAction {
    /// Stop reading and deliver this outcome of the session.
    Finish(SessionOutcome),
    /// Hand a partial transcript to the caller's callback.
    Partial(String),
    /// Keep reading.
    Continue,
}

/// A reader action with its strings taken by their characters.
pub enum ReaderActionView {
    Finish(Result<Seq<char>, Seq<char>>),
    Partial(Seq<char>),
    Continue,
}

/// A result of strings, taken by their characters.
pub open spec fn result_view(r: Result<String, String>) -> Result<Seq<char>, Seq<char>> {
    match r {
        Ok(s) => Ok(s@),
        Err(e) => Err(e@),
    }
}

impl View for ReaderAction {
    type V = ReaderActionView;

    open spec fn view(&self) -> ReaderActionView {
        match self {
            ReaderAction::Finish(o) => ReaderActionView::Finish(o.outcome()),
            ReaderAction::Partial(t) => ReaderActionView::Partial(t@),
            ReaderAction::Continue => ReaderActionView::Continue,
        }
    }
}

/// The reader's rule for each event: a final message ends the session with
/// its text, a partial with text goes to the callback, a closed, failed or
/// ended socket ends it with an error, and anything else is skipped.
pub open spec fn spec_reader_step(e: ServerEvent) -> ReaderActionView {
    match e {
        ServerEvent::Text(Some(m)) => if spec_is_final(m.kind@, m.partial) {
            ReaderActionView::Finish(Ok(m.text@))
        } else if m.text@.len() > 0 {
            ReaderActionView::Partial(m.text@)
        } else {
            ReaderActionView::Continue
        },
        ServerEvent::Text(None) => ReaderActionView::Continue,
        ServerEvent::Other => ReaderActionView::Continue,
        ServerEvent::Closed(frame) => ReaderActionView::Finish(
            Err("stream closed by server: "@ + frame@),
        ),
        ServerEvent::Failed(err) => ReaderActionView::Finish(Err("stream error: "@ + err@)),
        ServerEvent::Ended => ReaderActionView::Finish(Err("stream ended without a final"@)),
    }
}

/// Decides what the socket reader does with the next event.
pub fn reader_step(e: ServerEvent) -> (a: ReaderAction)
    ensures
        a@ == spec_reader_step(e),
{
    match e {
        ServerEvent::Text(Some(m)) => {
            if is_final_message(&m) {
                ReaderAction::Finish(SessionOutcome { result: Ok(m.text) })
            } else if !m.text.as_str().is_empty() {
                ReaderAction::Partial(m.text)
            } else {
                ReaderAction::Continue
            }
        },
        ServerEvent::Text(None) => ReaderAction::Continue,
        ServerEvent::Other => ReaderAction::Continue,
        ServerEvent::Closed(frame) => {
            let mut msg = "stream closed by server: ".to_owned();
            msg.append(frame.as_str());
            proof {
                lemma_starts_with_prefix("stream closed by server: "@, frame@);
            }
            ReaderAction::Finish(SessionOutcome { result: Err(msg) })
        },
        ServerEvent::Failed(err) => {
            let mut msg = "stream error: ".to_owned();
            msg.append(err.as_str());
            proof {
                lemma_starts_with_prefix("stream error: "@, err@);
            }
            ReaderAction::Finish(SessionOutcome { result: Err(msg) })
        },
        ServerEvent::Ended => ReaderAction::Finish(
            SessionOutcome { result: Err("stream ended without a final".to_owned()) },
        ),
    }
}

/// Every final message (type "final", or `partial` false) ends the session
/// with its text, whatever the text, the empty text included. A message
/// that is not final never ends it: its text goes to the partial callback
/// when there is any, and is skipped when empty.
pub proof fn lemma_final_message_ends_session(m: StreamMessage)
    ensures
        m.kind@ == "final"@ || !m.partial ==> spec_reader_step(ServerEvent::Text(Some(m)))
            == ReaderActionView::Finish(Ok(m.text@)),
        m.kind@ != "final"@ && m.partial && m.text@.len() > 0 ==> spec_reader_step(
            ServerEvent::Text(Some(m)),
        ) == ReaderActionView::Partial(m.text@),
        m.kind@ != "final"@ && m.partial && m.text@.len() == 0 ==> spec_reader_step(
            ServerEvent::Text(Some(m)),
        ) == ReaderActionView::Continue,
{
}

/// A frame for the socket writer.
#[derive(Debug, Clone, PartialEq, Eq)]
pub enum StreamFrame {
    /// Raw int16 little-endian PCM.
    Pcm(Vec<u8>),
    /// End of audio, sent as an empty binary frame.
    EndOfAudio,
    /// The session was aborted: close the socket without an end of audio.
    Close,
}

/// A frame for the writer, its bytes taken by their values.
pub enum FrameView {
    Pcm(Seq<u8>),
    EndOfAudio,
    Close,
}

impl View for StreamFrame {
    type V = FrameView;

    open spec fn view(&self) -> FrameView {
        match self {
            StreamFrame::Pcm(b) => FrameView::Pcm(b@),
            StreamFrame::EndOfAudio => FrameView::EndOfAudio,
            StreamFrame::Close => FrameView::Close,
        }
    }
}

/// What the socket writer does with a frame.
#[derive(Debug, PartialEq, Eq)]
pub enum WriterAction {
    /// Send this binary payload; after the last one the writer stops (the
    /// server then delivers the final to the reader).
    Send { payload: Vec<u8>, last: bool },
    /// Close the socket and stop, sending nothing more.
    Close,
}

/// A writer action, its payload taken by its bytes.
pub enum WriterActionView {
    Send { payload: Seq<u8>, last: bool },
    Close,
}

impl View for WriterAction {
    type V = WriterActionView;

    open spec fn view(&self) -> WriterActionView {
        match self {
            WriterAction::Send { payload, last } => WriterActionView::Send {
                payload: payload@,
                last: *last,
            },
            WriterAction::Close => WriterActionView::Close,
        }
    }
}

/// The writer's rule: PCM goes out as it is, the end of audio as an empty
/// binary frame after which the writer stops, and an abort closes the
/// socket.
pub open spec fn spec_writer_step(frame: FrameView) -> WriterActionView {
    match frame {
        FrameView::Pcm(b) => WriterActionView::Send { payload: b, last: false },
        FrameView::EndOfAudio => WriterActionView::Send { payload: Seq::empty(), last: true },
        FrameView::Close => WriterActionView::Close,
    }
}

/// Decides what the writer does with a frame.
pub fn writer_step(frame: StreamFrame) -> (r: WriterAction)
    ensures
        r@ == spec_writer_step(frame@),
{
    match frame {
        StreamFrame::Pcm(bytes) => WriterAction::Send { payload: bytes, last: false },
        StreamFrame::EndOfAudio => WriterAction::Send { payload: Vec::new(), last: true },
        StreamFrame::Close => WriterAction::Close,
    }
}

/// The payloads the writer sends for a run of frames: one per frame, up to
/// and including the last one, and none from a close on.
pub open spec fn sent_payloads(frames: Seq<FrameView>) -> Seq<Seq<u8>>
    decreases frames.len(),
{
    if frames.len() == 0 {
        Seq::empty()
    } else {
        match spec_writer_step(frames[0]) {
            WriterActionView::Send { payload, last } => if last {
                seq![payload]
            } else {
                seq![payload] + sent_payloads(frames.drop_first())
            },
            WriterActionView::Close => Seq::empty(),
        }
    }
}

} // verus!
