//! A live streaming-transcription session.
//!
//! The socket tasks run outside this module: a writer drains the feed
//! channel, a reader delivers the outcome on the result channel and sets
//! `closed` when it ends. The session decides what to feed, when to stop,
//! and what `finalize` answers.

use std::sync::atomic::{AtomicBool, Ordering};
use std::sync::mpsc::{Receiver, Sender};
use std::sync::{Arc, Mutex};
use vstd::prelude::*;

use crate::remote_stream::{
    result_view, sent_payloads, spec_is_final, spec_reader_error, spec_reader_step, FrameView,
    ReaderActionView, ServerEvent, SessionOutcome, StreamFrame, StreamMessage,
};

verus! {

#[verifier::external_type_specification]
#[verifier::external_body]
#[verifier::reject_recursive_types(T)]
pub struct ExSender<T>(Sender<T>);

#[verifier::external_type_specification]
#[verifier::external_body]
#[verifier::reject_recursive_types(T)]
pub struct ExReceiver<T>(Receiver<T>);

#[verifier::external_type_specification]
#[verifier::external_body]
#[verifier::reject_recursive_types(T)]
pub struct ExMutex<T: ?Sized>(Mutex<T>);

/// How long `finalize` waits for the final after the end-of-audio frame
/// before giving up (the caller then falls back to batch transcription).
pub const FINAL_TIMEOUT_SECS: u64 = 5;

/// What a bounded wait on a channel came back with.
pub enum RecvOutcome<T> {
    Received(T),
    /// Nothing arrived within the limit the wait ran to.
    TimedOut { limit_secs: u64 },
    Disconnected,
}

/// `Sender::send`: queues a frame for the writer task. Whether the writer
/// is still there to take it depends on another thread; nothing is stated.
#[verifier::external_body]
fn send_frame(tx: &Sender<StreamFrame>, frame: StreamFrame) {
    let _ = tx.send(frame);
}

/// `Mutex::new`: a lock holding the receiver of the session's outcome.
#[verifier::external_body]
fn new_result_slot(rx: Receiver<SessionOutcome>) -> Mutex<Option<Receiver<SessionOutcome>>> {
    Mutex::new(Some(rx))
}

/// `Mutex::lock`, then `Option::take` on the guarded slot: hands out the
/// receiver if no earlier call took it. Which call gets it depends on the
/// order of calls across threads, so nothing is stated. The lock holds only
/// this `take`, which cannot panic, so it is never poisoned; a poisoned
/// lock is entered all the same.
#[verifier::external_body]
fn take_result_receiver(
    slot: &Mutex<Option<Receiver<SessionOutcome>>>,
) -> Option<Receiver<SessionOutcome>> {
    match slot.lock() {
        Ok(mut guard) => guard.take(),
        Err(poisoned) => poisoned.into_inner().take(),
    }
}

/// `Receiver::recv_timeout` with a timeout of `secs` seconds: what arrived,
/// or that the wait timed out (recorded with the `secs` it ran to) or the
/// sender went away. Which of these comes back depends on the reader task
/// and on time; only the recorded limit is stated.
#[verifier::external_body]
fn recv_within<T>(rx: Receiver<T>, secs: u64) -> (o: RecvOutcome<T>)
    ensures
        o matches RecvOutcome::TimedOut { limit_secs } ==> limit_secs == secs,
{
    match rx.recv_timeout(std::time::Duration::from_secs(secs)) {
        Ok(v) => RecvOutcome::Received(v),
        Err(std::sync::mpsc::RecvTimeoutError::Timeout) => RecvOutcome::TimedOut { limit_secs: secs },
        Err(std::sync::mpsc::RecvTimeoutError::Disconnected) => RecvOutcome::Disconnected,
    }
}

/// What `finalize` answers for the outcome of its wait.
pub open spec fn spec_final_result(
    outcome: RecvOutcome<SessionOutcome>,
) -> Result<Seq<char>, Seq<char>> {
    match outcome {
        RecvOutcome::Received(o) => o.outcome(),
        RecvOutcome::TimedOut { .. } => Err("no final within 5s"@),
        RecvOutcome::Disconnected => Err("stream task exited without a final"@),
    }
}

/// An error `finalize` can answer with: one of the reader's, a timed-out
/// or lost wait, or a refusal because the session already ended.
pub open spec fn spec_finalize_error(e: Seq<char>) -> bool {
    ||| spec_reader_error(e)
    ||| e == "no final within 5s"@
    ||| e == "stream task exited without a final"@
    ||| e == "stream already finalized"@
    ||| e == "stream already finalized or aborted"@
}

/// Maps the wait for the final to the session's answer: the reader's
/// outcome as it came, or an error naming the timeout or the lost task.
pub fn final_result(outcome: RecvOutcome<SessionOutcome>) -> (r: Result<String, String>)
    ensures
        result_view(r) == spec_final_result(outcome),
        r matches Err(e) ==> spec_finalize_error(e@),
{
    match outcome {
        RecvOutcome::Received(o) => o.into_result(),
        RecvOutcome::TimedOut { .. } => Err("no final within 5s".to_owned()),
        RecvOutcome::Disconnected => Err("stream task exited without a final".to_owned()),
    }
}

/// What `finalize` answers once it tried to take the receiver: a refusal
/// when another call already took it, else the answer for its wait.
pub open spec fn spec_final_answer(
    wait: Option<RecvOutcome<SessionOutcome>>,
) -> Result<Seq<char>, Seq<char>> {
    match wait {
        Some(outcome) => spec_final_result(outcome),
        None => Err("stream already finalized"@),
    }
}

/// The answer for the wait on the receiver, or the refusal when there was
/// no receiver left to wait on.
pub fn final_answer(wait: Option<RecvOutcome<SessionOutcome>>) -> (r: Result<String, String>)
    ensures
        result_view(r) == spec_final_answer(wait),
        r matches Err(e) ==> spec_finalize_error(e@),
{
    match wait {
        Some(outcome) => final_result(outcome),
        None => Err("stream already finalized".to_owned()),
    }
}

/// A frame a session call may queue, taken by its view.
pub open spec fn opt_frame_view(f: Option<StreamFrame>) -> Option<FrameView> {
    match f {
        Some(frame) => Some(frame@),
        None => None,
    }
}

/// A feed queues its PCM while the session is active, unless it is empty
/// (the writer would send an empty frame as the end of audio).
pub open spec fn spec_feed_frame(active: bool, pcm: Seq<u8>) -> Option<FrameView> {
    if active && pcm.len() > 0 {
        Some(FrameView::Pcm(pcm))
    } else {
        None
    }
}

/// A finalize queues the end of audio if the session was still active;
/// once the session ended it is refused before anything is queued.
pub open spec fn spec_finalize_frame(was_active: bool) -> Option<FrameView> {
    if was_active {
        Some(FrameView::EndOfAudio)
    } else {
        None
    }
}

/// An abort queues a close for the writer if the session was still active.
pub open spec fn spec_abort_frame(was_active: bool) -> Option<FrameView> {
    if was_active {
        Some(FrameView::Close)
    } else {
        None
    }
}

/// The frame a feed queues, given whether the session is still active.
pub fn feed_frame(active: bool, pcm: Vec<u8>) -> (f: Option<StreamFrame>)
    ensures
        opt_frame_view(f) == spec_feed_frame(active, pcm@),
{
    if active && pcm.len() != 0 {
        Some(StreamFrame::Pcm(pcm))
    } else {
        None
    }
}

/// The frame a finalize queues, given whether the session was still
/// active.
pub fn finalize_frame(was_active: bool) -> (f: Option<StreamFrame>)
    ensures
        opt_frame_view(f) == spec_finalize_frame(was_active),
{
    if was_active {
        Some(StreamFrame::EndOfAudio)
    } else {
        None
    }
}

/// The frame an abort queues, given whether the session was still active.
pub fn abort_frame(was_active: bool) -> (f: Option<StreamFrame>)
    ensures
        opt_frame_view(f) == spec_abort_frame(was_active),
{
    if was_active {
        Some(StreamFrame::Close)
    } else {
        None
    }
}

/// A call on a session, as its decisions see it.
pub enum SessionCall {
    Feed(Seq<u8>),
    Finalize,
    Abort,
}

/// The frame a call queues, given whether the session is active before it.
pub open spec fn call_frame(active: bool, call: SessionCall) -> Option<FrameView> {
    match call {
        SessionCall::Feed(pcm) => spec_feed_frame(active, pcm),
        SessionCall::Finalize => spec_finalize_frame(active),
        SessionCall::Abort => spec_abort_frame(active),
    }
}

/// Whether the session is active after a call: a finalize or an abort ends
/// it, a feed leaves it as it was.
pub open spec fn active_after_call(active: bool, call: SessionCall) -> bool {
    match call {
        SessionCall::Feed(_) => active,
        _ => false,
    }
}

/// A frame that may have been queued, as a run of frames.
pub open spec fn frames_of(f: Option<FrameView>) -> Seq<FrameView> {
    match f {
        Some(frame) => seq![frame],
        None => Seq::empty(),
    }
}

/// The frames a run of calls queues, in order, starting from a session
/// that is `active` or not.
pub open spec fn queued_frames(active: bool, calls: Seq<SessionCall>) -> Seq<FrameView>
    decreases calls.len(),
{
    if calls.len() == 0 {
        Seq::empty()
    } else {
        frames_of(call_frame(active, calls[0])) + queued_frames(
            active_after_call(active, calls[0]),
            calls.drop_first(),
        )
    }
}

/// Feeding each of `pcm` in turn.
pub open spec fn feeds(pcm: Seq<Seq<u8>>) -> Seq<SessionCall> {
    pcm.map_values(|p: Seq<u8>| SessionCall::Feed(p))
}

/// The PCM frames of each of `pcm`, in turn.
pub open spec fn pcm_frames(pcm: Seq<Seq<u8>>) -> Seq<FrameView> {
    pcm.map_values(|p: Seq<u8>| FrameView::Pcm(p))
}

/// Once a finalize or an abort ended the session, no later call queues a
/// frame, and the session stays ended (so every later finalize is refused).
pub proof fn lemma_ended_session_queues_nothing(calls: Seq<SessionCall>)
    ensures
        queued_frames(false, calls) == Seq::<FrameView>::empty(),
    decreases calls.len(),
{
    if calls.len() > 0 {
        lemma_ended_session_queues_nothing(calls.drop_first());
        assert(queued_frames(false, calls) =~= Seq::<FrameView>::empty());
    }
}

/// Feeds of non-empty PCM on an active session queue their PCM in order
/// and leave the session active.
proof fn lemma_feeds_queue_their_pcm(pcm: Seq<Seq<u8>>, tail: Seq<SessionCall>)
    requires
        forall|i: int| 0 <= i < pcm.len() ==> (#[trigger] pcm[i]).len() > 0,
    ensures
        queued_frames(true, feeds(pcm) + tail) == pcm_frames(pcm) + queued_frames(true, tail),
    decreases pcm.len(),
{
    let calls = feeds(pcm) + tail;
    if pcm.len() == 0 {
        assert(calls =~= tail);
        assert(pcm_frames(pcm) + queued_frames(true, tail) =~= queued_frames(true, tail));
    } else {
        let rest = pcm.drop_first();
        assert(pcm[0].len() > 0);
        assert(calls[0] == SessionCall::Feed(pcm[0]));
        assert(calls.drop_first() =~= feeds(rest) + tail);
        assert forall|i: int| 0 <= i < rest.len() implies (#[trigger] rest[i]).len() > 0 by {
            assert(rest[i] == pcm[i + 1]);
        }
        lemma_feeds_queue_their_pcm(rest, tail);
        assert(pcm_frames(pcm) =~= seq![FrameView::Pcm(pcm[0])] + pcm_frames(rest));
        assert(queued_frames(true, calls) =~= pcm_frames(pcm) + queued_frames(true, tail));
    }
}

/// The writer sends PCM frames as they are, then the end of audio as an
/// empty payload, and stops there.
proof fn lemma_writer_sends_pcm_then_end(pcm: Seq<Seq<u8>>, after: Seq<FrameView>)
    ensures
        sent_payloads(pcm_frames(pcm) + seq![FrameView::EndOfAudio] + after) == pcm + seq![
            Seq::<u8>::empty(),
        ],
    decreases pcm.len(),
{
    let frames = pcm_frames(pcm) + seq![FrameView::EndOfAudio] + after;
    if pcm.len() == 0 {
        assert(frames[0] == FrameView::EndOfAudio);
        assert(pcm + seq![Seq::<u8>::empty()] =~= seq![Seq::<u8>::empty()]);
    } else {
        let rest = pcm.drop_first();
        assert(frames[0] == FrameView::Pcm(pcm[0]));
        assert(frames.drop_first() =~= pcm_frames(rest) + seq![FrameView::EndOfAudio] + after);
        lemma_writer_sends_pcm_then_end(rest, after);
        assert(pcm + seq![Seq::<u8>::empty()] =~= seq![pcm[0]] + (rest + seq![
            Seq::<u8>::empty(),
        ]));
    }
}

/// Streaming a recording: on an active session, feeds of non-empty PCM
/// followed by a finalize make the writer send exactly those PCM payloads,
/// in order, then one empty payload (the end of audio), and nothing after
/// it, whatever calls follow; none of those calls queues a frame.
pub proof fn lemma_stream_sends_feeds_then_end_of_audio(
    pcm: Seq<Seq<u8>>,
    later: Seq<SessionCall>,
)
    requires
        forall|i: int| 0 <= i < pcm.len() ==> (#[trigger] pcm[i]).len() > 0,
    ensures
        queued_frames(true, feeds(pcm) + seq![SessionCall::Finalize] + later) == pcm_frames(pcm)
            + seq![FrameView::EndOfAudio],
        sent_payloads(queued_frames(true, feeds(pcm) + seq![SessionCall::Finalize] + later))
            == pcm + seq![Seq::<u8>::empty()],
{
    let tail = seq![SessionCall::Finalize] + later;
    assert(feeds(pcm) + seq![SessionCall::Finalize] + later =~= feeds(pcm) + tail);
    lemma_feeds_queue_their_pcm(pcm, tail);
    assert(tail[0] == SessionCall::Finalize);
    assert(tail.drop_first() =~= later);
    lemma_ended_session_queues_nothing(later);
    assert(queued_frames(true, tail) =~= seq![FrameView::EndOfAudio]);
    lemma_writer_sends_pcm_then_end(pcm, Seq::empty());
    assert(pcm_frames(pcm) + seq![FrameView::EndOfAudio] + Seq::<FrameView>::empty()
        =~= pcm_frames(pcm) + seq![FrameView::EndOfAudio]);
}

/// A final that the reader delivers before the wait runs out is what
/// `finalize` answers: the text of the server's final message.
pub proof fn lemma_delivered_final_is_answered(m: StreamMessage, o: SessionOutcome)
    requires
        spec_is_final(m.kind@, m.partial),
        spec_reader_step(ServerEvent::Text(Some(m))) == ReaderActionView::Finish(o.outcome()),
    ensures
        spec_final_answer(Some(RecvOutcome::Received(o))) == Ok::<Seq<char>, Seq<char>>(m.text@),
{
}

/// Waits for the final on the receiver, if this call got it, for
/// `FINAL_TIMEOUT_SECS`: no wait without a receiver, and a wait that timed
/// out ran to that limit.
pub fn await_final(rx: Option<Receiver<SessionOutcome>>) -> (w: Option<RecvOutcome<SessionOutcome>>)
    ensures
        rx is None <==> w is None,
        w matches Some(RecvOutcome::TimedOut { limit_secs }) ==> limit_secs == FINAL_TIMEOUT_SECS,
{
    match rx {
        Some(rx) => Some(recv_within(rx, FINAL_TIMEOUT_SECS)),
        None => None,
    }
}

/// Live handle to a streaming transcription session; it ends with
/// [`RemoteStream::finalize`] or [`RemoteStream::abort`].
pub struct RemoteStream {
    feed_tx: Sender<StreamFrame>,
    result_rx: Mutex<Option<Receiver<SessionOutcome>>>,
    /// Set as soon as the socket tasks end (error or final delivered).
    closed: Arc<AtomicBool>,
    /// True until the session is finalized or aborted.
    active: Arc<AtomicBool>,
}

impl RemoteStream {
    /// The channel end the session feeds frames to the writer on.
    pub closed spec fn feed_sender(self) -> Sender<StreamFrame> {
        self.feed_tx
    }

    /// The flag the socket tasks set when they end, which `is_closed` reads.
    pub closed spec fn closed_flag(self) -> Arc<AtomicBool> {
        self.closed
    }

    /// A session over an open socket: frames go to the writer on `feed_tx`,
    /// the reader delivers the outcome on `result_rx` and sets `closed`.
    /// The session starts active.
    pub fn from_channels(
        feed_tx: Sender<StreamFrame>,
        result_rx: Receiver<SessionOutcome>,
        closed: Arc<AtomicBool>,
    ) -> (s: Self)
        ensures
            s.feed_sender() == feed_tx,
            s.closed_flag() == closed,
    {
        RemoteStream {
            feed_tx,
            result_rx: new_result_slot(result_rx),
            closed,
            active: Arc::new(AtomicBool::new(true)),
        }
    }

    /// Forwards a frame of 16 kHz mono PCM (int16 little endian) to the
    /// stream, unless the session was finalized or aborted; an empty frame
    /// is not sent, since the writer would send it as the end of audio.
    pub fn feed_pcm(&self, pcm: Vec<u8>) {
        if let Some(frame) = feed_frame(self.active.load(Ordering::Relaxed), pcm) {
            send_frame(&self.feed_tx, frame);
        }
    }

    /// Signals end-of-audio and blocks until the final arrives or the
    /// timeout expires. Only the first of `finalize` and `abort` ends the
    /// session; a later `finalize` answers with an error. Which of these
    /// happens rests on the flag the other calls share and on the reader, so
    /// what is stated is the form of every error it can answer with.
    pub fn finalize(&self) -> (r: Result<String, String>)
        ensures
            r matches Err(e) ==> spec_finalize_error(e@),
    {
        let was_active = self.active.swap(false, Ordering::Relaxed);
        self.finalize_after_swap(was_active)
    }

    /// The rest of `finalize`, given the value the active flag held before
    /// `finalize` switched it off: a session that was no longer active is
    /// refused at once, with nothing queued; an active one queues the end of
    /// audio for the writer, takes the receiver of the outcome and waits for
    /// the final.
    pub fn finalize_after_swap(&self, was_active: bool) -> (r: Result<String, String>)
        ensures
            !was_active ==> result_view(r) == Err::<Seq<char>, Seq<char>>(
                "stream already finalized or aborted"@,
            ),
            r matches Err(e) ==> spec_finalize_error(e@),
    {
        let frame = match finalize_frame(was_active) {
            Some(frame) => frame,
            None => return Err("stream already finalized or aborted".to_owned()),
        };
        send_frame(&self.feed_tx, frame);
        final_answer(await_final(take_result_receiver(&self.result_rx)))
    }

    /// Tears the session down without waiting for a final (cancel path):
    /// the writer closes the socket, further feeds are dropped and the
    /// outcome is discarded. A second call changes nothing.
    pub fn abort(&self) {
        if let Some(frame) = abort_frame(self.active.swap(false, Ordering::Relaxed)) {
            send_frame(&self.feed_tx, frame);
        }
        let _ = take_result_receiver(&self.result_rx);
    }

    /// Whether the underlying socket is gone.
    pub fn is_closed(&self) -> bool {
        self.closed.load(Ordering::Relaxed)
    }
}

} // verus!
