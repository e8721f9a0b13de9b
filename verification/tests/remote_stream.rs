use std::sync::atomic::{AtomicBool, Ordering};
use std::sync::mpsc;
use std::sync::Arc;

use std::time::{Duration, Instant};

use handy::remote_stream::{
    default_true, is_final_message, reader_step, stream_url, writer_step, ReaderAction,
    ServerEvent, SessionOutcome, StreamFrame, StreamMessage, WriterAction,
};
use handy::stream_session::{
    abort_frame, await_final, feed_frame, final_answer, final_result, finalize_frame, RecvOutcome,
    RemoteStream, FINAL_TIMEOUT_SECS,
};

fn msg(kind: &str, text: &str, partial: bool) -> StreamMessage {
    StreamMessage { kind: kind.to_string(), text: text.to_string(), partial }
}

/// The outcome the reader delivers for an event that ends the session.
fn outcome_of(event: ServerEvent) -> SessionOutcome {
    match reader_step(event) {
        ReaderAction::Finish(o) => o,
        other => panic!("the event did not end the session: {other:?}"),
    }
}

fn final_outcome(text: &str) -> SessionOutcome {
    outcome_of(ServerEvent::Text(Some(msg("final", text, false))))
}

#[test]
fn stream_url_from_http_base() {
    assert_eq!(stream_url("http://dgxp:3001"), "ws://dgxp:3001/v1/audio/transcriptions/stream");
}

#[test]
fn stream_url_from_https_base_with_slashes() {
    assert_eq!(
        stream_url("https://asr.example.com/api//"),
        "wss://asr.example.com/api/v1/audio/transcriptions/stream"
    );
}

#[test]
fn stream_url_without_scheme() {
    assert_eq!(stream_url("dgxp:3001/"), "ws://dgxp:3001/v1/audio/transcriptions/stream");
    assert_eq!(stream_url(""), "ws:///v1/audio/transcriptions/stream");
    assert_eq!(stream_url("https:/"), "ws://https:/v1/audio/transcriptions/stream");
}

#[test]
fn final_and_partial_messages() {
    assert!(default_true());
    assert!(is_final_message(&msg("final", "done", false)));
    assert!(is_final_message(&msg("final", "done", true)));
    assert!(is_final_message(&msg("", "done", false)));
    assert!(!is_final_message(&msg("partial", "hel", true)));
}

#[test]
fn reader_rules() {
    assert_eq!(
        outcome_of(ServerEvent::Text(Some(msg("final", "hello world", false)))).into_result(),
        Ok("hello world".to_string())
    );
    assert_eq!(
        reader_step(ServerEvent::Text(Some(msg("partial", "hello", true)))),
        ReaderAction::Partial("hello".to_string())
    );
    assert_eq!(reader_step(ServerEvent::Text(Some(msg("partial", "", true)))), ReaderAction::Continue);
    // A server that only sends the boolean, without a type field.
    assert_eq!(
        outcome_of(ServerEvent::Text(Some(msg("", "hi", false)))).into_result(),
        Ok("hi".to_string())
    );
    assert_eq!(reader_step(ServerEvent::Text(None)), ReaderAction::Continue);
    assert_eq!(reader_step(ServerEvent::Other), ReaderAction::Continue);
    assert_eq!(
        outcome_of(ServerEvent::Closed("None".to_string())).into_result(),
        Err("stream closed by server: None".to_string())
    );
    assert_eq!(
        outcome_of(ServerEvent::Failed("reset".to_string())).into_result(),
        Err("stream error: reset".to_string())
    );
    assert_eq!(
        outcome_of(ServerEvent::Ended).into_result(),
        Err("stream ended without a final".to_string())
    );
}

#[test]
fn writer_payloads() {
    assert_eq!(
        writer_step(StreamFrame::Pcm(vec![1, 2, 3, 4])),
        WriterAction::Send { payload: vec![1, 2, 3, 4], last: false }
    );
    assert_eq!(writer_step(StreamFrame::EndOfAudio), WriterAction::Send { payload: vec![], last: true });
    assert_eq!(writer_step(StreamFrame::Close), WriterAction::Close);
}

#[test]
fn final_result_outcomes() {
    assert_eq!(final_result(RecvOutcome::Received(final_outcome("text"))), Ok("text".to_string()));
    assert_eq!(
        final_result(RecvOutcome::Received(outcome_of(ServerEvent::Failed("x".to_string())))),
        Err("stream error: x".to_string())
    );
    assert_eq!(
        final_result(RecvOutcome::TimedOut { limit_secs: FINAL_TIMEOUT_SECS }),
        Err("no final within 5s".to_string())
    );
    assert_eq!(
        final_result(RecvOutcome::Disconnected),
        Err("stream task exited without a final".to_string())
    );
    assert_eq!(format!("no final within {:?}", Duration::from_secs(FINAL_TIMEOUT_SECS)), "no final within 5s");
    assert_eq!(final_answer(None), Err("stream already finalized".to_string()));
    assert_eq!(final_answer(Some(RecvOutcome::Received(final_outcome("ok")))), Ok("ok".to_string()));
}

fn session() -> (RemoteStream, mpsc::Receiver<StreamFrame>, mpsc::Sender<SessionOutcome>, Arc<AtomicBool>) {
    let (feed_tx, feed_rx) = mpsc::channel();
    let (result_tx, result_rx) = mpsc::channel();
    let closed = Arc::new(AtomicBool::new(false));
    (RemoteStream::from_channels(feed_tx, result_rx, Arc::clone(&closed)), feed_rx, result_tx, closed)
}

#[test]
fn session_feeds_then_finalizes_once() {
    let (s, feed_rx, result_tx, closed) = session();
    s.feed_pcm(vec![1, 0]);
    result_tx.send(final_outcome("final text")).unwrap();
    assert_eq!(s.finalize(), Ok("final text".to_string()));
    assert_eq!(feed_rx.try_recv().unwrap(), StreamFrame::Pcm(vec![1, 0]));
    assert_eq!(feed_rx.try_recv().unwrap(), StreamFrame::EndOfAudio);
    // Feeds after the end are dropped, and a second finalize is refused.
    s.feed_pcm(vec![2, 0]);
    assert!(feed_rx.try_recv().is_err());
    assert_eq!(s.finalize(), Err("stream already finalized or aborted".to_string()));
    assert!(!s.is_closed());
    closed.store(true, Ordering::Relaxed);
    assert!(s.is_closed());
}

#[test]
fn session_reports_lost_reader() {
    let (s, _feed_rx, result_tx, _closed) = session();
    drop(result_tx);
    assert_eq!(s.finalize(), Err("stream task exited without a final".to_string()));
}

#[test]
fn aborted_session_drops_feeds_and_refuses_finalize() {
    let (s, feed_rx, _result_tx, _closed) = session();
    s.abort();
    assert_eq!(feed_rx.try_recv().unwrap(), StreamFrame::Close);
    s.feed_pcm(vec![9, 9]);
    s.abort();
    assert!(feed_rx.try_recv().is_err());
    assert_eq!(s.finalize(), Err("stream already finalized or aborted".to_string()));
    assert!(feed_rx.try_recv().is_err());
}

#[test]
fn empty_feed_sends_nothing() {
    let (s, feed_rx, _result_tx, _closed) = session();
    s.feed_pcm(vec![]);
    assert!(feed_rx.try_recv().is_err());
    s.feed_pcm(vec![7, 0]);
    assert_eq!(feed_rx.try_recv().unwrap(), StreamFrame::Pcm(vec![7, 0]));
}

#[test]
fn session_steps() {
    assert_eq!(feed_frame(true, vec![1, 2]), Some(StreamFrame::Pcm(vec![1, 2])));
    assert_eq!(feed_frame(true, vec![]), None);
    assert_eq!(feed_frame(false, vec![1, 2]), None);
    assert_eq!(abort_frame(true), Some(StreamFrame::Close));
    assert_eq!(abort_frame(false), None);
    assert_eq!(finalize_frame(true), Some(StreamFrame::EndOfAudio));
    assert_eq!(finalize_frame(false), None);
    assert!(await_final(None).is_none());
    let (tx, rx) = mpsc::channel();
    tx.send(final_outcome("hi")).unwrap();
    assert_eq!(final_answer(await_final(Some(rx))), Ok("hi".to_string()));
}

#[test]
fn wait_for_final_runs_to_the_limit() {
    let (_tx, rx) = mpsc::channel::<SessionOutcome>();
    let started = Instant::now();
    match await_final(Some(rx)) {
        Some(RecvOutcome::TimedOut { limit_secs }) => assert_eq!(limit_secs, FINAL_TIMEOUT_SECS),
        _ => panic!("the wait should time out"),
    }
    assert!(started.elapsed() >= Duration::from_secs(FINAL_TIMEOUT_SECS));
}

#[test]
fn finalize_without_a_final_times_out() {
    let (s, feed_rx, _result_tx, _closed) = session();
    let started = Instant::now();
    assert_eq!(s.finalize(), Err("no final within 5s".to_string()));
    assert!(started.elapsed() >= Duration::from_secs(FINAL_TIMEOUT_SECS));
    assert_eq!(feed_rx.try_recv().unwrap(), StreamFrame::EndOfAudio);
    assert!(feed_rx.try_recv().is_err());
    assert_eq!(s.finalize(), Err("stream already finalized or aborted".to_string()));
    assert!(feed_rx.try_recv().is_err());
}

#[test]
fn finalize_after_inactive_swap_is_refused() {
    let (s, feed_rx, result_tx, _closed) = session();
    result_tx.send(final_outcome("never read")).unwrap();
    assert_eq!(s.finalize_after_swap(false), Err("stream already finalized or aborted".to_string()));
    assert!(feed_rx.try_recv().is_err());
    assert_eq!(s.finalize(), Ok("never read".to_string()));
}

#[test]
fn streamed_recording_sends_pcm_then_one_empty_frame() {
    let (s, feed_rx, result_tx, _closed) = session();
    s.feed_pcm(vec![1, 0]);
    s.feed_pcm(vec![]);
    s.feed_pcm(vec![2, 0, 3, 0]);
    result_tx.send(final_outcome("done")).unwrap();
    assert_eq!(s.finalize(), Ok("done".to_string()));
    s.feed_pcm(vec![4, 0]);
    assert_eq!(s.finalize(), Err("stream already finalized or aborted".to_string()));
    s.abort();
    let mut sent = Vec::new();
    while let Ok(frame) = feed_rx.try_recv() {
        match writer_step(frame) {
            WriterAction::Send { payload, last } => {
                sent.push(payload);
                if last {
                    break;
                }
            }
            WriterAction::Close => break,
        }
    }
    assert_eq!(sent, vec![vec![1, 0], vec![2, 0, 3, 0], vec![]]);
    assert!(feed_rx.try_recv().is_err());
}
