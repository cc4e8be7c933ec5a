use async_tls_bridge::{
    first_address, Action, AsyncTls, Direction, Event, NegotiationState, OperationKind,
    PendingOperation, Phase, PollResult, SessionError, StepOutcome,
};

fn established() -> AsyncTls {
    let mut tls = AsyncTls::new();
    let mut op = tls.negotiate();
    let a = tls.advance(&mut op, Event::Stepped(StepOutcome::Done(0)));
    assert_eq!(a, Action::Finish(Ok(0)));
    assert_eq!(tls.state(), NegotiationState::Established);
    tls
}

fn failed(code: i32) -> AsyncTls {
    let mut tls = AsyncTls::new();
    let mut op = tls.negotiate();
    tls.advance(&mut op, Event::Stepped(StepOutcome::Failed(code)));
    tls
}

#[test]
fn new_session_is_unstarted() {
    assert_eq!(AsyncTls::new().state(), NegotiationState::Unstarted);
}

#[test]
fn negotiate_moves_to_negotiating() {
    let mut tls = AsyncTls::new();
    let op = tls.negotiate();
    assert_eq!(tls.state(), NegotiationState::Negotiating);
    assert_eq!(op.kind, OperationKind::Negotiate);
    assert_eq!(op.phase, Phase::Attempting);
}

#[test]
fn negotiation_suspends_once_per_not_ready() {
    for n in 0..5usize {
        let mut tls = AsyncTls::new();
        let mut op = tls.negotiate();
        assert_eq!(
            tls.advance(&mut op, Event::Stepped(StepOutcome::WantRead)),
            Action::Poll(Direction::Readable)
        );
        let mut yields = 0usize;
        for _ in 0..n {
            if tls.advance(&mut op, Event::Polled(PollResult::Pending)) == Action::Yield {
                yields += 1;
            }
        }
        assert_eq!(yields, n);
        assert_eq!(tls.state(), NegotiationState::Negotiating);
        assert_eq!(tls.advance(&mut op, Event::Polled(PollResult::Ready)), Action::Attempt);
        assert_eq!(
            tls.advance(&mut op, Event::Stepped(StepOutcome::Done(0))),
            Action::Finish(Ok(0))
        );
        assert_eq!(tls.state(), NegotiationState::Established);
    }
}

#[test]
fn write_want_and_would_block_wait_for_writable() {
    let tls = established();
    let mut op = tls.write(10).unwrap();
    assert_eq!(op.advance(Event::Stepped(StepOutcome::WantWrite)), Action::Poll(Direction::Writable));
    let mut op = tls.write(10).unwrap();
    assert_eq!(op.advance(Event::Stepped(StepOutcome::WouldBlock)), Action::Poll(Direction::Writable));
    assert_eq!(op.advance(Event::Polled(PollResult::Pending)), Action::Yield);
    assert_eq!(op.advance(Event::Polled(PollResult::Pending)), Action::Yield);
    assert_eq!(op.advance(Event::Polled(PollResult::Ready)), Action::Attempt);
    assert_eq!(op.advance(Event::Stepped(StepOutcome::Done(10))), Action::Finish(Ok(10)));
}

#[test]
fn untrusted_certificate_fails_negotiation() {
    let mut tls = AsyncTls::new();
    let mut op = tls.negotiate();
    assert_eq!(
        tls.advance(&mut op, Event::Stepped(StepOutcome::WantWrite)),
        Action::Poll(Direction::Writable)
    );
    assert_eq!(tls.advance(&mut op, Event::Polled(PollResult::Ready)), Action::Attempt);
    let a = tls.advance(&mut op, Event::Stepped(StepOutcome::Failed(-0x3000)));
    assert_eq!(a, Action::Finish(Err(SessionError::Negotiation(-0x3000))));
    assert_eq!(tls.state(), NegotiationState::Failed(SessionError::Negotiation(-0x3000)));
}

#[test]
fn readiness_failure_during_negotiation_fails_session() {
    let mut tls = AsyncTls::new();
    let mut op = tls.negotiate();
    tls.advance(&mut op, Event::Stepped(StepOutcome::WantRead));
    let a = tls.advance(&mut op, Event::Polled(PollResult::Failed(-1)));
    assert_eq!(a, Action::Finish(Err(SessionError::Negotiation(-1))));
    assert_eq!(tls.state(), NegotiationState::Failed(SessionError::Negotiation(-1)));
}

#[test]
fn failed_session_rejects_reads_and_writes() {
    let tls = failed(-0x2700);
    let e = SessionError::Negotiation(-0x2700);
    assert_eq!(tls.read(16), Err(e));
    assert_eq!(tls.write(16), Err(e));
    assert_eq!(tls.read(16), Err(e));
    assert_eq!(tls.write(0), Err(e));
}

#[test]
fn failed_session_stays_failed() {
    let mut tls = failed(-5);
    let mut op = PendingOperation::new(OperationKind::Negotiate, 0);
    tls.advance(&mut op, Event::Stepped(StepOutcome::Done(0)));
    assert_eq!(tls.state(), NegotiationState::Failed(SessionError::Negotiation(-5)));
}

#[test]
fn short_write_returns_accepted_count() {
    let request = b"GET / HTTP/1.1\r\nHost: example.com\r\nConnection: close\r\n\r\n";
    let total = request.len();
    let tls = established();
    let mut sent = 0usize;
    let mut calls = 0usize;
    while sent < total {
        let remaining = total - sent;
        let mut op = tls.write(remaining).unwrap();
        let accepted = if calls == 0 { 20 } else { remaining };
        let a = op.advance(Event::Stepped(StepOutcome::Done(accepted)));
        match a {
            Action::Finish(Ok(k)) => {
                if calls == 0 {
                    assert_eq!(k, 20);
                }
                sent += k;
            }
            other => panic!("unexpected {:?}", other),
        }
        calls += 1;
    }
    assert_eq!(sent, total);
    assert_eq!(calls, 2);
}

#[test]
fn over_count_from_engine_is_transport_error() {
    let tls = established();
    let mut op = tls.write(4).unwrap();
    assert_eq!(
        op.advance(Event::Stepped(StepOutcome::Done(5))),
        Action::Finish(Err(SessionError::Transport(-1)))
    );
}

#[test]
fn read_suspends_until_readable() {
    let tls = established();
    let buf = [0u8; 8];
    let mut op = tls.read(buf.len()).unwrap();
    assert_eq!(op.advance(Event::Stepped(StepOutcome::WantRead)), Action::Poll(Direction::Readable));
    assert_eq!(op.advance(Event::Polled(PollResult::Pending)), Action::Yield);
    assert_eq!(op.phase, Phase::Awaiting(Direction::Readable));
    assert_eq!(buf, [0u8; 8]);
    assert_eq!(op.advance(Event::Polled(PollResult::Ready)), Action::Attempt);
    assert_eq!(op.advance(Event::Stepped(StepOutcome::Done(5))), Action::Finish(Ok(5)));
}

#[test]
fn zero_read_is_end_of_stream() {
    let tls = established();
    let mut op = tls.read(32).unwrap();
    assert_eq!(op.advance(Event::Stepped(StepOutcome::Done(0))), Action::Finish(Ok(0)));
    let mut op = tls.read(32).unwrap();
    let a = op.advance(Event::Stepped(StepOutcome::WouldBlock));
    assert_eq!(a, Action::Poll(Direction::Writable));
    assert_ne!(a, Action::Finish(Ok(0)));
}

#[test]
fn read_failure_is_transport_error() {
    let tls = established();
    let mut op = tls.read(32).unwrap();
    assert_eq!(
        op.advance(Event::Stepped(StepOutcome::Failed(-0x50))),
        Action::Finish(Err(SessionError::Transport(-0x50)))
    );
    let mut op = tls.read(32).unwrap();
    op.advance(Event::Stepped(StepOutcome::WantRead));
    assert_eq!(
        op.advance(Event::Polled(PollResult::Failed(-1))),
        Action::Finish(Err(SessionError::Transport(-1)))
    );
    assert_eq!(tls.state(), NegotiationState::Established);
}

#[test]
fn stray_reports_repeat_the_request() {
    let mut op = PendingOperation::new(OperationKind::Read, 4);
    assert_eq!(op.advance(Event::Polled(PollResult::Ready)), Action::Attempt);
    op.advance(Event::Stepped(StepOutcome::WantRead));
    assert_eq!(
        op.advance(Event::Stepped(StepOutcome::Done(1))),
        Action::Poll(Direction::Readable)
    );
}

#[test]
fn finished_operation_repeats_its_result() {
    let mut op = PendingOperation::new(OperationKind::Write, 4);
    op.advance(Event::Stepped(StepOutcome::Done(3)));
    assert_eq!(op.advance(Event::Polled(PollResult::Ready)), Action::Finish(Ok(3)));
    assert_eq!(op.phase, Phase::Finished(Ok(3)));
}

#[test]
fn flush_and_close_are_no_ops() {
    let tls = established();
    assert_eq!(tls.flush(), Ok(()));
    assert_eq!(tls.close(), Ok(()));
    assert_eq!(tls.state(), NegotiationState::Established);
}

#[test]
fn first_address_picks_first_or_fails() {
    assert_eq!(first_address(vec![10u32, 20, 30]), Ok(10));
    assert_eq!(first_address(Vec::<u32>::new()), Err(SessionError::Resolution));
}

#[test]
fn resume_repeats_outstanding_request() {
    let mut op = PendingOperation::new(OperationKind::Read, 4);
    assert_eq!(op.resume(), Action::Attempt);
    op.advance(Event::Stepped(StepOutcome::WantRead));
    op.advance(Event::Polled(PollResult::Pending));
    assert_eq!(op.resume(), Action::Poll(Direction::Readable));
    op.advance(Event::Polled(PollResult::Ready));
    op.advance(Event::Stepped(StepOutcome::Done(2)));
    assert_eq!(op.resume(), Action::Finish(Ok(2)));
}
