use wactor::bridge::{spawn, spawn_with, Error};
use wactor::counter::{Counter, CounterInput, CounterOutput};
use wactor::link::Link;
use wactor::queue::Queue;

#[test]
fn sequential_request_response() {
    // Repeated get(AddOne) on one bridge returns 1, 2, 3, ... in order,
    // no value skipped, none repeated.
    let mut bridge = spawn::<Counter>();
    for expected in 1u32..=5 {
        let reply = bridge.get(CounterInput::AddOne);
        assert_eq!(reply, Ok(CounterOutput::Count(expected)));
    }
}

#[test]
fn get_twice_counts_one_then_two() {
    let mut bridge = spawn::<Counter>();
    assert_eq!(bridge.get(CounterInput::AddOne), Ok(CounterOutput::Count(1)));
    assert_eq!(bridge.get(CounterInput::AddOne), Ok(CounterOutput::Count(2)));
}

#[test]
fn pipelined_sends_keep_fifo_order() {
    // Two sends before any receive, then two receives: Count(1) then
    // Count(2) — single-bridge FIFO ordering.
    let mut bridge = spawn::<Counter>();
    assert_eq!(bridge.send(CounterInput::AddOne), Ok(()));
    assert_eq!(bridge.send(CounterInput::AddOne), Ok(()));
    assert_eq!(bridge.receive(), Ok(CounterOutput::Count(1)));
    assert_eq!(bridge.receive(), Ok(CounterOutput::Count(2)));
}

#[test]
fn no_loss_or_duplication_under_sharing() {
    // Three handles share the bridge; six sends in total get exactly six
    // replies in total, whichever handle drew them.
    let mut bridge = spawn::<Counter>();
    bridge.clone_handle();
    bridge.clone_handle();
    assert_eq!(bridge.live_handles(), 3);
    for _ in 0..3 {
        // Two sends per handle's turn; all land in the one shared queue.
        assert_eq!(bridge.send(CounterInput::AddOne), Ok(()));
        assert_eq!(bridge.send(CounterInput::AddOne), Ok(()));
    }
    let mut got: u32 = 0;
    loop {
        match bridge.receive() {
            Ok(CounterOutput::Count(v)) => {
                got += 1;
                assert_eq!(v, got);
            }
            Err(e) => {
                assert_eq!(e, Error::WouldBlock);
                break;
            }
        }
    }
    assert_eq!(got, 6);
}

#[test]
fn shutdown_is_observed_once_all_handles_drop() {
    // Once every handle is dropped, the loop's next receive attempt
    // observes closure and terminates — after draining what was queued.
    let mut bridge = spawn::<Counter>();
    assert_eq!(bridge.send(CounterInput::AddOne), Ok(()));
    assert_eq!(bridge.send(CounterInput::AddOne), Ok(()));
    bridge.drop_handle();
    assert_eq!(bridge.live_handles(), 0);
    bridge.poll();
    assert!(!bridge.is_running());
    // Queued work was still handled once; its replies remain drainable.
    assert_eq!(bridge.pending_replies(), 2);
    assert_eq!(bridge.receive(), Ok(CounterOutput::Count(1)));
    assert_eq!(bridge.receive(), Ok(CounterOutput::Count(2)));
    assert_eq!(bridge.receive(), Err(Error::Dropped));
}

#[test]
fn close_still_replies_then_rejects() {
    // The closing message still gets its reply; anything sent after it is
    // never handled and later sends are rejected.
    let mut bridge = spawn::<Counter>();
    assert_eq!(bridge.send(CounterInput::Stop), Ok(()));
    // Queued behind the closing message: never delivered to the actor.
    assert_eq!(bridge.send(CounterInput::AddOne), Ok(()));
    assert_eq!(bridge.receive(), Ok(CounterOutput::Count(0)));
    assert!(!bridge.is_running());
    assert_eq!(bridge.receive(), Err(Error::Dropped));
    assert_eq!(bridge.send(CounterInput::AddOne), Err(Error::Dropped));
    assert_eq!(bridge.get(CounterInput::AddOne), Err(Error::Dropped));
}

#[test]
fn get_after_close_is_rejected() {
    let mut bridge = spawn::<Counter>();
    assert_eq!(bridge.get(CounterInput::Stop), Ok(CounterOutput::Count(0)));
    assert!(!bridge.is_running());
    assert_eq!(bridge.send(CounterInput::AddOne), Err(Error::Dropped));
}

#[test]
fn receive_with_nothing_pending_would_block() {
    let mut bridge = spawn::<Counter>();
    assert_eq!(bridge.receive(), Err(Error::WouldBlock));
    assert!(bridge.is_running());
}

#[test]
fn spawn_with_unit_context_matches_spawn() {
    let mut a = spawn_with::<Counter>(());
    let mut b = spawn::<Counter>();
    assert_eq!(a.get(CounterInput::AddOne), b.get(CounterInput::AddOne));
}

#[test]
fn queue_is_fifo() {
    let mut q: Queue<u32> = Queue::new();
    assert!(q.is_empty());
    assert_eq!(q.pop(), None);
    q.push(10);
    q.push(20);
    q.push(30);
    assert_eq!(q.len(), 3);
    assert_eq!(q.pop(), Some(10));
    assert_eq!(q.pop(), Some(20));
    assert_eq!(q.pop(), Some(30));
    assert_eq!(q.pop(), None);
}

#[test]
fn link_starts_open_and_close_is_final() {
    let mut link = Link::new();
    assert!(link.open());
    link.close();
    assert!(!link.open());
}
