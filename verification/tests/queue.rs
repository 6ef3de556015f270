use lib::request::{Empty, Full, Request, Response};
use lib::ring::{Queue, RequestRing, ResponseRing, WaitAction, WaitEvent};

#[test]
fn enqueue_request() {
    let base = Box::new([0u8; 4096]);
    let mut queue = Queue::new(base.as_ptr() as u64, 1, 1);
    queue.enqueue_request(Request::default()).unwrap();
    assert_eq!(queue.request_ring().user_index(), 1);
    assert_eq!(queue.request_ring().kernel_index(), 0);
}

#[test]
fn dequeue_request() {
    let base = Box::new([0u8; 4096]);
    let mut queue = Queue::new(base.as_ptr() as u64, 1, 1);
    queue
        .enqueue_request(Request { user_data: 1337, ..Default::default() })
        .unwrap();
    assert_eq!(queue.request_ring().user_index(), 1);
    assert_eq!(queue.request_ring().kernel_index(), 0);
    let req = queue.dequeue_request().unwrap();
    assert_eq!(queue.request_ring().user_index(), 1);
    assert_eq!(queue.request_ring().kernel_index(), 1);
    assert_eq!(req.user_data, 1337);
}

#[test]
fn enqueue_2_requests() {
    let base = Box::new([0u8; 4096]);
    let mut queue = Queue::new(base.as_ptr() as u64, 1, 1);
    queue.enqueue_request(Request::default()).unwrap();
    assert_eq!(queue.request_ring().user_index(), 1);
    assert_eq!(queue.request_ring().kernel_index(), 0);
    queue.enqueue_request(Request::default()).unwrap();
    assert_eq!(queue.request_ring().user_index(), 2);
    assert_eq!(queue.request_ring().kernel_index(), 0);
}

#[test]
fn enqueue_8_requests() {
    let base = Box::new([0u8; 4096]);
    let mut queue = Queue::new(base.as_ptr() as u64, 7, 7);
    for i in 1..9 {
        queue.enqueue_request(Request::default()).unwrap();
        assert_eq!(queue.request_ring().user_index(), i);
        assert_eq!(queue.request_ring().kernel_index(), 0);
    }
}

#[test]
fn dequeue_8_requests() {
    let base = Box::new([0u8; 4096]);
    let mut queue = Queue::new(base.as_ptr() as u64, 7, 7);
    for i in 1..9u32 {
        queue
            .enqueue_request(Request { user_data: i.into(), ..Default::default() })
            .unwrap();
        assert_eq!(queue.request_ring().user_index(), i);
        assert_eq!(queue.request_ring().kernel_index(), 0);
    }
    for i in 1..9u32 {
        let req = queue.dequeue_request().unwrap();
        assert_eq!(req.user_data, u64::from(i));
        assert_eq!(queue.request_ring().user_index(), 8);
        assert_eq!(queue.request_ring().kernel_index(), i);
    }
}

#[test]
fn fail_enqueue_request() {
    let base = Box::new([0u8; 4096]);
    let mut queue = Queue::new(base.as_ptr() as u64, 1, 1);
    queue.enqueue_request(Request::default()).unwrap();
    assert_eq!(queue.request_ring().user_index(), 1);
    assert_eq!(queue.request_ring().kernel_index(), 0);
    queue.enqueue_request(Request::default()).unwrap();
    assert_eq!(queue.request_ring().user_index(), 2);
    assert_eq!(queue.request_ring().kernel_index(), 0);
    assert_eq!(Err(Full), queue.enqueue_request(Request::default()).map(|_| ()));
}

#[test]
fn fail_dequeue_request() {
    let base = Box::new([0u8; 4096]);
    let mut queue = Queue::new(base.as_ptr() as u64, 1, 1);
    assert!(queue.dequeue_request().is_err());
}

#[test]
fn enqueue_response() {
    let base = Box::new([0u8; 4096]);
    let mut queue = Queue::new(base.as_ptr() as u64, 1, 1);
    queue.enqueue_response(Response::default()).unwrap();
    assert_eq!(queue.response_ring().user_index(), 0);
    assert_eq!(queue.response_ring().kernel_index(), 1);
}

#[test]
fn dequeue_response() {
    let base = Box::new([0u8; 4096]);
    let mut queue = Queue::new(base.as_ptr() as u64, 1, 1);
    queue
        .enqueue_response(Response { user_data: 1337, ..Default::default() })
        .unwrap();
    assert_eq!(queue.response_ring().user_index(), 0);
    assert_eq!(queue.response_ring().kernel_index(), 1);
    let req = queue.dequeue_response().unwrap();
    assert_eq!(queue.response_ring().user_index(), 1);
    assert_eq!(queue.response_ring().kernel_index(), 1);
    assert_eq!(req.user_data, 1337);
}

#[test]
fn enqueue_2_responses() {
    let base = Box::new([0u8; 4096]);
    let mut queue = Queue::new(base.as_ptr() as u64, 1, 1);
    queue.enqueue_response(Response::default()).unwrap();
    assert_eq!(queue.response_ring().user_index(), 0);
    assert_eq!(queue.response_ring().kernel_index(), 1);
    queue.enqueue_response(Response::default()).unwrap();
    assert_eq!(queue.response_ring().user_index(), 0);
    assert_eq!(queue.response_ring().kernel_index(), 2);
}

#[test]
fn enqueue_8_responses() {
    let base = Box::new([0u8; 4096]);
    let mut queue = Queue::new(base.as_ptr() as u64, 7, 7);
    for i in 1..9 {
        queue.enqueue_response(Response::default()).unwrap();
        assert_eq!(queue.response_ring().user_index(), 0);
        assert_eq!(queue.response_ring().kernel_index(), i);
    }
}

#[test]
fn dequeue_8_responses() {
    let base = Box::new([0u8; 4096]);
    let mut queue = Queue::new(base.as_ptr() as u64, 7, 7);
    for i in 1..9u32 {
        queue
            .enqueue_response(Response { user_data: i.into(), ..Default::default() })
            .unwrap();
        assert_eq!(queue.response_ring().user_index(), 0);
        assert_eq!(queue.response_ring().kernel_index(), i);
    }
    for i in 1..9u32 {
        let req = queue.dequeue_response().unwrap();
        assert_eq!(req.user_data, u64::from(i));
        assert_eq!(queue.response_ring().user_index(), i);
        assert_eq!(queue.response_ring().kernel_index(), 8);
    }
}

#[test]
fn fail_enqueue_response() {
    let base = Box::new([0u8; 4096]);
    let mut queue = Queue::new(base.as_ptr() as u64, 1, 1);
    queue.enqueue_response(Response::default()).unwrap();
    assert_eq!(queue.response_ring().user_index(), 0);
    assert_eq!(queue.response_ring().kernel_index(), 1);
    queue.enqueue_response(Response::default()).unwrap();
    assert_eq!(queue.response_ring().user_index(), 0);
    assert_eq!(queue.response_ring().kernel_index(), 2);
    assert_eq!(Err(Full), queue.enqueue_response(Response::default()).map(|_| ()));
}

#[test]
fn fail_dequeue_response() {
    let base = Box::new([0u8; 4096]);
    let mut queue = Queue::new(base.as_ptr() as u64, 1, 1);
    assert!(queue.dequeue_response().is_err());
}

// Further cases.

#[test]
fn fifo_order_across_wrap_of_slots() {
    // A ring of 4 slots, filled and drained past its end: entries come out in order.
    let mut ring = RequestRing::new(3);
    let mut next_in: u64 = 0;
    let mut next_out: u64 = 0;
    for _ in 0..5 {
        for _ in 0..3 {
            ring.enqueue(3, Request { user_data: next_in, ..Default::default() }).unwrap();
            next_in += 1;
        }
        for _ in 0..3 {
            assert_eq!(ring.dequeue(3).unwrap().user_data, next_out);
            next_out += 1;
        }
    }
    assert_eq!(ring.user_index(), 15);
    assert_eq!(ring.kernel_index(), 15);
    assert_eq!(ring.dequeue(3).map(|r| r.user_data), Err(Empty));
}

#[test]
fn full_ring_refuses_and_keeps_its_entries() {
    let mut ring = ResponseRing::new(0);
    ring.enqueue(0, Response { value: -5, user_data: 9 }).unwrap();
    assert_eq!(ring.enqueue(0, Response { value: 1, user_data: 1 }), Err(Full));
    assert_eq!(ring.kernel_index(), 1);
    let r = ring.dequeue(0).unwrap();
    assert_eq!((r.value, r.user_data), (-5, 9));
    assert!(ring.dequeue(0).is_err());
}

#[test]
fn responses_available_counts_queued_responses() {
    let base = Box::new([0u8; 4096]);
    let mut queue = Queue::new(base.as_ptr() as u64, 1, 3);
    assert_eq!(queue.responses_available(), 0);
    queue.enqueue_response(Response::default()).unwrap();
    queue.enqueue_response(Response::default()).unwrap();
    queue.enqueue_response(Response::default()).unwrap();
    assert_eq!(queue.responses_available(), 3);
    queue.dequeue_response().unwrap();
    assert_eq!(queue.responses_available(), 2);
}

#[test]
fn wait_steps() {
    let base = Box::new([0u8; 4096]);
    let mut queue = Queue::new(base.as_ptr() as u64, 7, 7);
    queue.enqueue_request(Request::default()).unwrap();
    queue.enqueue_request(Request::default()).unwrap();
    assert_eq!(queue.wait_requests_empty(WaitEvent::Observed(0)), WaitAction::Ask(2));
    assert_eq!(queue.wait_requests_empty(WaitEvent::Observed(1)), WaitAction::Ask(1));
    assert_eq!(queue.wait_requests_empty(WaitEvent::Observed(2)), WaitAction::Stop);
    assert_eq!(queue.wait_requests_empty(WaitEvent::Answered(true)), WaitAction::Observe);
    assert_eq!(queue.wait_requests_empty(WaitEvent::Answered(false)), WaitAction::Stop);
    assert_eq!(queue.request_ring().wait_empty(WaitEvent::Observed(3)), WaitAction::Ask(u32::MAX));
    assert_eq!(queue.wait_response_any(WaitEvent::Observed(0)), WaitAction::Ask(()));
    assert_eq!(queue.wait_response_any(WaitEvent::Observed(1)), WaitAction::Stop);
    assert_eq!(queue.wait_response_any(WaitEvent::Answered(false)), WaitAction::Stop);
    assert_eq!(queue.response_ring().wait_any(WaitEvent::Answered(true)), WaitAction::Observe);
}

#[test]
fn wait_asks_once_when_closure_declines() {
    // The kernel never moves and the closure answers false: it is asked once.
    let base = Box::new([0u8; 4096]);
    let mut queue = Queue::new(base.as_ptr() as u64, 1, 1);
    queue.enqueue_request(Request::default()).unwrap();
    let mut asked = Vec::new();
    let mut event = WaitEvent::Observed(0);
    loop {
        match queue.wait_requests_empty(event) {
            WaitAction::Stop => break,
            WaitAction::Ask(n) => {
                asked.push(n);
                event = WaitEvent::Answered(false);
            }
            WaitAction::Observe => event = WaitEvent::Observed(0),
        }
    }
    assert_eq!(asked, vec![1]);
}

#[test]
fn indices_wrap_around() {
    let mut ring = RequestRing::new_at(3, u32::MAX - 1);
    for k in 0..4u64 {
        ring.enqueue(3, Request { user_data: k, ..Default::default() }).unwrap();
    }
    assert_eq!(ring.user_index(), 2);
    assert_eq!(ring.enqueue(3, Request::default()).map(|_| ()), Err(Full));
    for k in 0..4u64 {
        assert_eq!(ring.dequeue(3).unwrap().user_data, k);
    }
    assert_eq!(ring.kernel_index(), 2);
    assert!(ring.dequeue(3).is_err());
    let mut responses = ResponseRing::new_at(0, u32::MAX);
    responses.enqueue(0, Response { value: 3, user_data: 4 }).unwrap();
    assert_eq!(responses.kernel_index(), 0);
    assert_eq!(responses.dequeue(0).unwrap().value, 3);
    assert_eq!(responses.user_index(), 0);
}

#[test]
fn layout_in_shared_region() {
    let queue = Queue::new(0x10_0000, 1, 3);
    assert_eq!(queue.base(), 0x10_0000);
    assert_eq!(queue.request_ring_addr(), 0x10_0000);
    assert_eq!(queue.response_ring_addr(), 0x10_0000 + 8 + 2 * 32);
    assert_eq!(queue.request_slot_addr(0), 0x10_0000 + 8);
    assert_eq!(queue.request_slot_addr(5), 0x10_0000 + 8 + 32);
    assert_eq!(queue.response_slot_addr(6), 0x10_0000 + 8 + 2 * 32 + 8 + 2 * 16);
    let end = queue.response_ring_addr() + Queue::response_ring_size(3) as u64;
    assert_eq!(end, 0x10_0000 + Queue::total_size(1, 3) as u64);
}

#[test]
fn ring_sizes() {
    assert_eq!(Queue::request_ring_size(0), 8 + 32);
    assert_eq!(Queue::request_ring_size(7), 8 + 8 * 32);
    assert_eq!(Queue::response_ring_size(7), 8 + 8 * 16);
    assert_eq!(Queue::total_size(1, 3), 8 + 2 * 32 + 8 + 4 * 16);
}

#[test]
fn queue_masks() {
    let base = Box::new([0u8; 4096]);
    let queue = Queue::new(base.as_ptr() as u64, 15, 31);
    assert_eq!(queue.requests_mask(), 15);
    assert_eq!(queue.responses_mask(), 31);
}
