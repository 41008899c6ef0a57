use job_hub::bus::{Bus, BUS_CAPACITY};
use job_hub::ws::{IoType, ServerMessage, TaskIoChunk};

fn chunk(id: &str, text: &str) -> ServerMessage {
    ServerMessage::TaskIoChunk(TaskIoChunk {
        id: id.to_string(),
        chunk: text.to_string(),
        io_type: IoType::Stdout,
    })
}

#[test]
fn fan_out_delivers_in_order_to_both_subscribers() {
    let mut bus = Bus::new();
    let a = bus.subscribe();
    let b = bus.subscribe();
    for i in 0..10 {
        let _ = i;
        bus.publish(chunk("0", "X\n"));
    }
    let mut got_a = String::new();
    while let Some(ServerMessage::TaskIoChunk(c)) = bus.recv(a) {
        assert_eq!(c.io_type, IoType::Stdout);
        assert_eq!(c.id, "0");
        got_a.push_str(&c.chunk);
    }
    let mut got_b = String::new();
    while let Some(ServerMessage::TaskIoChunk(c)) = bus.recv(b) {
        got_b.push_str(&c.chunk);
    }
    assert_eq!(got_a, "X\n".repeat(10));
    assert_eq!(got_b, "X\n".repeat(10));
}

#[test]
fn no_events_for_a_job_that_wrote_nothing() {
    let mut bus = Bus::new();
    let sid = bus.subscribe();
    assert_eq!(bus.recv(sid), None);
    assert_eq!(bus.pending(sid), 0);
}

#[test]
fn a_late_subscriber_sees_only_later_events() {
    let mut bus = Bus::new();
    bus.publish(chunk("0", "early"));
    let sid = bus.subscribe();
    bus.publish(chunk("0", "late"));
    assert_eq!(bus.recv(sid), Some(chunk("0", "late")));
    assert_eq!(bus.recv(sid), None);
}

#[test]
fn a_lagging_subscriber_loses_the_oldest_events_only() {
    let mut bus = Bus::new();
    let slow = bus.subscribe();
    let total = BUS_CAPACITY + 5;
    for i in 0..total {
        bus.publish(chunk("0", &i.to_string()));
    }
    assert_eq!(bus.pending(slow), BUS_CAPACITY);
    // The five oldest were dropped; delivery resumes in order at the sixth.
    for i in 5..total {
        assert_eq!(bus.recv(slow), Some(chunk("0", &i.to_string())));
    }
    assert_eq!(bus.recv(slow), None);
}

#[test]
fn publishing_never_blocks_on_a_slow_subscriber() {
    let mut bus = Bus::new();
    let slow = bus.subscribe();
    let fast = bus.subscribe();
    for i in 0..(3 * BUS_CAPACITY) {
        bus.publish(chunk("0", &i.to_string()));
        // The fast subscriber keeps up and sees everything, in order.
        assert_eq!(bus.recv(fast), Some(chunk("0", &i.to_string())));
    }
    // The slow one still gets the most recent window, in order.
    let mut last = None;
    while let Some(ServerMessage::TaskIoChunk(c)) = bus.recv(slow) {
        let n: usize = c.chunk.parse().unwrap();
        if let Some(prev) = last {
            assert!(n > prev);
        }
        last = Some(n);
    }
    assert_eq!(last, Some(3 * BUS_CAPACITY - 1));
}
