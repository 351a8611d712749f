use statusdash::history::{History, DEFAULT_HISTORY_CAPACITY};
use statusdash::status::{MonitorStatus, StatusState};

fn entry(code: i64) -> MonitorStatus {
    MonitorStatus {
        status: StatusState::Green,
        metadata: Vec::new(),
        code,
        description: format!("entry {}", code),
    }
}

#[test]
fn new_history_is_empty() {
    let h = History::new(DEFAULT_HISTORY_CAPACITY);
    assert_eq!(h.len(), 0);
    assert_eq!(h.capacity(), DEFAULT_HISTORY_CAPACITY);
    assert!(h.snapshot().is_empty());
}

#[test]
fn fills_up_to_capacity_in_order() {
    let mut h = History::new(3);
    h.push(entry(10));
    h.push(entry(11));
    assert_eq!(h.len(), 2);
    let snap = h.snapshot();
    assert_eq!(snap[0].code, 10);
    assert_eq!(snap[1].code, 11);
}

#[test]
fn never_exceeds_capacity_and_keeps_the_most_recent() {
    let capacity = 3usize;
    let extra = 4usize;
    let mut h = History::new(capacity);
    for code in 0..(capacity + extra) as i64 {
        h.push(entry(code));
        assert!(h.len() <= capacity);
    }
    assert_eq!(h.len(), capacity);
    let snap = h.snapshot();
    // exactly the last `capacity` entries, in completion order
    assert_eq!(snap.len(), capacity);
    assert_eq!(snap[0].code, 4);
    assert_eq!(snap[1].code, 5);
    assert_eq!(snap[2].code, 6);
}

#[test]
fn capacity_one_keeps_only_the_newest() {
    let mut h = History::new(1);
    h.push(entry(1));
    h.push(entry(2));
    assert_eq!(h.len(), 1);
    assert_eq!(h.snapshot()[0].code, 2);
}

#[test]
fn snapshot_is_a_stable_copy() {
    let mut h = History::new(2);
    h.push(entry(5));
    let snap = h.snapshot();
    h.push(entry(6));
    h.push(entry(7));
    // the earlier snapshot does not observe later pushes
    assert_eq!(snap.len(), 1);
    assert_eq!(snap[0].code, 5);
    assert_eq!(snap[0].description, "entry 5");
    let now = h.snapshot();
    assert_eq!(now.len(), 2);
    assert_eq!(now[0].code, 6);
    assert_eq!(now[1].code, 7);
}
