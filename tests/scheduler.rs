use midi_keys::event::{interpret, Effect, KeySym};
use midi_keys::queue::{PendingRelease, ReleaseQueue};

const MS: u64 = 1_000_000;

fn rec(issued_ms: u64, hold_ms: u32, key: KeySym) -> PendingRelease {
    PendingRelease::new(issued_ms * MS, hold_ms, key)
}

#[test]
fn new_queue_is_empty() {
    let q = ReleaseQueue::new();
    assert!(q.is_empty());
    assert_eq!(q.len(), 0);
    assert!(q.peek_front().is_none());
}

#[test]
fn push_peek_pop_keep_order() {
    let mut q = ReleaseQueue::new();
    let a = rec(0, 10, KeySym::Space);
    let b = rec(1, 20, KeySym::Layout('w'));
    q.push_back(a);
    q.push_back(b);
    assert_eq!(q.len(), 2);
    assert_eq!(q.peek_front(), Some(&a));
    assert_eq!(q.pop_front(), Some(a));
    assert_eq!(q.pop_front(), Some(b));
    assert_eq!(q.pop_front(), None);
    assert!(q.is_empty());
}

#[test]
fn due_only_strictly_after_the_hold() {
    let r = rec(5, 50, KeySym::Space);
    assert!(!r.is_due(5 * MS));
    assert!(!r.is_due(55 * MS));
    assert!(r.is_due(55 * MS + 1));
    assert!(!r.is_due(0));
}

#[test]
fn front_due_reads_only_the_front() {
    let mut q = ReleaseQueue::new();
    assert!(!q.front_due(1_000 * MS));
    q.push_back(rec(0, 200, KeySym::Space));
    q.push_back(rec(1, 10, KeySym::Layout('d')));
    assert!(!q.front_due(100 * MS));
    assert!(q.front_due(201 * MS));
    assert_eq!(q.len(), 2);
}

#[test]
fn enqueue_press_adds_one_record_for_held_keys_only() {
    let mut q = ReleaseQueue::new();
    assert!(q.enqueue_press(Effect::Press { key: KeySym::Layout('s'), hold_ms: 30 }, 7));
    assert_eq!(q.peek_front(), Some(&PendingRelease::new(7, 30, KeySym::Layout('s'))));
    assert!(!q.enqueue_press(Effect::Click, 8));
    assert!(!q.enqueue_press(Effect::MoveRelative { dx: 30, dy: 0 }, 8));
    assert!(!q.enqueue_press(Effect::Ignored, 8));
    assert!(!q.enqueue_press(Effect::Malformed, 8));
    assert_eq!(q.len(), 1);
}

#[test]
fn scenario_release_after_hold() {
    let mut q = ReleaseQueue::new();
    assert!(q.enqueue_press(interpret(&[144, 10, 25]), 0));
    assert_eq!(q.poll(40 * MS), None);
    assert_eq!(q.len(), 1);
    assert_eq!(q.poll(60 * MS), Some(rec(0, 50, KeySym::Space)));
    assert!(q.is_empty());
}

#[test]
fn scenario_head_of_line_blocking() {
    let mut q = ReleaseQueue::new();
    q.push_back(rec(0, 200, KeySym::Layout('w')));
    q.push_back(rec(1, 10, KeySym::Layout('a')));
    let mut released = Vec::new();
    let mut t: u64 = 0;
    while t <= 300 {
        if let Some(r) = q.poll(t * MS) {
            released.push((r.key, t));
        }
        t += 1;
    }
    assert_eq!(released, vec![(KeySym::Layout('w'), 201), (KeySym::Layout('a'), 202)]);
}

#[test]
fn scenario_malformed_event_mid_stream() {
    let mut q = ReleaseQueue::new();
    assert!(q.enqueue_press(interpret(&[144, 40, 50]), 0));
    let before = q.len();
    let e = interpret(&[144, 40]);
    assert_eq!(e, Effect::Malformed);
    assert!(!q.enqueue_press(e, 1));
    assert_eq!(q.len(), before);
    assert!(q.enqueue_press(interpret(&[144, 45, 50]), 2));
    assert_eq!(q.len(), before + 1);
}

#[test]
fn scenario_zero_strength_released_on_next_poll() {
    let mut q = ReleaseQueue::new();
    let e = interpret(&[144, 25, 0]);
    assert_eq!(e, Effect::Press { key: KeySym::Layout('w'), hold_ms: 0 });
    assert!(q.enqueue_press(e, 1_000));
    assert_eq!(q.poll(1_001), Some(PendingRelease::new(1_000, 0, KeySym::Layout('w'))));
    assert!(q.is_empty());
}

#[test]
fn releases_follow_enqueue_order_once_each() {
    let mut q = ReleaseQueue::new();
    let holds: [u32; 5] = [30, 0, 120, 5, 60];
    let keys = [
        KeySym::Space,
        KeySym::Layout('w'),
        KeySym::Layout('a'),
        KeySym::Home,
        KeySym::Layout('d'),
    ];
    let mut released = Vec::new();
    let mut t: u64 = 0;
    while t <= 400 {
        if t < 5 {
            q.push_back(rec(t, holds[t as usize], keys[t as usize]));
        }
        if let Some(r) = q.poll(t * MS) {
            assert!(t * MS > r.issued_at + r.hold_ms as u64 * MS);
            released.push(r.key);
        }
        t += 1;
    }
    assert_eq!(released, keys.to_vec());
    assert!(q.is_empty());
}

#[test]
fn due_queue_drains_in_as_many_polls_as_records() {
    let mut q = ReleaseQueue::new();
    for i in 0..4u64 {
        q.push_back(rec(i, 10, KeySym::Layout('s')));
    }
    let mut n = 0;
    while q.poll(1_000 * MS).is_some() {
        n += 1;
    }
    assert_eq!(n, 4);
    assert!(q.is_empty());
}
