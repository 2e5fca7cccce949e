use event_queue::arena::TickArena;
use event_queue::protocol::{claim, Claim};
use event_queue::raw::RawQueue;
use event_queue::record::{QueueError, TypeTag, TypedBumpPtr};
use event_queue::typed::EventQueue;

const INT_TAG: TypeTag = TypeTag { raw: 1 };
const OTHER_TAG: TypeTag = TypeTag { raw: 2 };

#[derive(Debug, Clone, Copy, PartialEq, Eq)]
struct Marker;

#[derive(Debug, Clone, Copy, PartialEq, Eq)]
#[allow(dead_code)]
struct Wide {
    lanes: [u128; 4],
    flag: u8,
}

#[test]
fn record_keeps_tag_and_address() {
    let record = TypedBumpPtr::new(INT_TAG, 48);
    assert_eq!(record.id(), INT_TAG);
    assert_eq!(record.elem(), 48);
    let copy = record;
    assert_eq!(copy, record);
}

#[test]
fn resolve_checks_the_tag() {
    let record = TypedBumpPtr::new(INT_TAG, 5);
    assert_eq!(record.resolve(INT_TAG), Ok(5));
    assert_eq!(record.resolve(OTHER_TAG), Err(QueueError::TypeMismatch));
}

#[test]
fn raw_queue_starts_empty() {
    let queue = RawQueue::new(3);
    assert_eq!(queue.capacity(), 3);
    assert_eq!(queue.len(), 0);
    assert!(queue.iter().is_empty());
}

#[test]
fn raw_queue_keeps_push_order() {
    let mut queue = RawQueue::new(3);
    for address in [30usize, 10, 20] {
        assert_eq!(queue.push(TypedBumpPtr::new(INT_TAG, address)), Ok(()));
    }
    let addresses: Vec<usize> = queue.iter().iter().map(|r| r.elem()).collect();
    assert_eq!(addresses, vec![30, 10, 20]);
    assert_eq!(queue.len(), 3);
}

#[test]
fn raw_queue_iter_is_restartable() {
    let mut queue = RawQueue::new(2);
    queue.push(TypedBumpPtr::new(INT_TAG, 1)).unwrap();
    let first = queue.iter();
    let second = queue.iter();
    assert_eq!(first, second);
    assert_eq!(queue.len(), 1);
}

#[test]
fn raw_queue_full_push_changes_nothing() {
    let mut queue = RawQueue::new(1);
    assert_eq!(queue.push(TypedBumpPtr::new(INT_TAG, 7)), Ok(()));
    for _ in 0..100 {
        assert_eq!(
            queue.push(TypedBumpPtr::new(INT_TAG, 9)),
            Err(QueueError::QueueFull)
        );
        assert_eq!(queue.len(), 1);
    }
    assert_eq!(queue.iter(), vec![TypedBumpPtr::new(INT_TAG, 7)]);
}

#[test]
fn raw_queue_of_capacity_zero_rejects_everything() {
    let mut queue = RawQueue::new(0);
    assert_eq!(
        queue.push(TypedBumpPtr::new(INT_TAG, 0)),
        Err(QueueError::QueueFull)
    );
    assert_eq!(queue.len(), 0);
    assert!(queue.iter().is_empty());
}

#[test]
fn raw_queue_reset_frees_every_slot() {
    let mut queue = RawQueue::new(2);
    queue.push(TypedBumpPtr::new(INT_TAG, 1)).unwrap();
    queue.push(TypedBumpPtr::new(INT_TAG, 2)).unwrap();
    queue.reset();
    assert_eq!(queue.len(), 0);
    assert_eq!(queue.capacity(), 2);
    assert!(queue.iter().is_empty());
    queue.push(TypedBumpPtr::new(OTHER_TAG, 3)).unwrap();
    assert_eq!(queue.iter(), vec![TypedBumpPtr::new(OTHER_TAG, 3)]);
}

#[test]
fn arena_hands_out_consecutive_addresses() {
    let mut arena: TickArena<u16> = TickArena::new();
    assert_eq!(arena.allocate(500), 0);
    assert_eq!(arena.allocate(600), 1);
    assert_eq!(arena.allocated(), 2);
    assert_eq!(arena.read(0), Some(500));
    assert_eq!(arena.read(1), Some(600));
    assert_eq!(arena.read(2), None);
}

#[test]
fn arena_reset_invalidates_addresses() {
    let mut arena: TickArena<u16> = TickArena::new();
    let address = arena.allocate(1);
    arena.reset();
    assert_eq!(arena.allocated(), 0);
    assert_eq!(arena.read(address), None);
    assert_eq!(arena.allocate(2), 0);
    assert_eq!(arena.read(0), Some(2));
}

#[test]
fn pushes_within_capacity_all_succeed() {
    let mut queue: EventQueue<u64> = EventQueue::new(INT_TAG, 8);
    let events = [5u64, 3, 8, 13, 21];
    for event in events {
        assert_eq!(queue.push(event), Ok(()));
    }
    assert_eq!(queue.drain(), events.to_vec());
    assert_eq!(queue.len(), 5);
}

#[test]
fn pushes_beyond_capacity_fail_with_queue_full() {
    let mut queue: EventQueue<u32> = EventQueue::new(INT_TAG, 3);
    let mut accepted = 0;
    let mut rejected = 0;
    for event in 0..10u32 {
        match queue.push(event) {
            Ok(()) => accepted += 1,
            Err(error) => {
                assert_eq!(error, QueueError::QueueFull);
                rejected += 1;
            }
        }
        assert!(queue.len() <= queue.capacity());
    }
    assert_eq!(accepted, 3);
    assert_eq!(rejected, 7);
    assert_eq!(queue.drain(), vec![0, 1, 2]);
}

#[test]
fn reset_then_drain_is_empty() {
    let mut queue: EventQueue<u8> = EventQueue::new(INT_TAG, 4);
    queue.push(1).unwrap();
    queue.push(2).unwrap();
    queue.reset();
    assert!(queue.drain().is_empty());
}

#[test]
fn reset_allows_full_reuse() {
    let mut queue: EventQueue<i32> = EventQueue::new(INT_TAG, 3);
    for tick in 0..5 {
        for event in 0..3 {
            assert_eq!(queue.push(tick * 10 + event), Ok(()));
        }
        assert_eq!(queue.push(-1), Err(QueueError::QueueFull));
        assert_eq!(queue.drain(), vec![tick * 10, tick * 10 + 1, tick * 10 + 2]);
        queue.reset();
    }
}

#[test]
fn early_drain_is_a_snapshot() {
    let mut queue: EventQueue<u8> = EventQueue::new(INT_TAG, 4);
    queue.push(1).unwrap();
    assert_eq!(queue.drain(), vec![1]);
    queue.push(2).unwrap();
    assert_eq!(queue.drain(), vec![1, 2]);
}

#[test]
fn round_trip_of_zero_sized_payload() {
    let mut queue: EventQueue<Marker> = EventQueue::new(INT_TAG, 2);
    queue.push(Marker).unwrap();
    queue.push(Marker).unwrap();
    assert_eq!(queue.push(Marker), Err(QueueError::QueueFull));
    assert_eq!(queue.drain(), vec![Marker, Marker]);
}

#[test]
fn round_trip_of_wide_payload() {
    let event = Wide {
        lanes: [u128::MAX, 0, 0x0123_4567_89ab_cdef_0123_4567_89ab_cdef, 1],
        flag: 0xa5,
    };
    let mut queue: EventQueue<Wide> = EventQueue::new(INT_TAG, 1);
    queue.push(event).unwrap();
    assert_eq!(queue.drain(), vec![event]);
}

#[test]
fn round_trip_of_tuple_payload() {
    let mut queue: EventQueue<(u8, i64, bool)> = EventQueue::new(OTHER_TAG, 2);
    queue.push((1, -2, true)).unwrap();
    queue.push((255, i64::MIN, false)).unwrap();
    assert_eq!(queue.drain(), vec![(1, -2, true), (255, i64::MIN, false)]);
}

#[test]
fn four_pushers_fill_a_queue_of_four() {
    let mut queue: EventQueue<i32> = EventQueue::new(INT_TAG, 4);
    for event in [11, 22, 33, 44] {
        assert_eq!(queue.push(event), Ok(()));
    }
    let mut drained = queue.drain();
    drained.sort();
    assert_eq!(drained.len(), 4);
    assert_eq!(drained, vec![11, 22, 33, 44]);
    assert_eq!(queue.push(55), Err(QueueError::QueueFull));
    assert_eq!(queue.len(), 4);
    assert_eq!(queue.drain().len(), 4);
}

#[test]
fn facade_keeps_its_tag_across_ticks() {
    let mut queue: EventQueue<u8> = EventQueue::new(OTHER_TAG, 2);
    assert_eq!(queue.tag(), OTHER_TAG);
    queue.push(1).unwrap();
    queue.reset();
    assert_eq!(queue.tag(), OTHER_TAG);
    assert_eq!(queue.capacity(), 2);
}

#[test]
fn untouched_queue_of_a_thousand_drains_empty() {
    let mut queue: EventQueue<u64> = EventQueue::new(INT_TAG, 1000);
    assert_eq!(queue.capacity(), 1000);
    assert!(queue.drain().is_empty());
    queue.reset();
    assert!(queue.drain().is_empty());
}

#[test]
fn ticket_within_the_array_is_a_slot() {
    assert_eq!(claim(0, 4), Claim::Slot(0));
    assert_eq!(claim(3, 4), Claim::Slot(3));
    assert_eq!(claim(4, 4), Claim::RollBack);
    assert_eq!(claim(9, 4), Claim::RollBack);
    assert_eq!(claim(0, 0), Claim::RollBack);
}

#[test]
fn dropped_event_never_shows_up() {
    let mut queue: EventQueue<u8> = EventQueue::new(INT_TAG, 1);
    assert_eq!(queue.push(1), Ok(()));
    assert_eq!(queue.push(2), Err(QueueError::QueueFull));
    assert_eq!(queue.drain(), vec![1]);
    queue.reset();
    assert_eq!(queue.push(3), Ok(()));
    assert_eq!(queue.drain(), vec![3]);
}
