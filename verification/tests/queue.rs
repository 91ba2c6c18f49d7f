use registry::error::{Error, FrameworkError};
use registry::pubkey::Pubkey;
use registry::reward_queue::RewardQueue;
use registry::state::RewardEvent;

fn key(n: u64) -> Pubkey {
    Pubkey { w0: n, w1: 0, w2: 0, w3: 0 }
}

fn event(n: u64, ts: i64) -> RewardEvent {
    RewardEvent { vendor: key(n), ts, locked: false }
}

#[test]
fn append_returns_cursor_and_reads_back() {
    let mut q = RewardQueue::new(0, 0, vec![RewardEvent::default(); 3]);
    assert_eq!(q.append(event(1, 10)), Ok(0));
    assert_eq!(q.append(event(2, 20)), Ok(1));
    assert_eq!(q.head(), 2);
    assert_eq!(q.tail(), 0);
    assert_eq!(*q.get(0), event(1, 10));
    assert_eq!(*q.get(1), event(2, 20));
}

#[test]
fn full_queue_drops_oldest() {
    let mut q = RewardQueue::new(0, 0, vec![RewardEvent::default(); 3]);
    q.append(event(1, 10)).unwrap();
    q.append(event(2, 20)).unwrap();
    q.append(event(3, 30)).unwrap();
    assert_eq!(q.head(), 3);
    assert_eq!(q.tail(), 1);
    assert_eq!(*q.get(1), event(2, 20));
    assert_eq!(*q.get(2), event(3, 30));
    assert_eq!(q.index_of(3), 0);
    assert_eq!(q.capacity(), 3);
}

#[test]
fn queue_keeps_one_slot_free_and_wraps() {
    let mut q = RewardQueue::new(0, 0, vec![RewardEvent::default(); 2]);
    for i in 0..5u64 {
        assert_eq!(q.append(event(i, i as i64)), Ok(i as u32));
        assert!(q.head() - q.tail() <= 1);
    }
    assert_eq!(q.head(), 5);
    assert_eq!(q.tail(), 4);
    assert_eq!(*q.get(4), event(4, 4));
    assert_eq!(q.index_of(4), 0);
    assert_eq!(q.index_of(5), 1);
}

#[test]
fn resize_keeps_slots_and_fills_with_default() {
    let mut q = RewardQueue::new(7, 5, vec![event(1, 1), event(2, 2)]);
    q.resize(4);
    assert_eq!(q.capacity(), 4);
    assert_eq!(q.head(), 7);
    assert_eq!(q.tail(), 5);
    assert_eq!(q.events(), &vec![event(1, 1), event(2, 2), RewardEvent::default(), RewardEvent::default()]);
    q.resize(1);
    assert_eq!(q.events(), &vec![event(1, 1)]);
}

#[test]
fn reward_queue_account_data_round_trips() {
    let mut q = RewardQueue::new(0, 0, vec![RewardEvent::default(); 3]);
    q.append(event(9, 99)).unwrap();
    let data = q.try_serialize();
    assert_eq!(&data[..8], &[162, 152, 119, 24, 192, 185, 100, 167]);
    assert_eq!(data.len(), 8 + 12 + 3 * 41);
    assert_eq!(&data[8..12], &1u32.to_le_bytes());
    assert_eq!(&data[12..16], &0u32.to_le_bytes());
    assert_eq!(&data[16..20], &3u32.to_le_bytes());
    let back = RewardQueue::try_deserialize(&data).unwrap();
    assert_eq!(back.head(), 1);
    assert_eq!(back.tail(), 0);
    assert_eq!(back.events(), q.events());
    let mut longer = data.clone();
    longer.extend_from_slice(&[5, 5, 5]);
    assert_eq!(RewardQueue::try_deserialize(&longer).unwrap().events(), q.events());
}

#[test]
fn reward_queue_account_data_errors() {
    let q = RewardQueue::new(0, 0, vec![RewardEvent::default(); 2]);
    let data = q.try_serialize();
    assert_eq!(
        RewardQueue::try_deserialize(&data[..7]).unwrap_err(),
        Error::ProgramError(FrameworkError::AccountDiscriminatorNotFound)
    );
    let mut wrong = data.clone();
    wrong[0] ^= 1;
    assert_eq!(
        RewardQueue::try_deserialize(&wrong).unwrap_err(),
        Error::ProgramError(FrameworkError::AccountDiscriminatorMismatch)
    );
    assert_eq!(
        RewardQueue::try_deserialize(&data[..data.len() - 1]).unwrap_err(),
        Error::ProgramError(FrameworkError::AccountDidNotDeserialize)
    );
    assert_eq!(RewardQueue::try_deserialize_unchecked(&wrong).unwrap().capacity(), 2);
}
