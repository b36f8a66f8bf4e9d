//! The bounded ISR-safe queues and the tick conversion.

use esp32framework::utils::auxiliary::micro_to_ticks;
use esp32framework::utils::auxiliary::ISRByteArrayQueue;
use esp32framework::utils::auxiliary::ISRQueue;
use esp32framework::utils::auxiliary::ISRQueueError;
use esp32framework::utils::auxiliary::TICK_RATE_HZ;

#[test]
fn queue_overflow_is_observable_not_silent() {
    // Pushing more entries than capacity yields a reported error on the
    // overflowing push, and the entries already queued are still
    // retrievable, in order and uncorrupted.
    let mut queue: ISRQueue<u32> = ISRQueue::new(3);
    assert!(queue.send_timeout(10, 1_000).is_ok());
    assert!(queue.send_timeout(20, 1_000).is_ok());
    assert!(queue.send_timeout(30, 1_000).is_ok());
    assert_eq!(queue.send_timeout(40, 1_000), Err(ISRQueueError::Timeout));
    assert_eq!(queue.receive_timeout(1_000), Ok(10));
    assert_eq!(queue.receive_timeout(1_000), Ok(20));
    assert_eq!(queue.receive_timeout(1_000), Ok(30));
    assert_eq!(queue.receive_timeout(1_000), Err(ISRQueueError::Timeout));
}

#[test]
fn try_send_and_try_recv_never_block() {
    let mut queue: ISRQueue<u8> = ISRQueue::new(1);
    assert_eq!(queue.try_recv(), Err(ISRQueueError::Empty));
    assert!(queue.try_send(7).is_ok());
    assert_eq!(queue.try_send(8), Err(ISRQueueError::Empty));
    assert_eq!(queue.try_recv(), Ok(7));
}

#[test]
fn queue_delivers_in_fifo_order() {
    let mut queue: ISRQueue<u16> = ISRQueue::new(8);
    for value in [5u16, 6, 7, 8] {
        queue.send_timeout(value, 0).unwrap();
    }
    assert_eq!(queue.len(), 4);
    assert_eq!(*queue.get(0), 5);
    assert_eq!(*queue.get(3), 8);
    for value in [5u16, 6, 7, 8] {
        assert_eq!(queue.receive_timeout(0), Ok(value));
    }
}

#[test]
fn byte_array_queue_round_trips_messages() {
    let mut queue = ISRByteArrayQueue::new(1);
    queue.send_timeout(vec![1, 2, 3], 0).unwrap();
    queue.send_timeout(vec![], 0).unwrap();
    queue.send_timeout(vec![9], 0).unwrap();
    assert_eq!(queue.receive_timeout(0), Ok(vec![1, 2, 3]));
    assert_eq!(queue.receive_timeout(0), Ok(vec![]));
    assert_eq!(queue.receive_timeout(0), Ok(vec![9]));
    assert_eq!(queue.receive_timeout(0), Err(ISRQueueError::Timeout));
}

#[test]
fn byte_array_queue_rejects_whole_oversized_message() {
    // Capacity is 32 slots per unit of size: a 32-byte message needs 33
    // slots with its terminator, so it is rejected whole, and what was
    // queued before stays intact.
    let mut queue = ISRByteArrayQueue::new(1);
    queue.send_timeout(vec![42; 10], 0).unwrap();
    let oversized = vec![7u8; 32];
    assert_eq!(queue.send_timeout(oversized, 0), Err(ISRQueueError::Timeout));
    assert_eq!(queue.receive_timeout(0), Ok(vec![42; 10]));
}

#[test]
fn micro_to_ticks_converts_exactly() {
    assert_eq!(TICK_RATE_HZ, 100);
    assert_eq!(micro_to_ticks(1_000_000), 100);
    assert_eq!(micro_to_ticks(999_999), 99);
    assert_eq!(micro_to_ticks(10_000), 1);
    assert_eq!(micro_to_ticks(9_999), 0);
    assert_eq!(micro_to_ticks(0), 0);
    assert_eq!(micro_to_ticks(u32::MAX), 429_496);
}
