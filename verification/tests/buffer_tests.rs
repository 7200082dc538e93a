use skopio::buffer::{retry_pause_ms, FlushBuffer, FLUSH_AT, MAX_ATTEMPTS};

const SEC: u64 = 1_000_000_000;

#[test]
fn new_buffer_is_empty() {
    let b: FlushBuffer<u32> = FlushBuffer::new(5, 30);
    assert!(b.buffer.is_empty() && b.retry_queue.is_empty());
    assert_eq!(b.last_flush, 5);
    assert_eq!(b.flush_interval, 30 * SEC);
    let huge: FlushBuffer<u32> = FlushBuffer::new(0, u64::MAX);
    assert_eq!(huge.flush_interval, u64::MAX);
}

#[test]
fn tenth_record_flushes() {
    let mut b: FlushBuffer<u32> = FlushBuffer::new(0, 3600);
    for i in 0..(FLUSH_AT as u32 - 1) {
        assert_eq!(b.on_record(i, 1), None);
    }
    let batch = b.on_record(9, 2).unwrap();
    assert_eq!(batch, (0..10).collect::<Vec<u32>>());
    assert!(b.buffer.is_empty());
    assert_eq!(b.last_flush, 2);
}

#[test]
fn interval_elapsed_flushes() {
    let mut b: FlushBuffer<&str> = FlushBuffer::new(0, 1);
    assert_eq!(b.on_record("a", SEC - 1), None);
    assert_eq!(b.on_record("b", SEC), Some(vec!["a", "b"]));
}

#[test]
fn retries_go_first() {
    let mut b: FlushBuffer<u8> = FlushBuffer::new(0, 60);
    b.on_record(3, 1);
    b.requeue(vec![1, 2]);
    assert_eq!(b.on_timer(2), Some(vec![1, 2, 3]));
    assert_eq!(b.on_timer(3), None);
}

#[test]
fn timer_without_records_keeps_retries() {
    let mut b: FlushBuffer<u8> = FlushBuffer::new(0, 60);
    b.requeue(vec![7]);
    assert_eq!(b.on_timer(10), None);
    assert_eq!(b.retry_queue, vec![7]);
}

#[test]
fn shutdown_drains_everything() {
    let mut b: FlushBuffer<u8> = FlushBuffer::new(0, 60);
    b.on_record(2, 1);
    b.requeue(vec![1]);
    assert_eq!(b.on_shutdown(vec![3, 4], 9), vec![1, 2, 3, 4]);
    assert!(b.buffer.is_empty() && b.retry_queue.is_empty());
    assert_eq!(b.last_flush, 9);
}

#[test]
fn interval_changes() {
    let mut b: FlushBuffer<u8> = FlushBuffer::new(0, 60);
    b.set_interval(5);
    assert_eq!(b.flush_interval, 5 * SEC);
}

#[test]
fn retry_pauses() {
    assert_eq!(MAX_ATTEMPTS, 3);
    assert_eq!(retry_pause_ms(0), Some(200));
    assert_eq!(retry_pause_ms(1), Some(400));
    assert_eq!(retry_pause_ms(2), None);
    assert_eq!(retry_pause_ms(u32::MAX), None);
}

#[test]
fn records_are_conserved_across_flushes() {
    let mut b: FlushBuffer<u32> = FlushBuffer::new(0, 3600);
    let mut out = Vec::new();
    for i in 0..25u32 {
        if let Some(batch) = b.on_record(i, 1) {
            out.extend(batch);
        }
        assert!(b.buffer.len() < FLUSH_AT);
    }
    out.extend(b.on_shutdown(vec![], 2));
    assert_eq!(out, (0..25).collect::<Vec<u32>>());
}
