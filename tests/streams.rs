use linuxvideo::shared::BufFlag;
use linuxvideo::stream::{
    Allocation, Buffers, ReadBufferView, ReadStream, WriteBufferView, WriteStream,
};
use linuxvideo::BufType;

fn assert_send_sync<T: Send + Sync>() {}

/// Allocates a pool as a driver would: `granted` buffers of `length` bytes for a request of
/// `requested`.
fn pool(requested: u32, granted: u32, length: u32) -> Buffers {
    let mut alloc = Allocation::new(requested, granted);
    while let Some(i) = alloc.next_index() {
        alloc.mapped(i, length);
    }
    alloc.finish()
}

fn read_stream(count: u32) -> ReadStream {
    let mut stream = ReadStream::new(pool(count, count, 4096), BufType::VIDEO_CAPTURE);
    while let Some(i) = stream.next_to_enqueue() {
        stream.enqueued(i);
    }
    stream.streaming_started();
    stream
}

fn flags(bits: &[u32]) -> Vec<BufFlag> {
    bits.iter().map(|b| BufFlag::from_bits(*b)).collect()
}

#[test]
fn stream_types_are_send_sync() {
    assert_send_sync::<WriteStream>();
    assert_send_sync::<ReadStream>();
    assert_send_sync::<WriteBufferView<'_>>();
    assert_send_sync::<ReadBufferView<'_>>();
}

#[test]
fn allocation_uses_smaller_grant() {
    let buffers = pool(4, 3, 100);
    assert_eq!(buffers.len(), 3);
    for i in 0..3 {
        assert_eq!(buffers.length(i), 100);
        assert!(!buffers.is_queued(i));
    }
}

#[test]
fn allocation_ignores_larger_grant() {
    assert_eq!(pool(2, 5, 100).len(), 2);
    assert_eq!(pool(4, 4, 100).len(), 4);
}

#[test]
fn allocation_without_buffers_gives_empty_pool() {
    let buffers = pool(4, 0, 100);
    assert_eq!(buffers.len(), 0);
    assert_eq!(pool(0, 3, 100).len(), 0);
    let mut read = ReadStream::new(pool(2, 0, 100), BufType::VIDEO_CAPTURE);
    assert_eq!(read.next_to_enqueue(), None);
    assert!(read.will_block(&[].to_vec()));
    assert_eq!(read.close(), Some(vec![]));
    let mut write = WriteStream::new(pool(2, 0, 100), BufType::VIDEO_OUTPUT);
    assert_eq!(write.next_unqueued_buffer(), None);
    assert_eq!(write.close(), Some(vec![]));
}

#[test]
fn failed_mapping_unmaps_earlier_regions() {
    let mut alloc = Allocation::new(4, 4);
    assert_eq!(alloc.next_index(), Some(0));
    alloc.mapped(0, 10);
    assert_eq!(alloc.next_index(), Some(1));
    alloc.mapped(1, 10);
    assert_eq!(alloc.next_index(), Some(2));
    assert_eq!(alloc.abort(), vec![0, 1]);
}

#[test]
fn read_stream_setup_queues_every_buffer() {
    let mut stream = ReadStream::new(pool(3, 3, 64), BufType::VIDEO_CAPTURE);
    assert_eq!(stream.next_to_enqueue(), Some(0));
    stream.enqueued(0);
    assert_eq!(stream.next_to_enqueue(), Some(1));
    stream.enqueued(1);
    assert_eq!(stream.next_to_enqueue(), Some(2));
    stream.enqueued(2);
    assert_eq!(stream.next_to_enqueue(), None);
    assert!(!stream.is_streaming());
    stream.streaming_started();
    assert!(stream.is_streaming());
}

#[test]
fn read_dequeue_cycle_four_buffers() {
    let mut stream = read_stream(4);
    assert_eq!(stream.buffer_count(), 4);
    // The driver reports buffer 0 as done.
    assert!(!stream.will_block(&flags(&[BufFlag::DONE | BufFlag::MAPPED, BufFlag::QUEUED, 0, 0])));
    stream.dequeued(0);
    assert_eq!(stream.in_flight(), Some(0));
    let data = vec![7u8; stream.buffer_length(0) as usize];
    let view = stream.in_flight_view(BufFlag::from_bits(BufFlag::DONE), &data, 100);
    assert!(view.used_len() <= view.raw_buffer().len());
    assert_eq!(view.bytes().len(), 100);
    assert_eq!(view.raw_buffer().len(), 4096);
    assert!(!view.is_error());
    let processed: Result<usize, &str> = Ok(view.bytes().len());
    assert_eq!(stream.finish_dequeue(processed, Ok(())), Ok(100));
    assert_eq!(stream.in_flight(), None);
    // Every buffer is queued again, and none is reported done.
    assert_eq!(stream.next_to_enqueue(), None);
    assert!(stream.will_block(&flags(&[BufFlag::QUEUED, BufFlag::QUEUED, 0, 0])));
}

#[test]
fn read_callback_error_is_returned_when_requeue_succeeds() {
    let mut stream = read_stream(2);
    stream.dequeued(1);
    let r: Result<(), &str> = stream.finish_dequeue(Err("callback failed"), Ok(()));
    assert_eq!(r, Err("callback failed"));
    assert_eq!(stream.next_to_enqueue(), None);
}

#[test]
fn read_requeue_error_wins_over_callback_result() {
    let mut stream = read_stream(2);
    stream.dequeued(1);
    let r: Result<u32, &str> = stream.finish_dequeue(Ok(5), Err("requeue failed"));
    assert_eq!(r, Err("requeue failed"));
    stream.dequeued(0);
    let r: Result<u32, &str> = stream.finish_dequeue(Err("callback failed"), Err("requeue failed"));
    assert_eq!(r, Err("requeue failed"));
    // Both buffers stayed with the process.
    assert_eq!(stream.next_to_enqueue(), Some(0));
}

#[test]
fn read_view_flags_errors() {
    let data = [1u8, 2, 3, 4];
    let view = ReadBufferView::new(BufFlag::from_bits(BufFlag::ERROR | BufFlag::DONE), &data, 2);
    assert!(view.is_error());
    assert_eq!(view.bytes(), &[1, 2]);
    assert_eq!(view.raw_buffer(), &[1, 2, 3, 4]);
}

#[test]
fn read_close_twice_is_a_no_op() {
    let mut stream = read_stream(3);
    stream.dequeued(2);
    assert!(!stream.is_closed());
    assert_eq!(stream.close(), Some(vec![0, 1, 2]));
    assert!(stream.is_closed());
    assert!(!stream.is_streaming());
    assert_eq!(stream.in_flight(), None);
    assert_eq!(stream.close(), None);
    assert_eq!(stream.close(), None);
}

#[test]
fn write_two_buffers_third_enqueue_dequeues() {
    let mut stream = WriteStream::new(pool(2, 2, 32), BufType::VIDEO_OUTPUT);
    // First enqueue: the never-queued buffer 0.
    assert_eq!(stream.next_unqueued_buffer(), Some(0));
    assert!(stream.enqueued(0));
    assert!(!stream.is_streaming());
    stream.streaming_started();
    // Second enqueue: buffer 1, still without dequeuing.
    assert_eq!(stream.next_unqueued_buffer(), Some(1));
    assert!(!stream.enqueued(1));
    // Third enqueue: everything is queued, a buffer must be dequeued first.
    assert_eq!(stream.next_unqueued_buffer(), None);
    stream.dequeued(0);
    stream.enqueued(0);
    assert_eq!(stream.next_unqueued_buffer(), None);
}

#[test]
fn write_failed_fill_is_handed_out_again() {
    let mut stream = WriteStream::new(pool(3, 3, 32), BufType::VIDEO_OUTPUT);
    assert_eq!(stream.next_unqueued_buffer(), Some(0));
    stream.reclaim(0);
    assert_eq!(stream.next_unqueued_buffer(), Some(0));
    stream.enqueued(0);
    assert_eq!(stream.next_unqueued_buffer(), Some(1));
    stream.enqueued(1);
    stream.enqueued(2);
    assert_eq!(stream.next_unqueued_buffer(), None);
    // A dequeued buffer whose enqueue fails becomes the next one to fill.
    stream.dequeued(1);
    stream.reclaim(1);
    assert_eq!(stream.next_unqueued_buffer(), Some(1));
    stream.enqueued(1);
    // Buffer 2 is queued, so the stream goes back to dequeuing.
    assert_eq!(stream.next_unqueued_buffer(), None);
}

#[test]
fn write_close_twice_is_a_no_op() {
    let mut stream = WriteStream::new(pool(2, 2, 32), BufType::VIDEO_OUTPUT);
    assert!(stream.enqueued(0));
    assert!(!stream.is_closed());
    assert_eq!(stream.close(), Some(vec![0, 1]));
    assert!(stream.is_closed());
    assert_eq!(stream.close(), None);
    assert_eq!(stream.next_unqueued_buffer(), None);
}

#[test]
fn write_view_exposes_whole_buffer() {
    let mut data = vec![0u8; 8];
    let mut view = WriteBufferView::new(&mut data);
    assert_eq!(view.len(), 8);
    view.bytes_mut()[3] = 9;
    assert_eq!(data[3], 9);
}
