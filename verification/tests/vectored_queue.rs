use vectored_queue::error::{DequeueError, TryEnqueueError};
use vectored_queue::queue::VectoredQueue as QueueModuleVectoredQueue;
use vectored_queue::{TryDequeueResult, Vectored, VectoredQueue};

fn collect(vectored: &Vectored) -> Vec<u8> {
    let mut out: Vec<u8> = Vec::new();
    let n = vectored.slice_count();
    for i in 1..n - 1 {
        out.extend_from_slice(vectored.slice_at(i));
    }
    out
}

fn payload_slices(vectored: &Vectored) -> Vec<Vec<u8>> {
    let mut out: Vec<Vec<u8>> = Vec::new();
    let n = vectored.slice_count();
    for i in 1..n - 1 {
        out.push(vectored.slice_at(i).clone());
    }
    out
}

#[test]
fn lib_it_works() {
    let mut queue = VectoredQueue::with_capacity(4);
    let b2 = vec![2u8];
    let b3 = vec![3u8];
    let b4 = vec![4u8, 5];
    queue.try_enqueue(b2).unwrap();
    let vectored = queue.try_dequeue().unwrap().vectored().unwrap();
    queue.try_enqueue(b3).unwrap();
    assert_eq!(vectored.total_size(), 1);
    assert_eq!(collect(&vectored), vec![2]);
    assert!(matches!(queue.try_dequeue(), Err(DequeueError::Conflict)));
    queue.release(vectored);
    queue.try_enqueue(b4).unwrap();
    let vectored = queue.try_dequeue().unwrap().vectored().unwrap();
    assert_eq!(vectored.total_size(), 3);
    assert_eq!(collect(&vectored), vec![3, 4, 5]);
}

#[test]
fn queue_it_works() {
    let mut queue = QueueModuleVectoredQueue::with_capacity(4);
    let b2 = vec![2u8];
    let b3 = vec![3u8];
    let b4 = vec![4u8, 5];
    queue.try_enqueue(b2).unwrap();
    let vectored = queue.try_dequeue().unwrap().vectored().unwrap();
    queue.try_enqueue(b3).unwrap();
    assert_eq!(vectored.total_size(), 1);
    assert_eq!(collect(&vectored), vec![2]);
    assert!(matches!(queue.try_dequeue(), Err(DequeueError::Conflict)));
    queue.release(vectored);
    queue.try_enqueue(b4).unwrap();
    let vectored = queue.try_dequeue().unwrap().vectored().unwrap();
    assert_eq!(vectored.total_size(), 3);
    assert_eq!(collect(&vectored), vec![3, 4, 5]);
}

#[test]
fn single_item_single_batch() {
    let mut queue = VectoredQueue::with_capacity(4);
    queue.try_enqueue(vec![2u8]).unwrap();
    let batch = queue.try_dequeue().unwrap().vectored().unwrap();
    assert_eq!(batch.slice_count(), 3);
    assert_eq!(batch.slice_at(1).as_slice(), &[2u8]);
    assert_eq!(batch.total_size(), 1);
    queue.release(batch);
    assert!(matches!(queue.try_dequeue(), Ok(TryDequeueResult::Empty)));
}

#[test]
fn mutual_exclusion_of_consumers() {
    let mut queue = VectoredQueue::with_capacity(4);
    queue.try_enqueue(vec![2u8]).unwrap();
    let batch = queue.try_dequeue().unwrap().vectored().unwrap();
    queue.try_enqueue(vec![3u8]).unwrap();
    assert!(matches!(queue.try_dequeue(), Err(DequeueError::Conflict)));
    queue.release(batch);
    let batch = queue.try_dequeue().unwrap().vectored().unwrap();
    assert_eq!(collect(&batch), vec![3]);
    queue.release(batch);
}

#[test]
fn accumulate_across_batches() {
    let mut queue = VectoredQueue::with_capacity(4);
    queue.try_enqueue(vec![2u8]).unwrap();
    let batch = queue.try_dequeue().unwrap().vectored().unwrap();
    assert_eq!(collect(&batch), vec![2]);
    queue.release(batch);
    queue.try_enqueue(vec![3u8]).unwrap();
    queue.try_enqueue(vec![4u8, 5]).unwrap();
    let batch = queue.try_dequeue().unwrap().vectored().unwrap();
    assert_eq!(collect(&batch), vec![3, 4, 5]);
    assert_eq!(batch.total_size(), 3);
    queue.release(batch);
}

#[test]
fn full_then_wait() {
    let mut queue = VectoredQueue::with_capacity(1);
    assert!(queue.try_enqueue(vec![0u8]).is_ok());
    match queue.try_enqueue(vec![1u8]) {
        Err(TryEnqueueError::Full(b)) => assert_eq!(b, vec![1u8]),
        other => panic!("expected Full, got {:?}", other),
    }
    let batch = queue.try_dequeue().unwrap().vectored().unwrap();
    queue.release(batch);
    assert!(queue.try_enqueue(vec![1u8]).is_ok());
}

#[test]
fn unbounded_grows() {
    let mut queue = VectoredQueue::new();
    assert_eq!(queue.capacity(), 0);
    queue.enqueue_unbounded(vec![9u8]).unwrap();
    queue.enqueue_unbounded(vec![8u8]).unwrap();
    queue.enqueue_unbounded(vec![7u8]).unwrap();
    let mut seen: Vec<Vec<u8>> = Vec::new();
    loop {
        match queue.try_dequeue().unwrap() {
            TryDequeueResult::Vectored(batch) => {
                seen.extend(payload_slices(&batch));
                queue.release(batch);
            }
            TryDequeueResult::Empty => break,
            TryDequeueResult::Pending => continue,
        }
    }
    let mut sorted = seen.clone();
    sorted.sort();
    assert_eq!(sorted, vec![vec![7u8], vec![8u8], vec![9u8]]);
    assert!(queue.capacity() >= 1);
}

#[test]
fn close_terminates_producers() {
    let mut queue = VectoredQueue::with_capacity(4);
    queue.try_enqueue(vec![10u8]).unwrap();
    queue.close();
    match queue.try_enqueue(vec![11u8]) {
        Err(TryEnqueueError::Closed(b)) => assert_eq!(b, vec![11u8]),
        other => panic!("expected Closed, got {:?}", other),
    }
    let batch = queue.try_dequeue().unwrap().vectored().unwrap();
    assert_eq!(collect(&batch), vec![10]);
    queue.release(batch);
    assert!(matches!(queue.try_dequeue(), Err(DequeueError::Closed)));
    queue.reopen();
    assert!(queue.try_enqueue(vec![12u8]).is_ok());
}

#[test]
fn closed_empty_dequeue() {
    let mut queue = VectoredQueue::with_capacity(2);
    queue.try_enqueue(vec![1u8]).unwrap();
    queue.close();
    let batch = queue.try_dequeue().unwrap().vectored().unwrap();
    queue.release(batch);
    assert!(matches!(queue.try_dequeue(), Err(DequeueError::Closed)));
}

#[test]
fn conservation_multiset() {
    let mut queue = VectoredQueue::with_capacity(2);
    let inputs: Vec<Vec<u8>> = vec![
        vec![1u8],
        vec![2u8, 2],
        vec![3u8],
        vec![4u8, 4, 4],
        vec![5u8],
        vec![6u8],
    ];
    let mut accepted: Vec<Vec<u8>> = Vec::new();
    let mut drained: Vec<Vec<u8>> = Vec::new();
    for (i, p) in inputs.iter().enumerate() {
        let fits = if i % 2 == 0 {
            queue.try_enqueue(p.clone()).is_ok()
        } else {
            queue.enqueue_unbounded(p.clone()).is_ok()
        };
        if fits {
            accepted.push(p.clone());
        }
        if i % 3 == 2 {
            if let Ok(TryDequeueResult::Vectored(batch)) = queue.try_dequeue() {
                drained.extend(payload_slices(&batch));
                queue.release(batch);
            }
        }
    }
    loop {
        match queue.try_dequeue().unwrap() {
            TryDequeueResult::Vectored(batch) => {
                drained.extend(payload_slices(&batch));
                queue.release(batch);
            }
            TryDequeueResult::Empty => break,
            TryDequeueResult::Pending => continue,
        }
    }
    accepted.sort();
    drained.sort();
    assert_eq!(accepted, drained);
}

#[test]
fn byte_identity() {
    let mut queue = VectoredQueue::with_capacity(3);
    let payloads = vec![vec![1u8, 2, 3], vec![], vec![4u8]];
    for p in &payloads {
        queue.try_enqueue(p.clone()).unwrap();
    }
    let batch = queue.try_dequeue().unwrap().vectored().unwrap();
    assert_eq!(payload_slices(&batch), payloads);
    let total: usize = payloads.iter().map(|p| p.len()).sum();
    assert_eq!(batch.total_size(), total);
    queue.release(batch);
}

#[test]
fn no_loss_bytes_on_quiesce() {
    let mut queue = VectoredQueue::with_capacity(2);
    let mut bytes_in: usize = 0;
    let mut bytes_out: usize = 0;
    for round in 0..10u8 {
        let p = vec![round, round, round];
        if queue.enqueue_unbounded(p).is_ok() {
            bytes_in += 3;
        }
        if round % 4 == 3 {
            if let Ok(TryDequeueResult::Vectored(batch)) = queue.try_dequeue() {
                bytes_out += batch.total_size();
                queue.release(batch);
            }
        }
    }
    loop {
        match queue.try_dequeue().unwrap() {
            TryDequeueResult::Vectored(batch) => {
                bytes_out += batch.total_size();
                queue.release(batch);
            }
            TryDequeueResult::Empty => break,
            TryDequeueResult::Pending => continue,
        }
    }
    assert_eq!(bytes_in, bytes_out);
}

#[test]
fn rotation_prefills_overflow() {
    let mut queue = VectoredQueue::with_capacity(1);
    queue.try_enqueue(vec![1u8]).unwrap();
    queue.enqueue_unbounded(vec![2u8]).unwrap();
    queue.enqueue_unbounded(vec![3u8]).unwrap();
    // The first batch holds exactly what was reserved before the rotation.
    let batch = queue.try_dequeue().unwrap().vectored().unwrap();
    assert_eq!(payload_slices(&batch), vec![vec![1u8]]);
    queue.release(batch);
    // The overflow was pre-filled, in arrival order, into the next buffer.
    let batch = queue.try_dequeue().unwrap().vectored().unwrap();
    assert_eq!(payload_slices(&batch), vec![vec![2u8], vec![3u8]]);
    queue.release(batch);
    // The rotation grew the incoming buffer by exactly the spill count.
    assert_eq!(queue.capacity(), 3);
}

#[test]
fn zero_capacity_bounded_enqueue_is_full() {
    let mut queue = VectoredQueue::new();
    match queue.try_enqueue(vec![1u8]) {
        Err(TryEnqueueError::Full(b)) => assert_eq!(b, vec![1u8]),
        other => panic!("expected Full, got {:?}", other),
    }
}

#[test]
fn capacity_monotone() {
    let mut queue = VectoredQueue::with_capacity(2);
    let before = queue.capacity();
    queue.set_capacity(5);
    assert!(queue.capacity() >= before);
    queue.set_capacity(1);
    assert!(queue.capacity() >= before);
    queue.try_enqueue(vec![1u8]).unwrap();
    let batch = queue.try_dequeue().unwrap().vectored().unwrap();
    queue.release(batch);
    // The rotation picked the raised target up.
    assert_eq!(queue.capacity(), 5);
    queue.try_enqueue(vec![2u8]).unwrap();
    let batch = queue.try_dequeue().unwrap().vectored().unwrap();
    queue.release(batch);
    assert_eq!(queue.capacity(), 5);
}

#[test]
fn unbounded_raises_zero_capacity() {
    let mut queue = VectoredQueue::new();
    assert_eq!(queue.capacity(), 0);
    queue.enqueue_unbounded(vec![42u8]).unwrap();
    assert!(queue.capacity() >= 1);
}

#[test]
fn len_counts_overflow() {
    let mut queue = VectoredQueue::with_capacity(1);
    assert!(queue.is_empty());
    queue.try_enqueue(vec![1u8]).unwrap();
    assert_eq!(queue.len(), 1);
    queue.enqueue_unbounded(vec![2u8]).unwrap();
    assert_eq!(queue.len(), 2);
    assert!(!queue.is_empty());
}

#[test]
fn enqueue_errors_carry_payload() {
    let mut queue = VectoredQueue::with_capacity(1);
    queue.try_enqueue(vec![1u8]).unwrap();
    let err = queue.try_enqueue(vec![2u8]).unwrap_err();
    assert!(matches!(err, TryEnqueueError::Full(_)));
    assert_eq!(err.inner(), vec![2u8]);
    queue.close();
    let err = queue.try_enqueue(vec![3u8]).unwrap_err();
    assert!(matches!(err, TryEnqueueError::Closed(_)));
    assert_eq!(err.inner(), vec![3u8]);
    let err = queue.enqueue_unbounded(vec![4u8]).unwrap_err();
    assert_eq!(err.inner(), vec![4u8]);
}

#[test]
fn empty_open_dequeue() {
    let mut queue = VectoredQueue::with_capacity(3);
    assert!(matches!(queue.try_dequeue(), Ok(TryDequeueResult::Empty)));
    // capacity zero behaves the same while open
    let mut queue = VectoredQueue::new();
    assert!(matches!(queue.try_dequeue(), Ok(TryDequeueResult::Empty)));
    queue.close();
    assert!(matches!(queue.try_dequeue(), Err(DequeueError::Closed)));
}
