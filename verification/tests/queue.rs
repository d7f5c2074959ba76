use otp_auth::queue::{
    BoundedQueue, EmailJob, EmailQueue, QueueError, SmsJob, SmsQueue, WorkerStep, QUEUE_CAPACITY,
};

fn sms(n: usize) -> SmsJob {
    SmsJob { to: format!("96650000{:04}", n), body: format!("Login OTP: {}", 100000 + n) }
}

#[test]
fn test_fifo_up_to_capacity() {
    let mut queue: BoundedQueue<u32> = BoundedQueue::new(5);
    for n in 0..5 {
        assert!(queue.enqueue(n).is_ok());
    }
    assert_eq!(queue.len(), 5);
    assert!(queue.is_full());
    for n in 0..5 {
        assert_eq!(queue.dequeue(), Some(n));
    }
    assert_eq!(queue.dequeue(), None);
    assert!(queue.is_empty());
}

#[test]
fn test_sms_queue_holds_a_hundred_in_order() {
    let mut queue = SmsQueue::new();
    assert_eq!(queue.queue.capacity(), 100);
    assert_eq!(QUEUE_CAPACITY, 100);
    for n in 0..100 {
        assert!(queue.queue.enqueue(sms(n)).is_ok());
    }
    match queue.queue.enqueue(sms(100)) {
        Err(QueueError::Full(job)) => assert_eq!(job.to, sms(100).to),
        _ => panic!("a full queue takes no job"),
    }
    assert_eq!(queue.queue.len(), 100);
    for n in 0..100 {
        match queue.queue.next_step() {
            WorkerStep::Deliver(job) => {
                assert_eq!(job.to, sms(n).to);
                assert_eq!(job.body, sms(n).body);
            }
            _ => panic!("a job was waiting"),
        }
    }
    assert!(matches!(queue.queue.next_step(), WorkerStep::Wait));
}

#[test]
fn test_full_queue_hands_the_job_back_until_a_slot_frees() {
    let mut queue: BoundedQueue<u32> = BoundedQueue::new(2);
    queue.enqueue(1).unwrap();
    queue.enqueue(2).unwrap();
    let back = match queue.enqueue(3) {
        Err(QueueError::Full(job)) => job,
        _ => panic!("the queue is full"),
    };
    assert_eq!(back, 3);
    assert_eq!(queue.len(), 2);
    assert_eq!(queue.dequeue(), Some(1));
    assert!(queue.enqueue(back).is_ok());
    assert_eq!(queue.dequeue(), Some(2));
    assert_eq!(queue.dequeue(), Some(3));
}

#[test]
fn test_closed_queue_drains_then_stops() {
    let mut queue = EmailQueue::new();
    let job = EmailJob { to: "a@b.c".to_string(), subject: "Login OTP".to_string(), body: "Login OTP: 1".to_string() };
    queue.queue.enqueue(job).unwrap();
    assert!(!queue.queue.is_closed());
    queue.queue.close();
    assert!(queue.queue.is_closed());
    let late = EmailJob { to: "x@y.z".to_string(), subject: String::new(), body: String::new() };
    match queue.queue.enqueue(late) {
        Err(QueueError::Closed(job)) => assert_eq!(job.to, "x@y.z"),
        _ => panic!("a closed queue takes no job"),
    }
    match queue.queue.next_step() {
        WorkerStep::Deliver(job) => assert_eq!(job.to, "a@b.c"),
        _ => panic!("a job was waiting"),
    }
    assert!(matches!(queue.queue.next_step(), WorkerStep::Stop));
    assert!(matches!(queue.queue.next_step(), WorkerStep::Stop));
}

#[test]
fn test_empty_open_queue_waits() {
    let mut queue: BoundedQueue<u8> = BoundedQueue::new(1);
    assert!(matches!(queue.next_step(), WorkerStep::Wait));
    assert_eq!(queue.capacity(), 1);
    assert!(!queue.is_full());
}

#[test]
fn test_closed_and_full_reports_closed() {
    let mut queue: BoundedQueue<u8> = BoundedQueue::new(1);
    queue.enqueue(1).unwrap();
    queue.close();
    assert!(matches!(queue.enqueue(2), Err(QueueError::Closed(2))));
}

#[test]
fn test_drain_gives_all_jobs_in_order() {
    let mut queue: BoundedQueue<u32> = BoundedQueue::new(100);
    for n in 0..100 {
        queue.enqueue(n * 3).unwrap();
    }
    let jobs = queue.drain();
    assert_eq!(jobs, (0..100).map(|n| n * 3).collect::<Vec<u32>>());
    assert!(queue.is_empty());
    assert_eq!(queue.capacity(), 100);
    assert!(!queue.is_closed());
    assert_eq!(queue.drain(), Vec::<u32>::new());

    queue.enqueue(7).unwrap();
    queue.close();
    assert_eq!(queue.drain(), vec![7]);
    assert!(queue.is_closed());
}

#[test]
fn test_interleaved_enqueue_and_dequeue_keep_order() {
    let mut queue: BoundedQueue<u32> = BoundedQueue::new(3);
    queue.enqueue(1).unwrap();
    queue.enqueue(2).unwrap();
    assert_eq!(queue.dequeue(), Some(1));
    queue.enqueue(3).unwrap();
    queue.enqueue(4).unwrap();
    assert!(queue.enqueue(5).is_err());
    assert_eq!(queue.drain(), vec![2, 3, 4]);
}
