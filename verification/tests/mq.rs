use rustffi::sync::mq::{RT_IPC_FLAG_FIFO, RT_WAITING_FOREVER};
use rustffi::{Delay, MessageQueue};

#[test]
fn queue_needs_a_kernel_object() {
    assert!(MessageQueue::<u32>::new(0).is_none());
    let q = MessageQueue::<u32>::new(0x2000_0400).unwrap();
    assert_eq!(q.raw(), 0x2000_0400);
}

#[test]
fn queue_create_arguments() {
    let args = MessageQueue::<u32>::create_args("testmq", 10);
    assert_eq!(args.name, b"testmq\0".to_vec());
    assert_eq!(args.msg_size, 4);
    assert_eq!(args.max_msgs, 10);
    assert_eq!(args.flag, RT_IPC_FLAG_FIFO);
    assert_eq!(MessageQueue::<[u16; 3]>::create_args("m", 1).msg_size, 6);
}

#[test]
fn queue_message_size() {
    let q = MessageQueue::<u64>::new(8).unwrap();
    assert_eq!(q.message_size(), 8);
}

#[test]
fn queue_kernel_answers() {
    let q = MessageQueue::<u32>::new(0x2000_0400).unwrap();
    assert!(q.send_ok(0));
    assert!(!q.send_ok(-3));
    assert!(q.recv_ok(4));
    assert!(!q.recv_ok(0));
    assert!(!q.recv_ok(-1));
}

#[test]
fn queue_timeouts_wrap_to_the_kernel_width() {
    let q = MessageQueue::<u32>::new(0x2000_0400).unwrap();
    assert_eq!(q.send_timeout(100), 100);
    assert_eq!(q.send_timeout(u32::MAX), RT_WAITING_FOREVER);
}

#[test]
fn delay_milliseconds_wrap_to_the_kernel_width() {
    let mut d = Delay;
    assert_eq!(d.delay_ms(250), 250);
    assert_eq!(d.delay_ms(3_000_000_000), 3_000_000_000u32 as i32);
}

#[test]
fn delay_nanoseconds_round_up_to_microseconds() {
    let mut d = Delay;
    assert_eq!(d.delay_ns(0), 0);
    assert_eq!(d.delay_ns(999), 1);
    assert_eq!(d.delay_ns(2000), 2);
    assert_eq!(d.delay_ns(2001), 3);
}
