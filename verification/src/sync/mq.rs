//! Kernel message queues carrying values of a fixed type.

use crate::spi::copy_bytes;
use core::marker::PhantomData;
use vstd::layout::size_of;
use vstd::prelude::*;
use vstd::string::*;

verus! {

/// Flag that makes waiting threads queue in arrival order
/// (`RT_IPC_FLAG_FIFO`).
pub const RT_IPC_FLAG_FIFO: u8 = 0;

/// Timeout that waits without end (`RT_WAITING_FOREVER`).
pub const RT_WAITING_FOREVER: i32 = -1;

/// The arguments of `rt_mq_create` for a queue of `T`.
pub struct MqCreate {
    /// The bytes of the name followed by a terminating zero byte, as handed
    /// to the kernel.
    pub name: Vec<u8>,
    /// The size of one message.
    pub msg_size: usize,
    /// How many messages the queue holds.
    pub max_msgs: usize,
    /// The waiting order.
    pub flag: u8,
}

/// A kernel message queue whose messages are values of `T`, by the address
/// of its kernel object.
pub struct MessageQueue<T> {
    raw: usize,
    _phantom: PhantomData<T>,
}

impl<T: Copy + Send> MessageQueue<T> {
    /// The address of the kernel's queue object.
    pub closed spec fn address(&self) -> usize {
        self.raw
    }

    /// The arguments that create a queue named `name` holding `cap`
    /// messages: the name's bytes followed by a terminating zero byte, one
    /// message the size of `T`, and waiting threads served in arrival order.
    pub fn create_args(name: &str, cap: usize) -> (r: MqCreate)
        ensures
            r.name@ == name.spec_bytes().push(0u8),
            r.msg_size as nat == size_of::<T>(),
            r.max_msgs == cap,
            r.flag == RT_IPC_FLAG_FIFO,
    {
        let mut name = copy_bytes(name.as_bytes());
        name.push(0u8);
        MqCreate {
            name,
            msg_size: core::mem::size_of::<T>(),
            max_msgs: cap,
            flag: RT_IPC_FLAG_FIFO,
        }
    }

    /// The queue the kernel created, or `None` where it answered with a null
    /// address.
    pub fn new(raw: usize) -> (r: Option<Self>)
        ensures
            raw != 0 <==> r is Some,
            r matches Some(q) ==> q.address() == raw,
    {
        if raw == 0 {
            None
        } else {
            Some(MessageQueue { raw, _phantom: PhantomData })
        }
    }

    /// The address of the kernel's queue object.
    pub fn raw(&self) -> (r: usize)
        ensures
            r == self.address(),
    {
        self.raw
    }

    /// The size of one message.
    pub fn message_size(&self) -> (r: usize)
        ensures
            r as nat == size_of::<T>(),
    {
        core::mem::size_of::<T>()
    }

    /// Whether a send, a blocking send or an urgent send succeeded: the
    /// kernel answered zero.
    pub fn send_ok(&self, ret: isize) -> (r: bool)
        ensures
            r == (ret == 0),
    {
        ret == 0
    }

    /// The kernel's timeout for a blocking send of `timeout` ticks: the
    /// kernel takes a signed 32-bit count, so counts above `i32::MAX` wrap.
    pub fn send_timeout(&self, timeout: u32) -> (r: i32)
        ensures
            r == timeout as i32,
    {
        timeout as i32
    }

    /// Whether a receive brought a message: the kernel answered with a
    /// positive count of bytes.
    pub fn recv_ok(&self, ret: isize) -> (r: bool)
        ensures
            r == (ret > 0),
    {
        ret > 0
    }
}

} // verus!
