//! SPI devices: lookup and attach outcomes, error kinds, and the transfers a
//! transaction hands to the kernel.

use crate::delay::{delay_us, delay_us_for_ns};
use vstd::prelude::*;

verus! {

/// Errors of an SPI device.
#[derive(Debug, Clone, Copy, PartialEq, Eq, Structural)]
pub enum RtSpiError {
    /// No device of that name.
    DeviceNotFound,
    /// Attaching or configuring the device failed.
    OpenFailed,
    /// A transfer failed.
    TransferError,
    /// A control command failed.
    ControlError,
}

/// Generic kinds of SPI errors (those of `embedded_hal::spi::ErrorKind`).
#[derive(Debug, Clone, Copy, PartialEq, Eq, Structural)]
pub enum SpiErrorKind {
    Overrun,
    ModeFault,
    FrameFormat,
    ChipSelectFault,
    Other,
}

/// The generic kind of each device error: a failed transfer is an overrun,
/// everything else is another error.
pub open spec fn spi_error_kind(e: RtSpiError) -> SpiErrorKind {
    match e {
        RtSpiError::DeviceNotFound => SpiErrorKind::Other,
        RtSpiError::OpenFailed => SpiErrorKind::Other,
        RtSpiError::TransferError => SpiErrorKind::Overrun,
        RtSpiError::ControlError => SpiErrorKind::Other,
    }
}

impl RtSpiError {
    /// The generic kind of this error.
    pub fn kind(&self) -> (r: SpiErrorKind)
        ensures
            r == spi_error_kind(*self),
    {
        match self {
            RtSpiError::DeviceNotFound => SpiErrorKind::Other,
            RtSpiError::OpenFailed => SpiErrorKind::Other,
            RtSpiError::TransferError => SpiErrorKind::Overrun,
            RtSpiError::ControlError => SpiErrorKind::Other,
        }
    }
}

/// Only a failed transfer is reported as an overrun.
pub proof fn lemma_overrun_only_for_transfer_errors(e: RtSpiError)
    ensures
        (spi_error_kind(e) == SpiErrorKind::Overrun) <==> (e == RtSpiError::TransferError),
        spi_error_kind(e) == SpiErrorKind::Overrun || spi_error_kind(e) == SpiErrorKind::Other,
{
}

/// The kernel's device class of SPI devices (`RT_Device_Class_SPIDevice`).
pub const RT_DEVICE_CLASS_SPI_DEVICE: u32 = 13;

/// One operation of an SPI transaction, with the buffers it reads from and
/// writes into.
pub enum SpiOperation {
    /// Read into the buffer.
    Read(Vec<u8>),
    /// Write the buffer.
    Write(Vec<u8>),
    /// Read into the first buffer while writing the second.
    Transfer(Vec<u8>, Vec<u8>),
    /// Write the buffer and read into it.
    TransferInPlace(Vec<u8>),
    /// Wait for at least this many nanoseconds.
    DelayNs(u32),
}

/// The arguments of one kernel SPI transfer: `length` bytes are clocked;
/// `send` holds the bytes sent (empty: no send buffer, the controller sends
/// filler bytes); where `recv_len` is not zero, a receive buffer of `length`
/// bytes takes what comes in, and its first `recv_len` bytes are kept.
pub struct SpiTransfer {
    pub send: Vec<u8>,
    pub recv_len: usize,
    pub length: usize,
}

/// A transfer with these arguments.
pub open spec fn transfer_is(t: SpiTransfer, send: Seq<u8>, recv_len: nat, length: nat) -> bool {
    &&& t.send@ == send
    &&& t.recv_len == recv_len
    &&& t.length == length
}

/// The larger of two lengths.
pub open spec fn max_len(a: nat, b: nat) -> nat {
    if a >= b {
        a
    } else {
        b
    }
}

/// `bytes` extended with zero bytes to `n` bytes.
pub open spec fn padded(bytes: Seq<u8>, n: nat) -> Seq<u8> {
    Seq::new(n, |i: int| if i < bytes.len() { bytes[i] } else { 0u8 })
}

/// The number of bytes an operation clocks: that of its buffer, or of the
/// longer of its two buffers; none for a delay.
pub open spec fn op_length(op: SpiOperation) -> nat {
    match op {
        SpiOperation::Read(buf) => buf@.len(),
        SpiOperation::Write(buf) => buf@.len(),
        SpiOperation::Transfer(read, write) => max_len(read@.len(), write@.len()),
        SpiOperation::TransferInPlace(buf) => buf@.len(),
        SpiOperation::DelayNs(_) => 0,
    }
}

/// The transfer the device makes for an operation other than a delay:
/// a read clocks as many bytes as its buffer holds and keeps them all,
/// sending filler; a write sends its buffer and keeps nothing; a
/// full-duplex transfer clocks the longer of its two buffers, sending the
/// write buffer followed by zero bytes and keeping as many bytes as the read
/// buffer holds; an in-place transfer sends its buffer and keeps as many
/// bytes.
pub open spec fn planned_transfer(op: SpiOperation, t: SpiTransfer) -> bool {
    match op {
        SpiOperation::Read(buf) => transfer_is(t, Seq::empty(), buf@.len(), buf@.len()),
        SpiOperation::Write(buf) => transfer_is(t, buf@, 0, buf@.len()),
        SpiOperation::Transfer(read, write) => {
            let n = max_len(read@.len(), write@.len());
            transfer_is(t, padded(write@, n), read@.len(), n)
        },
        SpiOperation::TransferInPlace(buf) => transfer_is(t, buf@, buf@.len(), buf@.len()),
        SpiOperation::DelayNs(_) => false,
    }
}

/// One step of a transaction as the kernel runs it.
pub enum SpiStep {
    /// Lock the bus for this device (`rt_spi_take_bus`).
    TakeBus,
    /// Assert the device's chip select (`rt_spi_take`).
    TakeCs,
    /// Transfer bytes with chip select left as it is (`rt_spi_transfer_message`
    /// with neither `cs_take` nor `cs_release`).
    Transfer(SpiTransfer),
    /// Busy-wait this many microseconds (`rt_hw_us_delay`).
    Delay(u32),
    /// Deassert the device's chip select (`rt_spi_release`).
    ReleaseCs,
    /// Unlock the bus (`rt_spi_release_bus`).
    ReleaseBus,
}

/// The step the device takes for an operation inside a transaction: its
/// transfer, or for a delay a wait that covers it.
pub open spec fn planned_step(op: SpiOperation, step: SpiStep) -> bool {
    match op {
        SpiOperation::DelayNs(ns) => step matches SpiStep::Delay(us) && us == delay_us(ns),
        _ => step matches SpiStep::Transfer(t) && planned_transfer(op, t),
    }
}

/// A receive buffer after a transfer of `length` bytes that brought in
/// `reply`: its first bytes replaced by those of the reply, as far as the
/// transfer, the reply and the buffer all reach.
pub open spec fn received(buf: Seq<u8>, reply: Seq<u8>, length: nat) -> Seq<u8> {
    Seq::new(buf.len(), |i: int| if i < length && i < reply.len() { reply[i] } else { buf[i] })
}

/// The operation `new` is `old` after its transfer brought in `reply`.
pub open spec fn completed(old: SpiOperation, new: SpiOperation, reply: Seq<u8>) -> bool {
    match (old, new) {
        (SpiOperation::Read(a), SpiOperation::Read(b)) => b@ == received(a@, reply, a@.len()),
        (SpiOperation::Write(a), SpiOperation::Write(b)) => b@ == a@,
        (SpiOperation::Transfer(r, w), SpiOperation::Transfer(r2, w2)) => {
            &&& w2@ == w@
            &&& r2@ == received(r@, reply, max_len(r@.len(), w@.len()))
        },
        (SpiOperation::TransferInPlace(a), SpiOperation::TransferInPlace(b)) => {
            b@ == received(a@, reply, a@.len())
        },
        (SpiOperation::DelayNs(d), SpiOperation::DelayNs(d2)) => d == d2,
        _ => false,
    }
}

/// Whether the kernel's answer to a transfer reports all of its bytes moved.
pub open spec fn transfer_succeeded(ret: isize, length: nat) -> bool {
    ret >= 0 && ret == length
}

impl SpiTransfer {
    /// Stores the bytes a transfer brought in into its receive buffer.
    pub fn receive(&self, buf: &mut Vec<u8>, reply: &[u8])
        ensures
            final(buf)@ == received(old(buf)@, reply@, self.length as nat),
    {
        let n = buf.len();
        let mut i: usize = 0;
        while i < n && i < self.length && i < reply.len()
            invariant
                n == old(buf)@.len(),
                buf@.len() == n,
                i <= n,
                forall|j: int| 0 <= j < i ==> buf@[j] == reply@[j],
                forall|j: int| i <= j < n ==> buf@[j] == old(buf)@[j],
                i <= self.length,
                i <= reply@.len(),
            decreases n - i,
        {
            buf.set(i, reply[i]);
            i = i + 1;
        }
        assert(buf@ =~= received(old(buf)@, reply@, self.length as nat));
    }

    /// The outcome of the transfer from the kernel's answer: success where
    /// it reports all `length` bytes moved, else `TransferError`.
    pub fn check(&self, ret: isize) -> (r: Result<(), RtSpiError>)
        ensures
            r is Ok <==> transfer_succeeded(ret, self.length as nat),
            r matches Err(e) ==> e == RtSpiError::TransferError,
    {
        if ret >= 0 && ret as usize == self.length {
            Ok(())
        } else {
            Err(RtSpiError::TransferError)
        }
    }
}

/// Copies a byte buffer.
pub(crate) fn copy_bytes(v: &[u8]) -> (r: Vec<u8>)
    ensures
        r@ == v@,
{
    let mut r: Vec<u8> = Vec::new();
    let mut i: usize = 0;
    while i < v.len()
        invariant
            i <= v@.len(),
            r@ == v@.take(i as int),
        decreases v@.len() - i,
    {
        r.push(v[i]);
        i = i + 1;
        assert(r@ =~= v@.take(i as int));
    }
    assert(v@.take(v@.len() as int) =~= v@);
    r
}

/// Copies `v` and extends it with zero bytes to `n` bytes.
fn padded_bytes(v: &[u8], n: usize) -> (r: Vec<u8>)
    requires
        v@.len() <= n,
    ensures
        r@ == padded(v@, n as nat),
{
    let mut r: Vec<u8> = Vec::new();
    let mut i: usize = 0;
    while i < n
        invariant
            i <= n,
            v@.len() <= n,
            r@ == padded(v@, n as nat).take(i as int),
        decreases n - i,
    {
        if i < v.len() {
            r.push(v[i]);
        } else {
            r.push(0u8);
        }
        i = i + 1;
        assert(r@ =~= padded(v@, n as nat).take(i as int));
    }
    assert(padded(v@, n as nat).take(n as int) =~= padded(v@, n as nat));
    r
}

/// The number of bytes an operation clocks.
fn operation_length(op: &SpiOperation) -> (r: usize)
    ensures
        r == op_length(*op),
{
    match op {
        SpiOperation::Read(buf) => buf.len(),
        SpiOperation::Write(buf) => buf.len(),
        SpiOperation::Transfer(read, write) => if read.len() >= write.len() {
            read.len()
        } else {
            write.len()
        },
        SpiOperation::TransferInPlace(buf) => buf.len(),
        SpiOperation::DelayNs(_) => 0,
    }
}

impl SpiOperation {
    /// The operation after its transfer brought in `reply`.
    pub fn complete(&mut self, reply: &[u8])
        ensures
            completed(*old(self), *final(self), reply@),
    {
        match self {
            SpiOperation::Read(buf) => {
                let t = SpiTransfer { send: Vec::new(), recv_len: buf.len(), length: buf.len() };
                t.receive(buf, reply);
            },
            SpiOperation::Write(_) => {},
            SpiOperation::Transfer(read, write) => {
                let n = if read.len() >= write.len() {
                    read.len()
                } else {
                    write.len()
                };
                let t = SpiTransfer { send: Vec::new(), recv_len: read.len(), length: n };
                t.receive(read, reply);
            },
            SpiOperation::TransferInPlace(buf) => {
                let t = SpiTransfer { send: Vec::new(), recv_len: buf.len(), length: buf.len() };
                t.receive(buf, reply);
            },
            SpiOperation::DelayNs(_) => {},
        }
    }
}

/// An SPI device the kernel knows, by the address of its device object.
pub struct RtSpiDevice {
    dev: usize,
}

impl RtSpiDevice {
    /// The address of the kernel's device object.
    pub closed spec fn address(&self) -> usize {
        self.dev
    }

    /// The outcome of looking a device up by name: the device where the
    /// kernel found one (a non-zero address) of the SPI device class, else
    /// `DeviceNotFound`. `class` is the found device's class; it is not
    /// read where the address is zero.
    pub fn from_lookup(dev: usize, class: u32) -> (r: Result<Self, RtSpiError>)
        ensures
            (dev != 0 && class == RT_DEVICE_CLASS_SPI_DEVICE) <==> r is Ok,
            r matches Ok(d) ==> d.address() == dev,
            r matches Err(e) ==> e == RtSpiError::DeviceNotFound,
    {
        if dev == 0 || class != RT_DEVICE_CLASS_SPI_DEVICE {
            return Err(RtSpiError::DeviceNotFound);
        }
        Ok(RtSpiDevice { dev })
    }

    /// The outcome of attaching the device object at `dev` to a bus: the
    /// device where the kernel answered zero, else `OpenFailed`.
    pub fn from_attach(dev: usize, result: isize) -> (r: Result<Self, RtSpiError>)
        ensures
            result == 0 <==> r is Ok,
            r matches Ok(d) ==> d.address() == dev,
            r matches Err(e) ==> e == RtSpiError::OpenFailed,
    {
        if result != 0 {
            return Err(RtSpiError::OpenFailed);
        }
        Ok(RtSpiDevice { dev })
    }

    /// The outcome of configuring the device: success where the kernel
    /// answered zero, else `OpenFailed`.
    pub fn configure(&mut self, result: isize) -> (r: Result<(), RtSpiError>)
        ensures
            *final(self) == *old(self),
            result == 0 <==> r is Ok,
            r matches Err(e) ==> e == RtSpiError::OpenFailed,
    {
        if result != 0 {
            return Err(RtSpiError::OpenFailed);
        }
        Ok(())
    }

    /// The address of the kernel's device object.
    pub fn handle(&self) -> (r: usize)
        ensures
            r == self.address(),
    {
        self.dev
    }

    /// The transfer that reads into `words`: as many bytes as `words` holds
    /// are clocked, with filler sent, and all of them are kept.
    pub fn read(&self, words: &[u8]) -> (r: SpiTransfer)
        ensures
            transfer_is(r, Seq::empty(), words@.len(), words@.len()),
    {
        SpiTransfer { send: Vec::new(), recv_len: words.len(), length: words.len() }
    }

    /// The transfer that writes `words`, keeping nothing of what comes in.
    pub fn write(&self, words: &[u8]) -> (r: SpiTransfer)
        ensures
            transfer_is(r, words@, 0, words@.len()),
    {
        SpiTransfer { send: copy_bytes(words), recv_len: 0, length: words.len() }
    }

    /// The transfer that writes `write` while reading into `read`: the longer
    /// of the two is clocked, `write` is sent followed by zero bytes, and as
    /// many bytes as `read` holds are kept.
    pub fn transfer(&self, read: &[u8], write: &[u8]) -> (r: SpiTransfer)
        ensures
            transfer_is(
                r,
                padded(write@, max_len(read@.len(), write@.len())),
                read@.len(),
                max_len(read@.len(), write@.len()),
            ),
            r.send@.len() == r.length,
            r.length >= read@.len(),
            r.length >= write@.len(),
            r.length == read@.len() || r.length == write@.len(),
            forall|i: int| 0 <= i < write@.len() ==> r.send@[i] == write@[i],
            forall|i: int| write@.len() <= i < r.length ==> r.send@[i] == 0u8,
    {
        let n = if read.len() >= write.len() {
            read.len()
        } else {
            write.len()
        };
        SpiTransfer { send: padded_bytes(write, n), recv_len: read.len(), length: n }
    }

    /// The transfer that writes `words` and reads back into the same buffer.
    pub fn transfer_in_place(&self, words: &[u8]) -> (r: SpiTransfer)
        ensures
            transfer_is(r, words@, words@.len(), words@.len()),
    {
        SpiTransfer { send: copy_bytes(words), recv_len: words.len(), length: words.len() }
    }

    /// The steps of a transaction: the bus is locked and chip select
    /// asserted once before the first operation, then each operation makes
    /// its step in order (step `i + 2` is that of operation `i`), then chip
    /// select is deasserted and the bus unlocked once after the last.
    pub fn transaction(&self, operations: &Vec<SpiOperation>) -> (r: Vec<SpiStep>)
        ensures
            r@.len() == operations@.len() + 4,
            r@[0] is TakeBus,
            r@[1] is TakeCs,
            forall|i: int| 0 <= i < operations@.len() ==> #[trigger] planned_step(operations@[i], r@[i + 2]),
            r@[operations@.len() as int + 2] is ReleaseCs,
            r@[operations@.len() as int + 3] is ReleaseBus,
    {
        let mut out: Vec<SpiStep> = Vec::new();
        out.push(SpiStep::TakeBus);
        out.push(SpiStep::TakeCs);
        let mut i: usize = 0;
        while i < operations.len()
            invariant
                i <= operations@.len(),
                out@.len() == i + 2,
                out@[0] is TakeBus,
                out@[1] is TakeCs,
                forall|j: int| 0 <= j < i ==> #[trigger] planned_step(operations@[j], out@[j + 2]),
            decreases operations@.len() - i,
        {
            let step = match &operations[i] {
                SpiOperation::Read(buf) => SpiStep::Transfer(self.read(buf.as_slice())),
                SpiOperation::Write(buf) => SpiStep::Transfer(self.write(buf.as_slice())),
                SpiOperation::Transfer(read, write) => SpiStep::Transfer(
                    self.transfer(read.as_slice(), write.as_slice()),
                ),
                SpiOperation::TransferInPlace(buf) => SpiStep::Transfer(
                    self.transfer_in_place(buf.as_slice()),
                ),
                SpiOperation::DelayNs(ns) => SpiStep::Delay(delay_us_for_ns(*ns)),
            };
            out.push(step);
            i = i + 1;
        }
        out.push(SpiStep::ReleaseCs);
        out.push(SpiStep::ReleaseBus);
        out
    }

    /// Stores what each transfer of a transaction brought in into the
    /// operation's buffers: operation `i` takes `replies[i]`; operations
    /// without a reply stay as they are.
    pub fn finish_transaction(&self, operations: &mut Vec<SpiOperation>, replies: &Vec<Vec<u8>>)
        ensures
            final(operations)@.len() == old(operations)@.len(),
            forall|i: int|
                0 <= i < old(operations)@.len() && i < replies@.len() ==> #[trigger] completed(
                    old(operations)@[i],
                    final(operations)@[i],
                    replies@[i]@,
                ),
            forall|i: int|
                replies@.len() <= i < old(operations)@.len() ==> #[trigger] final(operations)@[i]
                    == old(operations)@[i],
    {
        let n = operations.len();
        let mut i: usize = 0;
        while i < n && i < replies.len()
            invariant
                n == old(operations)@.len(),
                operations@.len() == n,
                i <= n,
                forall|j: int|
                    0 <= j < i ==> #[trigger] completed(
                        old(operations)@[j],
                        operations@[j],
                        replies@[j]@,
                    ),
                forall|j: int| i <= j < n ==> #[trigger] operations@[j] == old(operations)@[j],
                i <= replies@.len(),
            decreases n - i,
        {
            operations[i].complete(replies[i].as_slice());
            i = i + 1;
        }
    }

}

/// A transaction being run on the kernel, one step at a time: the steps
/// planned by [`RtSpiDevice::transaction`], the position of the next step,
/// and whether a transfer has failed.
pub struct SpiTransaction {
    steps: Vec<SpiStep>,
    ops: usize,
    pos: usize,
    failed: bool,
}

impl SpiTransaction {
    /// The planned steps.
    pub closed spec fn steps(&self) -> Seq<SpiStep> {
        self.steps@
    }

    /// The number of operations of the transaction.
    pub closed spec fn op_count(&self) -> nat {
        self.ops as nat
    }

    /// The position of the next step to run.
    pub closed spec fn position(&self) -> nat {
        self.pos as nat
    }

    /// Whether a transfer of the transaction has failed.
    pub closed spec fn has_failed(&self) -> bool {
        self.failed
    }

    /// The shape of a running transaction: bus lock and chip select first,
    /// one step per operation, chip select and bus released last; after a
    /// failure only the releases are left to run.
    pub open spec fn wf(&self) -> bool {
        &&& self.steps().len() == self.op_count() + 4
        &&& self.steps()[0] is TakeBus
        &&& self.steps()[1] is TakeCs
        &&& self.steps()[self.op_count() as int + 2] is ReleaseCs
        &&& self.steps()[self.op_count() as int + 3] is ReleaseBus
        &&& forall|i: int|
            2 <= i < self.op_count() + 2 ==> !(#[trigger] self.steps()[i] is ReleaseCs)
                && !(self.steps()[i] is ReleaseBus) && !(self.steps()[i] is TakeBus) && !(
            self.steps()[i] is TakeCs)
        &&& self.position() <= self.steps().len()
        &&& self.has_failed() ==> self.position() >= self.op_count() + 2
    }

    /// Starts running the transaction of `operations` on `device`.
    pub fn new(device: &RtSpiDevice, operations: &Vec<SpiOperation>) -> (r: Self)
        ensures
            r.wf(),
            r.op_count() == operations@.len(),
            r.position() == 0,
            !r.has_failed(),
            forall|i: int|
                0 <= i < operations@.len() ==> #[trigger] planned_step(operations@[i], r.steps()[i + 2]),
    {
        let steps = device.transaction(operations);
        let r = SpiTransaction { steps, ops: operations.len(), pos: 0, failed: false };
        assert forall|i: int| 2 <= i < r.op_count() + 2 implies !(#[trigger] r.steps()[i] is ReleaseCs)
            && !(r.steps()[i] is ReleaseBus) && !(r.steps()[i] is TakeBus) && !(
        r.steps()[i] is TakeCs) by {
            assert(planned_step(operations@[i - 2], r.steps()[(i - 2) + 2]));
        }
        r
    }

    /// The step to run now, or `None` when the transaction is over.
    pub fn current(&self) -> (r: Option<&SpiStep>)
        requires
            self.wf(),
        ensures
            r is None <==> self.position() == self.steps().len(),
            r matches Some(s) ==> *s == self.steps()[self.position() as int],
    {
        if self.pos < self.steps.len() {
            Some(&self.steps[self.pos])
        } else {
            None
        }
    }

    /// The index of the operation whose step runs now, where it is one.
    pub fn operation_index(&self) -> (r: Option<usize>)
        requires
            self.wf(),
        ensures
            r matches Some(i) ==> i + 2 == self.position() && i < self.op_count(),
            r is None <==> !(2 <= self.position() < self.op_count() + 2),
    {
        if self.pos >= 2 && self.pos - 2 < self.ops {
            Some(self.pos - 2)
        } else {
            None
        }
    }

    /// Moves past the step just run; `answer` is the kernel's answer to it
    /// where it was a transfer (the number of bytes moved). A transfer that
    /// did not move all of its bytes fails the transaction: the operations
    /// after it are skipped, and only the chip select and bus releases are
    /// left to run. Any other step leads to the next one.
    pub fn advance(&mut self, answer: isize)
        requires
            old(self).wf(),
            old(self).position() < old(self).steps().len(),
        ensures
            final(self).wf(),
            final(self).steps() == old(self).steps(),
            final(self).op_count() == old(self).op_count(),
            (old(self).steps()[old(self).position() as int] matches SpiStep::Transfer(t)
                && !transfer_succeeded(answer, t.length as nat)) ==> {
                &&& final(self).position() == old(self).op_count() + 2
                &&& final(self).has_failed()
            },
            !(old(self).steps()[old(self).position() as int] matches SpiStep::Transfer(t)
                && !transfer_succeeded(answer, t.length as nat)) ==> {
                &&& final(self).position() == old(self).position() + 1
                &&& final(self).has_failed() == old(self).has_failed()
            },
    {
        let n = self.steps.len();
        assert(self.pos < n && self.ops + 4 == n);
        let failed_now = match &self.steps[self.pos] {
            SpiStep::Transfer(t) => !(answer >= 0 && answer as usize == t.length),
            _ => false,
        };
        if failed_now {
            proof {
                let i = self.pos as int;
                assert(2 <= i < self.op_count() + 2) by {
                    if i < 2 {
                        assert(self.steps()[i] is TakeBus || self.steps()[i] is TakeCs);
                    }
                    if i >= self.op_count() + 2 {
                        assert(self.steps()[i] is ReleaseCs || self.steps()[i] is ReleaseBus);
                    }
                }
            }
            self.pos = self.ops + 2;
            self.failed = true;
        } else {
            self.pos = self.pos + 1;
        }
    }

    /// The outcome of the transaction: `TransferError` where a transfer
    /// failed, else success.
    pub fn result(&self) -> (r: Result<(), RtSpiError>)
        ensures
            r is Ok <==> !self.has_failed(),
            r matches Err(e) ==> e == RtSpiError::TransferError,
    {
        if self.failed {
            Err(RtSpiError::TransferError)
        } else {
            Ok(())
        }
    }
}

/// After a failed transfer, only the chip select release and then the bus
/// release are left to run, and the transaction reports `TransferError`.
pub proof fn lemma_failure_ends_transaction(run: SpiTransaction)
    requires
        run.wf(),
        run.has_failed(),
    ensures
        run.position() == run.op_count() + 2 ==> run.steps()[run.position() as int] is ReleaseCs,
        run.position() == run.op_count() + 2 ==> run.steps()[run.position() as int + 1] is ReleaseBus,
        run.position() >= run.op_count() + 2,
{
}

/// Padding keeps every byte of the data, whatever its value, and only adds
/// zero bytes after it.
pub proof fn lemma_padded_keeps_bytes(bytes: Seq<u8>, n: nat)
    requires
        bytes.len() <= n,
    ensures
        padded(bytes, n).len() == n,
        padded(bytes, n).take(bytes.len() as int) == bytes,
        forall|i: int| 0 <= i < bytes.len() ==> #[trigger] padded(bytes, n)[i] == bytes[i],
        forall|i: int| bytes.len() <= i < n ==> #[trigger] padded(bytes, n)[i] == 0u8,
{
    assert(padded(bytes, n).take(bytes.len() as int) =~= bytes);
}

/// A full-duplex transfer sends the write buffer unchanged, whatever its
/// bytes, followed by zero bytes up to the longer buffer's length.
pub proof fn lemma_transfer_sends_write_buffer(op: SpiOperation, t: SpiTransfer)
    requires
        op is Transfer,
        planned_transfer(op, t),
    ensures
        t.send@.len() == t.length,
        t.length == max_len(op->Transfer_0@.len(), op->Transfer_1@.len()),
        t.send@.take(op->Transfer_1@.len() as int) == op->Transfer_1@,
        forall|i: int| 0 <= i < op->Transfer_1@.len() ==> #[trigger] t.send@[i] == op->Transfer_1@[i],
        forall|i: int| op->Transfer_1@.len() <= i < t.length ==> #[trigger] t.send@[i] == 0u8,
{
    lemma_padded_keeps_bytes(op->Transfer_1@, t.length as nat);
}

/// Every transfer fits the buffers handed to the kernel: what is sent is
/// either nothing (filler) or exactly the transfer's length, and no more
/// bytes are kept than the transfer clocks.
pub proof fn lemma_transfer_fits_buffers(op: SpiOperation, t: SpiTransfer)
    requires
        planned_transfer(op, t),
    ensures
        t.send@.len() == 0 || t.send@.len() == t.length,
        t.recv_len <= t.length,
        t.length == op_length(op),
{
}

/// A transaction of one operation makes the same transfer as the device's
/// method for that operation: `read`, `write`, `transfer` or
/// `transfer_in_place`.
pub proof fn lemma_transaction_matches_methods(op: SpiOperation, t: SpiTransfer)
    ensures
        op matches SpiOperation::Read(buf) ==> (planned_step(op, SpiStep::Transfer(t))
            <==> transfer_is(t, Seq::empty(), buf@.len(), buf@.len())),
        op matches SpiOperation::Write(buf) ==> (planned_step(op, SpiStep::Transfer(t))
            <==> transfer_is(t, buf@, 0, buf@.len())),
        op matches SpiOperation::Transfer(read, write) ==> (planned_step(op, SpiStep::Transfer(t))
            <==> transfer_is(
            t,
            padded(write@, max_len(read@.len(), write@.len())),
            read@.len(),
            max_len(read@.len(), write@.len()),
        )),
        op matches SpiOperation::TransferInPlace(buf) ==> (planned_step(op, SpiStep::Transfer(t))
            <==> transfer_is(t, buf@, buf@.len(), buf@.len())),
        op is DelayNs ==> !planned_step(op, SpiStep::Transfer(t)),
{
}

/// A read leaves in its buffer what came back, where the reply covers the
/// buffer.
pub proof fn lemma_read_takes_reply(old: SpiOperation, new: SpiOperation, reply: Seq<u8>)
    requires
        old is Read,
        completed(old, new, reply),
        reply.len() >= old->Read_0@.len(),
    ensures
        new->Read_0@ == reply.take(old->Read_0@.len() as int),
{
    assert(new->Read_0@ =~= reply.take(old->Read_0@.len() as int));
}

/// A full-duplex transfer leaves in its read buffer what came back, where
/// the reply covers the read buffer; the write buffer is unchanged.
pub proof fn lemma_transfer_takes_reply(old: SpiOperation, new: SpiOperation, reply: Seq<u8>)
    requires
        old is Transfer,
        completed(old, new, reply),
        reply.len() >= old->Transfer_0@.len(),
    ensures
        new->Transfer_0@ == reply.take(old->Transfer_0@.len() as int),
        new->Transfer_1@ == old->Transfer_1@,
{
    assert(new->Transfer_0@ =~= reply.take(old->Transfer_0@.len() as int));
}

/// An in-place transfer leaves in its buffer what came back, where the reply
/// covers the buffer.
pub proof fn lemma_in_place_takes_reply(old: SpiOperation, new: SpiOperation, reply: Seq<u8>)
    requires
        old is TransferInPlace,
        completed(old, new, reply),
        reply.len() >= old->TransferInPlace_0@.len(),
    ensures
        new->TransferInPlace_0@ == reply.take(old->TransferInPlace_0@.len() as int),
{
    assert(new->TransferInPlace_0@ =~= reply.take(old->TransferInPlace_0@.len() as int));
}

} // verus!
