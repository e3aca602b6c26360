//! An example SPI device driver: device-id reads, writes, reads and
//! full-duplex transfers as SPI transactions.

use crate::spi::{completed, copy_bytes, RtSpiDevice, RtSpiError, SpiOperation, RT_DEVICE_CLASS_SPI_DEVICE};
use vstd::prelude::*;

verus! {

/// A chip select that the device handles itself.
pub struct VirtualCS;

/// The command that asks a device for its id.
pub const READ_ID_COMMAND: u8 = 0x9F;

/// Number of id bytes a device answers with.
pub const DEVICE_ID_LEN: usize = 3;

/// The buffer that an operation reads into, or the empty sequence where it
/// reads nothing.
pub open spec fn read_buffer_of(op: SpiOperation) -> Seq<u8> {
    match op {
        SpiOperation::Read(buf) => buf@,
        SpiOperation::Transfer(read, _) => read@,
        SpiOperation::TransferInPlace(buf) => buf@,
        _ => Seq::empty(),
    }
}

/// A vector of `n` zero bytes.
fn zeros(n: usize) -> (r: Vec<u8>)
    ensures
        r@ == Seq::new(n as nat, |i: int| 0u8),
{
    let mut r: Vec<u8> = Vec::new();
    let mut i: usize = 0;
    while i < n
        invariant
            i <= n,
            r@ == Seq::new(i as nat, |j: int| 0u8),
        decreases n - i,
    {
        r.push(0u8);
        i = i + 1;
        assert(r@ =~= Seq::new(i as nat, |j: int| 0u8));
    }
    r
}

/// An example driver over one SPI device.
pub struct SpiExample {
    spi: RtSpiDevice,
}

impl SpiExample {
    /// The device the driver talks to.
    pub closed spec fn device(&self) -> RtSpiDevice {
        self.spi
    }

    /// The driver over the device the kernel found, by the address of its
    /// device object and the device's class; `DeviceNotFound` where the
    /// lookup gave none, or a device that is not an SPI device.
    pub fn new(dev: usize, class: u32) -> (r: Result<Self, RtSpiError>)
        ensures
            (dev != 0 && class == RT_DEVICE_CLASS_SPI_DEVICE) <==> r is Ok,
            r matches Ok(e) ==> e.device().address() == dev,
            r matches Err(err) ==> err == RtSpiError::DeviceNotFound,
    {
        let spi = RtSpiDevice::from_lookup(dev, class)?;
        Ok(SpiExample { spi })
    }

    /// The device the driver talks to.
    pub fn spi(&self) -> (r: &RtSpiDevice)
        ensures
            *r == self.device(),
    {
        &self.spi
    }

    /// The transaction that reads the device id: the id command, then a read
    /// into a zeroed id buffer.
    pub fn read_device_id(&self) -> (r: Vec<SpiOperation>)
        ensures
            r@.len() == 2,
            r@[0] matches SpiOperation::Write(cmd) && cmd@ == seq![READ_ID_COMMAND],
            r@[1] matches SpiOperation::Read(id) && id@ == Seq::new(
                DEVICE_ID_LEN as nat,
                |i: int| 0u8,
            ),
    {
        let mut cmd: Vec<u8> = Vec::new();
        cmd.push(READ_ID_COMMAND);
        let mut ops: Vec<SpiOperation> = Vec::new();
        ops.push(SpiOperation::Write(cmd));
        ops.push(SpiOperation::Read(zeros(DEVICE_ID_LEN)));
        assert(ops@[0] matches SpiOperation::Write(c) && c@ =~= seq![READ_ID_COMMAND]);
        ops
    }

    /// The transaction that writes `data`.
    pub fn write_data(&self, data: &[u8]) -> (r: Vec<SpiOperation>)
        ensures
            r@.len() == 1,
            r@[0] matches SpiOperation::Write(buf) && buf@ == data@,
    {
        let mut ops: Vec<SpiOperation> = Vec::new();
        ops.push(SpiOperation::Write(copy_bytes(data)));
        ops
    }

    /// The transaction that reads `len` bytes into a zeroed buffer.
    pub fn read_data(&self, len: usize) -> (r: Vec<SpiOperation>)
        ensures
            r@.len() == 1,
            r@[0] matches SpiOperation::Read(buf) && buf@ == Seq::new(len as nat, |i: int| 0u8),
    {
        let mut ops: Vec<SpiOperation> = Vec::new();
        ops.push(SpiOperation::Read(zeros(len)));
        ops
    }

    /// The full-duplex transaction that writes `data` while reading as many
    /// bytes into a zeroed buffer.
    pub fn transfer_data(&self, data: &[u8]) -> (r: Vec<SpiOperation>)
        ensures
            r@.len() == 1,
            r@[0] matches SpiOperation::Transfer(read, write) && write@ == data@ && read@ == Seq::new(
                data@.len(),
                |i: int| 0u8,
            ),
    {
        let mut ops: Vec<SpiOperation> = Vec::new();
        ops.push(SpiOperation::Transfer(zeros(data.len()), copy_bytes(data)));
        ops
    }

    /// What an operation of a finished transaction read: the bytes of its
    /// read buffer.
    pub fn read_result(op: &SpiOperation) -> (r: Vec<u8>)
        ensures
            r@ == read_buffer_of(*op),
            op matches SpiOperation::Read(buf) ==> r@ == buf@,
            op matches SpiOperation::Transfer(read, _) ==> r@ == read@,
            op matches SpiOperation::TransferInPlace(buf) ==> r@ == buf@,
            op is Write ==> r@.len() == 0,
            op is DelayNs ==> r@.len() == 0,
    {
        match op {
            SpiOperation::Read(buf) => copy_bytes(buf.as_slice()),
            SpiOperation::Transfer(read, _) => copy_bytes(read.as_slice()),
            SpiOperation::TransferInPlace(buf) => copy_bytes(buf.as_slice()),
            SpiOperation::Write(_) => Vec::new(),
            SpiOperation::DelayNs(_) => Vec::new(),
        }
    }
}

/// What a finished read, full-duplex transfer or in-place transfer reads
/// back is exactly the first bytes of the device's reply, as many as its
/// read buffer holds, whatever their values, where the reply covers it.
pub proof fn lemma_read_result_is_reply(old: SpiOperation, done: SpiOperation, reply: Seq<u8>)
    requires
        completed(old, done, reply),
        !(old is Write) && !(old is DelayNs),
        reply.len() >= read_buffer_of(old).len(),
    ensures
        read_buffer_of(done).len() == read_buffer_of(old).len(),
        read_buffer_of(done) == reply.take(read_buffer_of(old).len() as int),
        forall|i: int|
            0 <= i < read_buffer_of(old).len() ==> #[trigger] read_buffer_of(done)[i] == reply[i],
{
    match old {
        SpiOperation::Read(a) => {
            assert(read_buffer_of(done) =~= reply.take(a@.len() as int));
        },
        SpiOperation::Transfer(r, w) => {
            assert(read_buffer_of(done) =~= reply.take(r@.len() as int));
        },
        SpiOperation::TransferInPlace(a) => {
            assert(read_buffer_of(done) =~= reply.take(a@.len() as int));
        },
        _ => {},
    }
}

/// A read of `n` bytes, completed with a reply of at least `n` bytes, reads
/// back exactly the reply's first `n` bytes, for every `n`.
pub proof fn lemma_read_of_any_length_is_reply(old: SpiOperation, done: SpiOperation, reply: Seq<u8>)
    requires
        old is Read,
        completed(old, done, reply),
        reply.len() >= old->Read_0@.len(),
    ensures
        done is Read,
        done->Read_0@ == reply.take(old->Read_0@.len() as int),
        read_buffer_of(done) == reply.take(old->Read_0@.len() as int),
{
    assert(done->Read_0@ =~= reply.take(old->Read_0@.len() as int));
}

/// A full-duplex transfer completed with a reply at least as long as its
/// read buffer reads back exactly the reply's first `read.len()` bytes,
/// zero bytes included.
pub proof fn lemma_transfer_result_is_reply(old: SpiOperation, done: SpiOperation, reply: Seq<u8>)
    requires
        old is Transfer,
        completed(old, done, reply),
        reply.len() >= old->Transfer_0@.len(),
    ensures
        done is Transfer,
        done->Transfer_0@ == reply.take(old->Transfer_0@.len() as int),
        read_buffer_of(done) == reply.take(old->Transfer_0@.len() as int),
{
    assert(done->Transfer_0@ =~= reply.take(old->Transfer_0@.len() as int));
}

/// The device id read back is the first `DEVICE_ID_LEN` bytes that the id
/// read brought in, where the device answered that many.
pub proof fn lemma_device_id_is_reply(ops: Seq<SpiOperation>, done: SpiOperation, reply: Seq<u8>)
    requires
        ops.len() == 2,
        ops[1] matches SpiOperation::Read(id) && id@ == Seq::new(DEVICE_ID_LEN as nat, |i: int| 0u8),
        completed(ops[1], done, reply),
        reply.len() >= DEVICE_ID_LEN,
    ensures
        read_buffer_of(done) == reply.take(DEVICE_ID_LEN as int),
{
    assert(read_buffer_of(done) =~= reply.take(DEVICE_ID_LEN as int));
}

} // verus!
