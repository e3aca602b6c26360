//! Framing of console output into the kernel's console buffer.

use vstd::prelude::*;
use vstd::string::*;

verus! {

/// Size of the kernel console buffer (`RT_CONSOLEBUF_SIZE`).
pub const RT_CONSOLEBUF_SIZE: usize = 64;

/// Text bytes that fit in one console buffer next to the terminating zero.
pub const CONSOLE_CHUNK: usize = 63;

/// Number of console buffers that `n` bytes of text take.
pub open spec fn console_chunk_count(n: nat) -> nat {
    ((n + 62) / 63) as nat
}

/// The text bytes of the `k`-th console buffer for `bytes`.
pub open spec fn console_chunk(bytes: Seq<u8>, k: int) -> Seq<u8> {
    let start = k * CONSOLE_CHUNK;
    let end = if start + CONSOLE_CHUNK <= bytes.len() { start + CONSOLE_CHUNK } else { bytes.len() as int };
    bytes.subrange(start, end)
}

/// The zero-terminated buffers handed to the kernel console, in order, for
/// `bytes`: consecutive runs of at most `CONSOLE_CHUNK` bytes, each followed
/// by a zero byte.
pub open spec fn console_buffers(bytes: Seq<u8>) -> Seq<Seq<u8>> {
    Seq::new(console_chunk_count(bytes.len()), |k: int| console_chunk(bytes, k).push(0u8))
}

/// The text carried by a list of zero-terminated buffers: each buffer
/// without its last byte, joined in order.
pub open spec fn buffers_text(bufs: Seq<Seq<u8>>) -> Seq<u8>
    decreases bufs.len(),
{
    if bufs.len() == 0 {
        Seq::empty()
    } else {
        buffers_text(bufs.drop_last()) + bufs.last().drop_last()
    }
}

/// `m` buffers hold `n` bytes exactly when the last of them is the first to
/// reach the end of the text.
proof fn lemma_chunk_count(m: nat, n: nat)
    requires
        n <= m * CONSOLE_CHUNK,
        m == 0 || (m - 1) * CONSOLE_CHUNK < n,
    ensures
        m == console_chunk_count(n),
{
    assert(((n + 62) / 63) as nat == m) by (nonlinear_arith)
        requires
            n <= m * 63,
            m == 0 || (m - 1) * 63 < n,
    {
        if m > 0 {
            assert(63 * m - 62 <= n + 62 - 62);
        }
    }
}

/// The console buffers for a text carry exactly that text, in order.
pub proof fn lemma_console_buffers_carry_text(bytes: Seq<u8>)
    ensures
        buffers_text(console_buffers(bytes)) == bytes,
{
    let m = console_chunk_count(bytes.len());
    lemma_console_buffers_prefix(bytes, m);
    let n = bytes.len();
    assert(n <= m * 63) by (nonlinear_arith)
        requires
            m == ((n + 62) / 63) as nat,
    ;
    assert(console_buffers(bytes).take(m as int) =~= console_buffers(bytes));
    assert(bytes.take(n as int) =~= bytes);
}

/// The first `m` console buffers carry the first `m * CONSOLE_CHUNK` bytes
/// of the text, or all of it.
proof fn lemma_console_buffers_prefix(bytes: Seq<u8>, m: nat)
    requires
        m <= console_chunk_count(bytes.len()),
    ensures
        buffers_text(console_buffers(bytes).take(m as int)) == bytes.take(
            if m * CONSOLE_CHUNK <= bytes.len() { m * CONSOLE_CHUNK } else { bytes.len() as int },
        ),
    decreases m,
{
    let bufs = console_buffers(bytes);
    if m == 0 {
        assert(bufs.take(0) =~= Seq::<Seq<u8>>::empty());
        assert(bytes.take(0) =~= Seq::<u8>::empty());
    } else {
        let k = m - 1;
        lemma_console_buffers_prefix(bytes, k as nat);
        let n = bytes.len();
        assert(k * 63 < n) by (nonlinear_arith)
            requires
                m <= ((n + 62) / 63) as nat,
                k == m - 1,
                m >= 1,
        ;
        assert(bufs.take(m as int).drop_last() =~= bufs.take(k));
        assert(bufs.take(m as int).last() == console_chunk(bytes, k).push(0u8));
        assert(console_chunk(bytes, k).push(0u8).drop_last() =~= console_chunk(bytes, k));
        let end = if m * CONSOLE_CHUNK <= n { m * CONSOLE_CHUNK } else { n as int };
        assert(bytes.take(k * CONSOLE_CHUNK) + console_chunk(bytes, k) =~= bytes.take(end));
    }
}

/// Every console buffer fits the kernel console buffer and ends in the zero
/// byte that terminates it.
pub proof fn lemma_console_buffers_fit(bytes: Seq<u8>, k: int)
    requires
        0 <= k < console_buffers(bytes).len(),
    ensures
        console_buffers(bytes)[k].len() <= RT_CONSOLEBUF_SIZE,
        console_buffers(bytes)[k].len() >= 1,
        console_buffers(bytes)[k].last() == 0u8,
{
    let n = bytes.len();
    assert(k * 63 < n) by (nonlinear_arith)
        requires
            k < ((n + 62) / 63) as nat,
            0 <= k,
    ;
}

/// The kernel console as a `core::fmt::Write` sink.
pub struct RtConsole;

impl RtConsole {
    /// The buffers that writing `s` hands to the kernel console, one call per
    /// buffer. The console prints each buffer up to its first zero byte.
    pub fn write_str(&self, s: &str) -> (r: Vec<Vec<u8>>)
        ensures
            r@.len() == console_buffers(s.spec_bytes()).len(),
            forall|k: int| 0 <= k < r@.len() ==> #[trigger] r@[k]@ == console_buffers(s.spec_bytes())[k],
    {
        let bytes = s.as_bytes();
        let n = bytes.len();
        let mut out: Vec<Vec<u8>> = Vec::new();
        let mut start: usize = 0;
        while start < n
            invariant
                bytes@ == s.spec_bytes(),
                n == bytes@.len(),
                start <= n,
                start < n ==> start == out@.len() * CONSOLE_CHUNK,
                start == n ==> out@.len() == console_chunk_count(n as nat),
                forall|k: int| 0 <= k < out@.len() ==> #[trigger] out@[k]@ == console_chunk(bytes@, k).push(0u8),
            decreases n - start,
        {
            let end: usize = if n - start > CONSOLE_CHUNK { start + CONSOLE_CHUNK } else { n };
            let mut buf: Vec<u8> = Vec::new();
            let mut i: usize = start;
            while i < end
                invariant
                    start <= i <= end,
                    end <= n,
                    n == bytes@.len(),
                    buf@ == bytes@.subrange(start as int, i as int),
                decreases end - i,
            {
                buf.push(bytes[i]);
                i = i + 1;
                assert(buf@ =~= bytes@.subrange(start as int, i as int));
            }
            buf.push(0u8);
            let ghost k = out@.len() as int;
            assert(buf@ =~= console_chunk(bytes@, k).push(0u8));
            out.push(buf);
            proof {
                if end == n {
                    lemma_chunk_count(out@.len(), n as nat);
                }
            }
            start = end;
        }
        out
    }
}

} // verus!
