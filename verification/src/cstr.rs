//! Fixed-size kernel object names.

use vstd::prelude::*;
use vstd::string::*;
use vstd::utf8::*;

verus! {

/// Length of a kernel object name buffer (`RT_NAME_MAX` of the kernel
/// configuration).
pub const RT_NAME_MAX: usize = 8;

/// The contents of a name buffer filled from `bytes`: the first
/// `RT_NAME_MAX` bytes at most, followed by zeros up to `RT_NAME_MAX`.
pub open spec fn name_buffer(bytes: Seq<u8>) -> Seq<u8> {
    Seq::new(RT_NAME_MAX as nat, |i: int| if i < bytes.len() { bytes[i] } else { 0u8 })
}

/// The name the kernel reads from a name buffer: the bytes before the first
/// zero byte, or all of them where there is none.
pub open spec fn kernel_name(buf: Seq<u8>) -> Seq<u8>
    decreases buf.len(),
{
    if buf.len() == 0 || buf[0] == 0 {
        Seq::empty()
    } else {
        seq![buf[0]] + kernel_name(buf.drop_first())
    }
}

/// Text bytes followed by a zero byte, or by nothing, read back as the text.
proof fn lemma_kernel_name_of_terminated(text: Seq<u8>, rest: Seq<u8>)
    requires
        forall|i: int| 0 <= i < text.len() ==> text[i] != 0,
        rest.len() == 0 || rest[0] == 0,
    ensures
        kernel_name(text + rest) == text,
    decreases text.len(),
{
    if text.len() == 0 {
        assert(text + rest =~= rest);
    } else {
        lemma_kernel_name_of_terminated(text.drop_first(), rest);
        assert((text + rest).drop_first() =~= text.drop_first() + rest);
        assert(text =~= seq![text[0]] + text.drop_first());
    }
}

/// A name made from text without zero bytes reads back, in the kernel, as
/// that text cut to `RT_NAME_MAX` bytes.
pub proof fn lemma_name_reads_back(bytes: Seq<u8>)
    requires
        forall|i: int| 0 <= i < bytes.len() ==> bytes[i] != 0,
    ensures
        kernel_name(name_buffer(bytes)) == bytes.take(
            if bytes.len() <= RT_NAME_MAX { bytes.len() as int } else { RT_NAME_MAX as int },
        ),
{
    let len = if bytes.len() <= RT_NAME_MAX { bytes.len() as int } else { RT_NAME_MAX as int };
    let text = bytes.take(len);
    let rest = Seq::new((RT_NAME_MAX - len) as nat, |i: int| 0u8);
    assert(name_buffer(bytes) =~= text + rest);
    lemma_kernel_name_of_terminated(text, rest);
}

/// Only the first `RT_NAME_MAX` bytes of a text reach its name buffer.
pub proof fn lemma_name_buffer_truncates(bytes: Seq<u8>)
    ensures
        name_buffer(bytes) == name_buffer(bytes.take(
            if bytes.len() <= RT_NAME_MAX { bytes.len() as int } else { RT_NAME_MAX as int },
        )),
{
    let len = if bytes.len() <= RT_NAME_MAX { bytes.len() as int } else { RT_NAME_MAX as int };
    assert(name_buffer(bytes) =~= name_buffer(bytes.take(len)));
}

/// A run of zero bytes is valid UTF-8.
proof fn lemma_zeros_valid_utf8(m: nat)
    ensures
        valid_utf8(Seq::new(m, |i: int| 0u8)),
    decreases m,
{
    if m > 0 {
        let z = Seq::new(m, |i: int| 0u8);
        lemma_zeros_valid_utf8((m - 1) as nat);
        assert(is_leading_byte_width_1(z[0]));
        assert(valid_first_scalar(z));
        assert(pop_first_scalar(z) =~= Seq::new((m - 1) as nat, |i: int| 0u8));
    }
}

/// The name made from a text that fits the buffer reads back as text: its
/// buffer is valid UTF-8, so [`RtNameRef::as_ref`] accepts it.
pub proof fn lemma_short_name_is_text(text: Seq<char>)
    requires
        encode_utf8(text).len() <= RT_NAME_MAX,
    ensures
        valid_utf8(name_buffer(encode_utf8(text))),
{
    let bytes = encode_utf8(text);
    encode_utf8_valid_utf8(text);
    let zeros = Seq::new((RT_NAME_MAX - bytes.len()) as nat, |i: int| 0u8);
    lemma_zeros_valid_utf8(zeros.len());
    valid_utf8_concat(bytes, zeros);
    assert(name_buffer(bytes) =~= bytes + zeros);
}

/// A name array whose first `k` bytes are those of `name_buffer(bytes)`
/// and whose other bytes are zero.
pub open spec fn name_array(bytes: Seq<u8>, k: nat) -> [u8; RT_NAME_MAX]
    decreases k,
{
    if k == 0 {
        [0u8; RT_NAME_MAX]
    } else {
        vstd::array::spec_array_update(
            name_array(bytes, (k - 1) as nat),
            k - 1,
            name_buffer(bytes)[k - 1],
        )
    }
}

proof fn lemma_name_array(bytes: Seq<u8>, k: nat)
    requires
        k <= RT_NAME_MAX,
    ensures
        forall|i: int| 0 <= i < k ==> #[trigger] name_array(bytes, k)@[i] == name_buffer(bytes)[i],
        forall|i: int| k <= i < RT_NAME_MAX ==> #[trigger] name_array(bytes, k)@[i] == 0u8,
    decreases k,
{
    broadcast use vstd::array::group_array_axioms;

    if k > 0 {
        lemma_name_array(bytes, (k - 1) as nat);
        vstd::array::axiom_spec_array_update(
            name_array(bytes, (k - 1) as nat),
            k - 1,
            name_buffer(bytes)[k - 1],
        );
    }
}

/// An owned kernel object name, as the kernel stores it.
#[derive(Clone)]
pub struct RtName {
    buf: [u8; RT_NAME_MAX],
}

impl View for RtName {
    type V = Seq<u8>;

    closed spec fn view(&self) -> Seq<u8> {
        self.buf@
    }
}

impl RtName {
    /// Every name holds exactly `RT_NAME_MAX` bytes.
    pub proof fn lemma_len(&self)
        ensures
            self@.len() == RT_NAME_MAX,
    {
    }

    /// Wraps a ready name buffer.
    pub fn new(buf: [u8; RT_NAME_MAX]) -> (r: Self)
        ensures
            r@ == buf@,
    {
        RtName { buf }
    }

    /// The name buffer as a byte slice.
    pub fn as_array_str(&self) -> (r: &[u8])
        ensures
            r@ == self@,
    {
        self.buf.as_slice()
    }

    /// The name buffer as a mutable byte slice; whatever is written through
    /// it becomes the name.
    pub fn as_mut_array_str(&mut self) -> (r: &mut [u8])
        ensures
            r@ == old(self)@,
            final(self)@ == final(r)@,
    {
        &mut self.buf
    }

    /// The name whose buffer holds `value`'s UTF-8 bytes, cut to
    /// `RT_NAME_MAX` bytes and padded with zeros.
    pub fn from_str_name(value: &str) -> (r: Self)
        ensures
            r@ == name_buffer(value.spec_bytes()),
    {
        let bytes = value.as_bytes();
        let mut buf = [0u8; RT_NAME_MAX];
        let len: usize = if bytes.len() < RT_NAME_MAX { bytes.len() } else { RT_NAME_MAX };
        let mut i: usize = 0;
        while i < len
            invariant
                len <= RT_NAME_MAX,
                len <= bytes@.len(),
                len == bytes@.len() || len == RT_NAME_MAX,
                i <= len,
                bytes@ == value.spec_bytes(),
                buf@.len() == RT_NAME_MAX,
                forall|j: int| 0 <= j < i ==> buf@[j] == bytes@[j],
                forall|j: int| i <= j < RT_NAME_MAX ==> buf@[j] == 0u8,
            decreases len - i,
        {
            buf[i] = bytes[i];
            i = i + 1;
        }
        let r = RtName { buf };
        assert(r@ =~= name_buffer(value.spec_bytes()));
        r
    }
}


/// The name made from `bytes`.
pub closed spec fn name_from_bytes(bytes: Seq<u8>) -> RtName {
    RtName { buf: name_array(bytes, RT_NAME_MAX as nat) }
}

/// The name made from `bytes` holds `name_buffer(bytes)`.
pub broadcast proof fn lemma_name_from_bytes(bytes: Seq<u8>)
    ensures
        (#[trigger] name_from_bytes(bytes))@ == name_buffer(bytes),
{
    lemma_name_array(bytes, RT_NAME_MAX as nat);
    assert(name_from_bytes(bytes)@ =~= name_buffer(bytes));
}

impl Default for RtName {
    /// The name whose buffer is all zeros.
    fn default() -> (r: Self)
        ensures
            r@ == Seq::new(RT_NAME_MAX as nat, |i: int| 0u8),
    {
        let r = RtName { buf: [0u8; RT_NAME_MAX] };
        assert(r@ =~= Seq::new(RT_NAME_MAX as nat, |i: int| 0u8));
        r
    }
}

impl<'a> From<&'a str> for RtName {
    /// Same as [`RtName::from_str_name`].
    fn from(value: &'a str) -> (r: Self) {
        let r = RtName::from_str_name(value);
        proof {
            lemma_name_array(value.spec_bytes(), RT_NAME_MAX as nat);
            assert(r.buf =~= name_from_bytes(value.spec_bytes()).buf);
        }
        r
    }
}

impl<'a> vstd::std_specs::convert::FromSpecImpl<&'a str> for RtName {
    open spec fn obeys_from_spec() -> bool {
        true
    }

    open spec fn from_spec(v: &'a str) -> Self {
        name_from_bytes(v.spec_bytes())
    }
}

/// The bytes a valid name buffer reads as: `Some` of its text where the
/// bytes are valid UTF-8 (zero bytes included), else `None`.
#[verifier::external_body]
fn str_from_utf8(v: &[u8]) -> (r: Option<&str>)
    ensures
        r is Some <==> valid_utf8(v@),
        r matches Some(s) ==> s.spec_bytes() == v@,
{
    core::str::from_utf8(v).ok()
}

/// A borrowed kernel object name, such as the name field of a kernel object.
pub struct RtNameRef<'a> {
    buf: &'a [u8; RT_NAME_MAX],
}

impl<'a> View for RtNameRef<'a> {
    type V = Seq<u8>;

    closed spec fn view(&self) -> Seq<u8> {
        self.buf@
    }
}

impl<'a> RtNameRef<'a> {
    /// Every borrowed name holds exactly `RT_NAME_MAX` bytes.
    pub proof fn lemma_len(&self)
        ensures
            self@.len() == RT_NAME_MAX,
    {
    }

    /// Borrows a name buffer.
    pub fn new(buf: &'a [u8; RT_NAME_MAX]) -> (r: Self)
        ensures
            r@ == buf@,
            r == name_ref_of(buf),
    {
        RtNameRef { buf }
    }

    /// The whole name buffer read as text, trailing zero bytes included.
    /// The buffer must be valid UTF-8.
    pub fn as_ref(&self) -> (r: &'a str)
        requires
            valid_utf8(self@),
        ensures
            r.spec_bytes() == self@,
    {
        let s = str_from_utf8(self.buf.as_slice());
        s.unwrap()
    }

    /// The name as text where its bytes are valid UTF-8, else `None`.
    pub fn to_str(&self) -> (r: Option<&'a str>)
        ensures
            r is Some <==> valid_utf8(self@),
            r matches Some(s) ==> s.spec_bytes() == self@,
    {
        str_from_utf8(self.buf.as_slice())
    }
}

/// The borrowed name over `buf`.
pub closed spec fn name_ref_of<'a>(buf: &'a [u8; RT_NAME_MAX]) -> RtNameRef<'a> {
    RtNameRef { buf }
}

/// The borrowed name over `buf` holds `buf`'s bytes.
pub broadcast proof fn lemma_name_ref_of<'a>(buf: &'a [u8; RT_NAME_MAX])
    ensures
        (#[trigger] name_ref_of(buf))@ == buf@,
{
}

impl<'a> From<&'a [u8; RT_NAME_MAX]> for RtNameRef<'a> {
    /// Same as [`RtNameRef::new`].
    fn from(buf: &'a [u8; RT_NAME_MAX]) -> (r: Self) {
        RtNameRef::new(buf)
    }
}

impl<'a> vstd::std_specs::convert::FromSpecImpl<&'a [u8; RT_NAME_MAX]> for RtNameRef<'a> {
    open spec fn obeys_from_spec() -> bool {
        true
    }

    open spec fn from_spec(v: &'a [u8; RT_NAME_MAX]) -> Self {
        name_ref_of(v)
    }
}

} // verus!
