//! The cursor decoding framework: a forward-only byte cursor, the error
//! taxonomy, and the read/write traits with their byte-level models.
use vstd::prelude::*;

verus! {

/// Why a structural decode failed.
#[derive(Debug, Clone, Copy, PartialEq, Eq, Structural)]
pub enum TryError {
    /// The cursor ran out before a fixed-size or length-prefixed read completed.
    NotEnoughBytes,
    /// A value exceeds a declared bound.
    ValueTooLarge,
    /// A tag, discriminant or byte sequence matches no legal variant.
    Malformed,
}

/// A forward-only view over an in-memory byte buffer.
pub struct Cursor {
    data: Vec<u8>,
    pos: usize,
}

impl View for Cursor {
    type V = Seq<u8>;

    /// The bytes not yet consumed.
    closed spec fn view(&self) -> Seq<u8> {
        self.data@.subrange(self.pos as int, self.data@.len() as int)
    }
}

impl Cursor {
    #[verifier::type_invariant]
    spec fn inv(&self) -> bool {
        self.pos <= self.data@.len()
    }

    /// A cursor positioned at the first byte of `data`.
    pub fn new(data: Vec<u8>) -> (r: Cursor)
        ensures
            r@ == data@,
    {
        let r = Cursor { data, pos: 0 };
        assert(r@ =~= r.data@);
        r
    }

    /// The number of bytes left to read.
    pub fn remaining(&self) -> (r: usize)
        ensures
            r == self@.len(),
    {
        proof {
            use_type_invariant(self);
        }
        self.data.len() - self.pos
    }

    /// Consumes one byte.
    /// Fails with `NotEnoughBytes`, consuming nothing, when the cursor is exhausted.
    pub fn read_u8(&mut self) -> (r: Result<u8, TryError>)
        ensures
            old(self)@.len() == 0 ==> r == Err::<u8, TryError>(TryError::NotEnoughBytes)
                && final(self)@ == old(self)@,
            old(self)@.len() > 0 ==> r == Ok::<u8, TryError>(old(self)@[0])
                && final(self)@ == old(self)@.skip(1),
    {
        proof {
            use_type_invariant(&*self);
        }
        if self.pos >= self.data.len() {
            return Err(TryError::NotEnoughBytes);
        }
        let b = self.data[self.pos];
        self.pos = self.pos + 1;
        assert(self@ =~= old(self)@.skip(1));
        Ok(b)
    }

    /// Consumes `n` bytes and returns them.
    /// Fails with `NotEnoughBytes`, consuming nothing, when fewer remain.
    pub fn read_bytes(&mut self, n: usize) -> (r: Result<Vec<u8>, TryError>)
        ensures
            old(self)@.len() < n ==> r == Err::<Vec<u8>, TryError>(TryError::NotEnoughBytes)
                && final(self)@ == old(self)@,
            old(self)@.len() >= n ==> (r matches Ok(v) && v@ == old(self)@.take(n as int))
                && final(self)@ == old(self)@.skip(n as int),
    {
        proof {
            use_type_invariant(&*self);
        }
        if self.data.len() - self.pos < n {
            return Err(TryError::NotEnoughBytes);
        }
        let start = self.pos;
        let mut out: Vec<u8> = Vec::new();
        let mut i: usize = 0;
        while i < n
            invariant
                i <= n,
                start + n <= self.data.len(),
                out@ == self.data@.subrange(start as int, start + i),
            decreases n - i,
        {
            out.push(self.data[start + i]);
            i = i + 1;
            assert(out@ =~= self.data@.subrange(start as int, start + i));
        }
        self.pos = start + n;
        assert(out@ =~= old(self)@.take(n as int));
        assert(self@ =~= old(self)@.skip(n as int));
        Ok(out)
    }

    /// Consumes two bytes as a big-endian `u16`.
    pub fn read_u16(&mut self) -> (r: Result<u16, TryError>)
        ensures
            read_outcome(<u16 as TryReadFrom>::spec_read(old(self)@), old(self)@, r, final(self)@),
    {
        if self.remaining() < 2 {
            return Err(TryError::NotEnoughBytes);
        }
        let a = self.read_u8();
        let b = self.read_u8();
        match (a, b) {
            (Ok(a), Ok(b)) => {
                assert(final(self)@ =~= old(self)@.skip(2));
                Ok((a as u16) * 256 + (b as u16))
            },
            _ => Err(TryError::NotEnoughBytes),
        }
    }

    /// Consumes four bytes as a big-endian `u32`.
    pub fn read_u32(&mut self) -> (r: Result<u32, TryError>)
        ensures
            read_outcome(<u32 as TryReadFrom>::spec_read(old(self)@), old(self)@, r, final(self)@),
    {
        if self.remaining() < 4 {
            return Err(TryError::NotEnoughBytes);
        }
        let ghost s = self@;
        let hi = self.read_u16();
        let lo = self.read_u16();
        match (hi, lo) {
            (Ok(hi), Ok(lo)) => {
                assert(s.skip(2).skip(2) =~= s.skip(4));
                Ok((hi as u32) * 65536 + (lo as u32))
            },
            _ => Err(TryError::NotEnoughBytes),
        }
    }

    /// Consumes eight bytes as a big-endian `u64`.
    pub fn read_u64(&mut self) -> (r: Result<u64, TryError>)
        ensures
            read_outcome(<u64 as TryReadFrom>::spec_read(old(self)@), old(self)@, r, final(self)@),
    {
        if self.remaining() < 8 {
            return Err(TryError::NotEnoughBytes);
        }
        let ghost s = self@;
        let hi = self.read_u32();
        let lo = self.read_u32();
        match (hi, lo) {
            (Ok(hi), Ok(lo)) => {
                assert(s.skip(4).skip(4) =~= s.skip(8));
                Ok((hi as u64) * 4294967296 + (lo as u64))
            },
            _ => Err(TryError::NotEnoughBytes),
        }
    }
}

/// Dropping `a` bytes and then `b` more drops `a + b`.
pub proof fn lemma_skip_skip(s: Seq<u8>, a: int, b: int)
    requires
        0 <= a,
        0 <= b,
        a + b <= s.len(),
    ensures
        s.skip(a).skip(b) == s.skip(a + b),
{
    assert(s.skip(a).skip(b) =~= s.skip(a + b));
}

/// The big-endian value of the first two bytes of `s`.
pub open spec fn be16(s: Seq<u8>) -> int {
    s[0] as int * 256 + s[1] as int
}

/// The big-endian value of the first four bytes of `s`.
pub open spec fn be32(s: Seq<u8>) -> int {
    be16(s) * 65536 + be16(s.skip(2))
}

/// The big-endian value of the first eight bytes of `s`.
pub open spec fn be64(s: Seq<u8>) -> int {
    be32(s) * 4294967296 + be32(s.skip(4))
}

/// The two big-endian bytes of `v`, for `0 <= v < 2^16`.
pub open spec fn enc16(v: int) -> Seq<u8> {
    seq![(v / 256) as u8, (v % 256) as u8]
}

/// The four big-endian bytes of `v`, for `0 <= v < 2^32`.
pub open spec fn enc32(v: int) -> Seq<u8> {
    enc16(v / 65536) + enc16(v % 65536)
}

/// The eight big-endian bytes of `v`, for `0 <= v < 2^64`.
pub open spec fn enc64(v: int) -> Seq<u8> {
    enc32(v / 4294967296) + enc32(v % 4294967296)
}

/// A fixed-width read of `width` bytes yielding `v`, or `NotEnoughBytes`
/// when fewer bytes remain.
pub open spec fn fixed_read<V>(s: Seq<u8>, width: int, v: V) -> Result<(V, int), TryError> {
    if s.len() < width {
        Err(TryError::NotEnoughBytes)
    } else {
        Ok((v, width))
    }
}

/// How an executable decode relates to its model: on success the value's
/// view is the model's value and exactly `n` bytes were consumed; on failure
/// the error is the model's error.
pub open spec fn read_outcome<T: View>(
    model: Result<(T::V, int), TryError>,
    before: Seq<u8>,
    r: Result<T, TryError>,
    after: Seq<u8>,
) -> bool {
    match model {
        Ok((v, n)) => match r {
            Ok(x) => x@ == v && 0 <= n <= before.len() && after == before.skip(n),
            Err(_) => false,
        },
        Err(e) => r == Err::<T, TryError>(e),
    }
}

/// A type that can be decoded from the front of a byte cursor.
pub trait TryReadFrom: Sized + View {
    /// What decoding the front of `s` gives: the value's view and the number
    /// of bytes it occupies, or the error.
    spec fn spec_read(s: Seq<u8>) -> Result<(Self::V, int), TryError>;

    fn try_read(buf: &mut Cursor) -> (r: Result<Self, TryError>)
        ensures
            read_outcome(Self::spec_read(old(buf)@), old(buf)@, r, final(buf)@),
    ;
}

/// A type that can be encoded by appending bytes to a buffer.
pub trait WriteInto: Sized + View {
    /// The bytes that encode a value with view `v`.
    spec fn spec_write(v: Self::V) -> Seq<u8>;

    /// Appends the encoding of `self` and returns the number of bytes written.
    fn write(&self, buf: &mut Vec<u8>) -> (n: usize)
        ensures
            final(buf)@ == old(buf)@ + Self::spec_write(self@),
            n == Self::spec_write(self@).len(),
    ;
}

/// Decoding driven from the cursor's side: `buf.try_read()`.
pub trait TryReadInto<T: TryReadFrom>: View<V = Seq<u8>> + Sized {
    fn try_read(&mut self) -> (r: Result<T, TryError>)
        ensures
            read_outcome(T::spec_read(old(self)@), old(self)@, r, final(self)@),
    ;
}

impl<T: TryReadFrom> TryReadInto<T> for Cursor {
    fn try_read(&mut self) -> (r: Result<T, TryError>) {
        T::try_read(self)
    }
}

/// Encoding driven from the buffer's side: `buf.write(&value)`.
pub trait WriteFrom<T: WriteInto>: View<V = Seq<u8>> + Sized {
    fn write(&mut self, value: &T) -> (n: usize)
        ensures
            final(self)@ == old(self)@ + T::spec_write(value@),
            n == T::spec_write(value@).len(),
    ;
}

impl<T: WriteInto> WriteFrom<T> for Vec<u8> {
    fn write(&mut self, value: &T) -> (n: usize) {
        value.write(self)
    }
}

impl TryReadFrom for u8 {
    open spec fn spec_read(s: Seq<u8>) -> Result<(u8, int), TryError> {
        fixed_read(s, 1, s[0])
    }

    fn try_read(buf: &mut Cursor) -> (r: Result<u8, TryError>) {
        buf.read_u8()
    }
}

impl TryReadFrom for u16 {
    open spec fn spec_read(s: Seq<u8>) -> Result<(u16, int), TryError> {
        fixed_read(s, 2, be16(s) as u16)
    }

    fn try_read(buf: &mut Cursor) -> (r: Result<u16, TryError>) {
        buf.read_u16()
    }
}

impl TryReadFrom for u32 {
    open spec fn spec_read(s: Seq<u8>) -> Result<(u32, int), TryError> {
        fixed_read(s, 4, be32(s) as u32)
    }

    fn try_read(buf: &mut Cursor) -> (r: Result<u32, TryError>) {
        buf.read_u32()
    }
}

impl TryReadFrom for u64 {
    open spec fn spec_read(s: Seq<u8>) -> Result<(u64, int), TryError> {
        fixed_read(s, 8, be64(s) as u64)
    }

    fn try_read(buf: &mut Cursor) -> (r: Result<u64, TryError>) {
        buf.read_u64()
    }
}

impl TryReadFrom for i8 {
    open spec fn spec_read(s: Seq<u8>) -> Result<(i8, int), TryError> {
        fixed_read(s, 1, s[0] as i8)
    }

    fn try_read(buf: &mut Cursor) -> (r: Result<i8, TryError>) {
        match buf.read_u8() {
            Ok(v) => Ok(v as i8),
            Err(e) => Err(e),
        }
    }
}

impl TryReadFrom for i16 {
    open spec fn spec_read(s: Seq<u8>) -> Result<(i16, int), TryError> {
        fixed_read(s, 2, (be16(s) as u16) as i16)
    }

    fn try_read(buf: &mut Cursor) -> (r: Result<i16, TryError>) {
        match buf.read_u16() {
            Ok(v) => Ok(v as i16),
            Err(e) => Err(e),
        }
    }
}

impl TryReadFrom for i32 {
    open spec fn spec_read(s: Seq<u8>) -> Result<(i32, int), TryError> {
        fixed_read(s, 4, (be32(s) as u32) as i32)
    }

    fn try_read(buf: &mut Cursor) -> (r: Result<i32, TryError>) {
        match buf.read_u32() {
            Ok(v) => Ok(v as i32),
            Err(e) => Err(e),
        }
    }
}

impl TryReadFrom for i64 {
    open spec fn spec_read(s: Seq<u8>) -> Result<(i64, int), TryError> {
        fixed_read(s, 8, (be64(s) as u64) as i64)
    }

    fn try_read(buf: &mut Cursor) -> (r: Result<i64, TryError>) {
        match buf.read_u64() {
            Ok(v) => Ok(v as i64),
            Err(e) => Err(e),
        }
    }
}

/// A boolean is one byte that must be 0 or 1; any other byte is `Malformed`.
impl TryReadFrom for bool {
    open spec fn spec_read(s: Seq<u8>) -> Result<(bool, int), TryError> {
        if s.len() < 1 {
            Err(TryError::NotEnoughBytes)
        } else if s[0] == 0 {
            Ok((false, 1))
        } else if s[0] == 1 {
            Ok((true, 1))
        } else {
            Err(TryError::Malformed)
        }
    }

    fn try_read(buf: &mut Cursor) -> (r: Result<bool, TryError>) {
        match buf.read_u8() {
            Ok(0) => Ok(false),
            Ok(1) => Ok(true),
            Ok(_) => Err(TryError::Malformed),
            Err(e) => Err(e),
        }
    }
}

/// Appends the big-endian bytes of `v`.
pub fn push_u16(buf: &mut Vec<u8>, v: u16)
    ensures
        final(buf)@ == old(buf)@ + enc16(v as int),
{
    buf.push((v / 256) as u8);
    buf.push((v % 256) as u8);
    assert(final(buf)@ =~= old(buf)@ + enc16(v as int));
}

/// Appends the big-endian bytes of `v`.
pub fn push_u32(buf: &mut Vec<u8>, v: u32)
    ensures
        final(buf)@ == old(buf)@ + enc32(v as int),
{
    push_u16(buf, (v / 65536) as u16);
    push_u16(buf, (v % 65536) as u16);
    assert(final(buf)@ =~= old(buf)@ + enc32(v as int));
}

/// Appends the big-endian bytes of `v`.
pub fn push_u64(buf: &mut Vec<u8>, v: u64)
    ensures
        final(buf)@ == old(buf)@ + enc64(v as int),
{
    push_u32(buf, (v / 4294967296) as u32);
    push_u32(buf, (v % 4294967296) as u32);
    assert(final(buf)@ =~= old(buf)@ + enc64(v as int));
}

impl WriteInto for u8 {
    open spec fn spec_write(v: u8) -> Seq<u8> {
        seq![v]
    }

    fn write(&self, buf: &mut Vec<u8>) -> (n: usize) {
        buf.push(*self);
        assert(final(buf)@ =~= old(buf)@ + seq![*self]);
        1
    }
}

impl WriteInto for i8 {
    open spec fn spec_write(v: i8) -> Seq<u8> {
        seq![v as u8]
    }

    fn write(&self, buf: &mut Vec<u8>) -> (n: usize) {
        buf.push(*self as u8);
        assert(final(buf)@ =~= old(buf)@ + seq![*self as u8]);
        1
    }
}

impl WriteInto for bool {
    open spec fn spec_write(v: bool) -> Seq<u8> {
        seq![if v { 1u8 } else { 0u8 }]
    }

    fn write(&self, buf: &mut Vec<u8>) -> (n: usize) {
        let b: u8 = if *self { 1 } else { 0 };
        buf.push(b);
        assert(final(buf)@ =~= old(buf)@ + seq![b]);
        1
    }
}

impl WriteInto for u16 {
    open spec fn spec_write(v: u16) -> Seq<u8> {
        enc16(v as int)
    }

    fn write(&self, buf: &mut Vec<u8>) -> (n: usize) {
        push_u16(buf, *self);
        2
    }
}

impl WriteInto for i16 {
    open spec fn spec_write(v: i16) -> Seq<u8> {
        enc16((v as u16) as int)
    }

    fn write(&self, buf: &mut Vec<u8>) -> (n: usize) {
        push_u16(buf, *self as u16);
        2
    }
}

impl WriteInto for u32 {
    open spec fn spec_write(v: u32) -> Seq<u8> {
        enc32(v as int)
    }

    fn write(&self, buf: &mut Vec<u8>) -> (n: usize) {
        push_u32(buf, *self);
        4
    }
}

impl WriteInto for i32 {
    open spec fn spec_write(v: i32) -> Seq<u8> {
        enc32((v as u32) as int)
    }

    fn write(&self, buf: &mut Vec<u8>) -> (n: usize) {
        push_u32(buf, *self as u32);
        4
    }
}

impl WriteInto for u64 {
    open spec fn spec_write(v: u64) -> Seq<u8> {
        enc64(v as int)
    }

    fn write(&self, buf: &mut Vec<u8>) -> (n: usize) {
        push_u64(buf, *self);
        8
    }
}

impl WriteInto for i64 {
    open spec fn spec_write(v: i64) -> Seq<u8> {
        enc64((v as u64) as int)
    }

    fn write(&self, buf: &mut Vec<u8>) -> (n: usize) {
        push_u64(buf, *self as u64);
        8
    }
}

/// Decoding the encoding of `v`, followed by any bytes, gives back `v` and
/// consumes exactly the encoding.
pub open spec fn round_trips<T: TryReadFrom + WriteInto>(v: <T as View>::V, rest: Seq<u8>) -> bool {
    T::spec_read(T::spec_write(v) + rest) == Ok::<(<T as View>::V, int), TryError>(
        (v, T::spec_write(v).len() as int),
    )
}

proof fn lemma_be16_enc16(v: int, rest: Seq<u8>)
    requires
        0 <= v < 0x1_0000,
    ensures
        be16(enc16(v) + rest) == v,
        (enc16(v) + rest).skip(2) == rest,
{
    assert((enc16(v) + rest).skip(2) =~= rest);
}

proof fn lemma_be32_enc32(v: int, rest: Seq<u8>)
    requires
        0 <= v < 0x1_0000_0000,
    ensures
        be32(enc32(v) + rest) == v,
        (enc32(v) + rest).skip(4) == rest,
{
    let s = enc32(v) + rest;
    lemma_be16_enc16(v / 65536, enc16(v % 65536) + rest);
    assert(s =~= enc16(v / 65536) + (enc16(v % 65536) + rest));
    lemma_be16_enc16(v % 65536, rest);
    assert(s.skip(4) =~= rest);
}

proof fn lemma_be64_enc64(v: int, rest: Seq<u8>)
    requires
        0 <= v < 0x1_0000_0000_0000_0000,
    ensures
        be64(enc64(v) + rest) == v,
        (enc64(v) + rest).skip(8) == rest,
{
    let s = enc64(v) + rest;
    lemma_be32_enc32(v / 4294967296, enc32(v % 4294967296) + rest);
    assert(s =~= enc32(v / 4294967296) + (enc32(v % 4294967296) + rest));
    lemma_be32_enc32(v % 4294967296, rest);
    assert(s.skip(8) =~= rest);
}

/// One-byte primitives survive encode then decode.
pub proof fn lemma_round_trip_8(a: u8, b: i8, c: bool, rest: Seq<u8>)
    ensures
        round_trips::<u8>(a, rest),
        round_trips::<i8>(b, rest),
        round_trips::<bool>(c, rest),
{
    assert(((b as u8) as i8) == b) by (bit_vector);
}

/// Two-byte integers survive encode then decode.
pub proof fn lemma_round_trip_16(a: u16, b: i16, rest: Seq<u8>)
    ensures
        round_trips::<u16>(a, rest),
        round_trips::<i16>(b, rest),
{
    lemma_be16_enc16(a as int, rest);
    assert(((b as u16) as i16) == b) by (bit_vector);
    lemma_be16_enc16((b as u16) as int, rest);
}

/// Four-byte integers survive encode then decode.
pub proof fn lemma_round_trip_32(a: u32, b: i32, rest: Seq<u8>)
    ensures
        round_trips::<u32>(a, rest),
        round_trips::<i32>(b, rest),
{
    lemma_be32_enc32(a as int, rest);
    assert(((b as u32) as i32) == b) by (bit_vector);
    lemma_be32_enc32((b as u32) as int, rest);
}

proof fn lemma_round_trip_u64(a: u64, rest: Seq<u8>)
    ensures
        u64::spec_read(enc64(a as int) + rest) == Ok::<(u64, int), TryError>((a, 8)),
{
    lemma_be64_enc64(a as int, rest);
}

/// Eight-byte integers survive encode then decode.
pub proof fn lemma_round_trip_64(a: u64, b: i64, rest: Seq<u8>)
    ensures
        round_trips::<u64>(a, rest),
        round_trips::<i64>(b, rest),
{
    lemma_round_trip_u64(a, rest);
    assert(((b as u64) as i64) == b) by (bit_vector);
    lemma_round_trip_u64(b as u64, rest);
}

/// A primitive read from fewer bytes than its width fails with `NotEnoughBytes`.
pub proof fn lemma_short_input(s: Seq<u8>)
    ensures
        s.len() < 1 ==> u8::spec_read(s) == Err::<(u8, int), TryError>(TryError::NotEnoughBytes)
            && i8::spec_read(s) == Err::<(i8, int), TryError>(TryError::NotEnoughBytes)
            && bool::spec_read(s) == Err::<(bool, int), TryError>(TryError::NotEnoughBytes),
        s.len() < 2 ==> u16::spec_read(s) == Err::<(u16, int), TryError>(TryError::NotEnoughBytes)
            && i16::spec_read(s) == Err::<(i16, int), TryError>(TryError::NotEnoughBytes),
        s.len() < 4 ==> u32::spec_read(s) == Err::<(u32, int), TryError>(TryError::NotEnoughBytes)
            && i32::spec_read(s) == Err::<(i32, int), TryError>(TryError::NotEnoughBytes),
        s.len() < 8 ==> u64::spec_read(s) == Err::<(u64, int), TryError>(TryError::NotEnoughBytes)
            && i64::spec_read(s) == Err::<(i64, int), TryError>(TryError::NotEnoughBytes),
{
}

/// A boolean byte decodes to `false` when 0, `true` when 1, and is
/// `Malformed` otherwise.
pub proof fn lemma_bool_bytes(b: u8, rest: Seq<u8>)
    ensures
        bool::spec_read(seq![b] + rest) == (if b == 0 {
            Ok::<(bool, int), TryError>((false, 1))
        } else if b == 1 {
            Ok::<(bool, int), TryError>((true, 1))
        } else {
            Err::<(bool, int), TryError>(TryError::Malformed)
        }),
{
}

} // verus!
