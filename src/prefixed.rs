//! Count-prefixed homogeneous sequences, parameterised by the prefix's
//! integer type and a base offset subtracted from the on-wire count.
use vstd::prelude::*;

use crate::codec::{round_trips, Cursor, TryError, TryReadFrom, WriteInto};

verus! {

/// The constant subtracted from an on-wire count to give the item count.
pub trait Offset {
    spec fn spec_value() -> nat;

    fn value() -> (r: usize)
        ensures
            r == Self::spec_value(),
    ;
}

/// Offset 0: the count is the exact number of items.
#[derive(Debug, Clone, Copy, PartialEq, Eq, Structural)]
pub struct ZeroOffset;

/// Offset 1: the count is one past the number of items.
#[derive(Debug, Clone, Copy, PartialEq, Eq, Structural)]
pub struct OneOffset;

impl Offset for ZeroOffset {
    open spec fn spec_value() -> nat {
        0
    }

    fn value() -> (r: usize) {
        0
    }
}

impl Offset for OneOffset {
    open spec fn spec_value() -> nat {
        1
    }

    fn value() -> (r: usize) {
        1
    }
}

/// An unsigned integer type that can carry a sequence's count.
pub trait CountPrefix: TryReadFrom + WriteInto {
    /// The count a prefix value states.
    spec fn spec_count(v: Self::V) -> nat;

    /// The largest count the prefix type can state.
    spec fn spec_max() -> nat;

    /// The prefix value stating count `n`.
    spec fn spec_from_count(n: nat) -> Self::V;

    fn count(&self) -> (r: u64)
        ensures
            r == Self::spec_count(self@),
    ;

    fn max_count() -> (r: u64)
        ensures
            r == Self::spec_max(),
    ;

    fn from_count(n: u64) -> (r: Self)
        requires
            n <= Self::spec_max(),
        ensures
            r@ == Self::spec_from_count(n as nat),
    ;

    proof fn lemma_count(v: Self::V, n: nat, rest: Seq<u8>)
        ensures
            round_trips::<Self>(v, rest),
            Self::spec_count(v) <= Self::spec_max(),
            Self::spec_max() <= u64::MAX,
            n <= Self::spec_max() ==> Self::spec_count(Self::spec_from_count(n)) == n,
    ;
}

impl CountPrefix for u8 {
    open spec fn spec_count(v: u8) -> nat {
        v as nat
    }

    open spec fn spec_max() -> nat {
        0xff
    }

    open spec fn spec_from_count(n: nat) -> u8 {
        n as u8
    }

    fn count(&self) -> (r: u64) {
        *self as u64
    }

    fn max_count() -> (r: u64) {
        0xff
    }

    fn from_count(n: u64) -> (r: u8) {
        n as u8
    }

    proof fn lemma_count(v: u8, n: nat, rest: Seq<u8>) {
        crate::codec::lemma_round_trip_8(v, 0, false, rest);
    }
}

impl CountPrefix for u16 {
    open spec fn spec_count(v: u16) -> nat {
        v as nat
    }

    open spec fn spec_max() -> nat {
        0xffff
    }

    open spec fn spec_from_count(n: nat) -> u16 {
        n as u16
    }

    fn count(&self) -> (r: u64) {
        *self as u64
    }

    fn max_count() -> (r: u64) {
        0xffff
    }

    fn from_count(n: u64) -> (r: u16) {
        n as u16
    }

    proof fn lemma_count(v: u16, n: nat, rest: Seq<u8>) {
        crate::codec::lemma_round_trip_16(v, 0, rest);
    }
}

impl CountPrefix for u32 {
    open spec fn spec_count(v: u32) -> nat {
        v as nat
    }

    open spec fn spec_max() -> nat {
        0xffff_ffff
    }

    open spec fn spec_from_count(n: nat) -> u32 {
        n as u32
    }

    fn count(&self) -> (r: u64) {
        *self as u64
    }

    fn max_count() -> (r: u64) {
        0xffff_ffff
    }

    fn from_count(n: u64) -> (r: u32) {
        n as u32
    }

    proof fn lemma_count(v: u32, n: nat, rest: Seq<u8>) {
        crate::codec::lemma_round_trip_32(v, 0, rest);
    }
}

/// Decoding `count` items one after another from the front of `s`: their
/// views and the bytes they occupy, or the first failure.
pub open spec fn spec_read_items<T: TryReadFrom>(s: Seq<u8>, count: nat) -> Result<
    (Seq<T::V>, int),
    TryError,
>
    decreases count,
{
    if count == 0 {
        Ok((seq![], 0))
    } else {
        match T::spec_read(s) {
            Err(e) => Err(e),
            Ok((v, n)) => match spec_read_items::<T>(s.skip(n), (count - 1) as nat) {
                Err(e) => Err(e),
                Ok((vs, m)) => Ok((seq![v] + vs, n + m)),
            },
        }
    }
}

/// The encodings of `vs`, one after another.
pub open spec fn spec_write_items<T: WriteInto>(vs: Seq<T::V>) -> Seq<u8>
    decreases vs.len(),
{
    if vs.len() == 0 {
        seq![]
    } else {
        T::spec_write(vs[0]) + spec_write_items::<T>(vs.skip(1))
    }
}

/// Prepends already-decoded items and consumed bytes to a decode result.
pub open spec fn prepend<V>(acc: Seq<V>, k: int, r: Result<(Seq<V>, int), TryError>) -> Result<
    (Seq<V>, int),
    TryError,
> {
    match r {
        Err(e) => Err(e),
        Ok((vs, m)) => Ok((acc + vs, k + m)),
    }
}

/// An ordered sequence of items whose wire form is a count of type `P`
/// (the number of items plus `O`'s offset) followed by the items.
pub struct PrefixedVec<P: CountPrefix, T: View, O: Offset> {
    offset: core::marker::PhantomData<O>,
    prefix: core::marker::PhantomData<P>,
    data: Vec<T>,
}

impl<P: CountPrefix, T: View, O: Offset> View for PrefixedVec<P, T, O> {
    type V = Seq<T::V>;

    closed spec fn view(&self) -> Seq<T::V> {
        self.data@.map_values(|t: T| t@)
    }
}

impl<P: CountPrefix, T: View, O: Offset> PrefixedVec<P, T, O> {
    #[verifier::type_invariant]
    spec fn inv(&self) -> bool {
        self.data@.len() + O::spec_value() <= P::spec_max()
    }

    /// Wraps `data`, which must be short enough for its count to fit the prefix.
    pub fn new(data: Vec<T>) -> (r: Result<Self, TryError>)
        ensures
            data@.len() + O::spec_value() <= P::spec_max() ==> (r matches Ok(v) && v@ == data@.map_values(|t: T| t@)),
            data@.len() + O::spec_value() > P::spec_max() ==> r == Err::<Self, TryError>(TryError::ValueTooLarge),
    {
        let max = P::max_count();
        let off = O::value();
        if data.len() as u64 > max || (off as u64) > max - (data.len() as u64) {
            return Err(TryError::ValueTooLarge);
        }
        Ok(PrefixedVec { offset: core::marker::PhantomData, prefix: core::marker::PhantomData, data })
    }

    /// The items.
    pub fn items(&self) -> (r: &Vec<T>)
        ensures
            r@.map_values(|t: T| t@) == self@,
    {
        &self.data
    }

    /// The number of items.
    pub fn len(&self) -> (r: usize)
        ensures
            r == self@.len(),
    {
        self.data.len()
    }

    /// Gives up the items.
    pub fn into_inner(self) -> (r: Vec<T>)
        ensures
            r@.map_values(|t: T| t@) == self@,
    {
        self.data
    }
}

impl<P: CountPrefix, T: View, O: Offset> core::ops::Deref for PrefixedVec<P, T, O> {
    type Target = Vec<T>;

    fn deref(&self) -> (r: &Vec<T>)
        ensures
            r@.map_values(|t: T| t@) == self@,
    {
        &self.data
    }
}

impl<P: CountPrefix, T: TryReadFrom, O: Offset> TryReadFrom for PrefixedVec<P, T, O> {
    open spec fn spec_read(s: Seq<u8>) -> Result<(Seq<T::V>, int), TryError> {
        match P::spec_read(s) {
            Err(e) => Err(e),
            Ok((p, n)) => if P::spec_count(p) < O::spec_value() {
                Err(TryError::Malformed)
            } else {
                prepend(
                    seq![],
                    n,
                    spec_read_items::<T>(s.skip(n), (P::spec_count(p) - O::spec_value()) as nat),
                )
            },
        }
    }

    fn try_read(buf: &mut Cursor) -> (r: Result<Self, TryError>) {
        let ghost s0 = buf@;
        let p = match P::try_read(buf) {
            Ok(p) => p,
            Err(e) => return Err(e),
        };
        let ghost n0 = s0.len() - buf@.len();
        proof {
            P::lemma_count(p@, 0, seq![]);
        }
        let count = p.count();
        let off = O::value();
        if count < off as u64 {
            return Err(TryError::Malformed);
        }
        let length = count - off as u64;
        let ghost total = spec_read_items::<T>(s0.skip(n0), length as nat);
        assert(P::spec_read(s0) == Ok::<(P::V, int), TryError>((p@, n0)));
        assert(total == prepend(seq![], 0, total));
        let mut data: Vec<T> = Vec::new();
        let mut i: u64 = 0;
        while i < length
            invariant
                s0 == old(buf)@,
                P::spec_read(s0) == Ok::<(P::V, int), TryError>((p@, n0)),
                P::spec_count(p@) == length + O::spec_value(),
                total == spec_read_items::<T>(s0.skip(n0), length as nat),
                i <= length,
                length + O::spec_value() <= P::spec_max(),
                data@.len() == i,
                0 <= s0.len() - buf@.len(),
                buf@ == s0.skip(s0.len() - buf@.len()),
                total == prepend(
                    data@.map_values(|t: T| t@),
                    s0.len() - buf@.len() - n0,
                    spec_read_items::<T>(buf@, (length - i) as nat),
                ),
            decreases length - i,
        {
            let ghost before = buf@;
            let ghost acc = data@.map_values(|t: T| t@);
            match T::try_read(buf) {
                Ok(item) => {
                    proof {
                        let (v, n) = T::spec_read(before).unwrap();
                        assert(buf@ == before.skip(n));
                        assert(before.skip(n) =~= s0.skip(s0.len() - buf@.len()));
                        let r = spec_read_items::<T>(buf@, (length - i - 1) as nat);
                        match r {
                            Ok((vs, m)) => {
                                assert(acc + (seq![v] + vs) =~= acc.push(v) + vs);
                            },
                            Err(_) => {},
                        }
                    }
                    data.push(item);
                    assert(data@.map_values(|t: T| t@) =~= acc.push(item@));
                },
                Err(e) => {
                    assert(spec_read_items::<T>(before, (length - i) as nat) == Err::<
                        (Seq<T::V>, int),
                        TryError,
                    >(e));
                    assert(total == Err::<(Seq<T::V>, int), TryError>(e));
                    assert(P::spec_read(s0) == Ok::<(P::V, int), TryError>((p@, n0)));
                    assert(Self::spec_read(s0) == Err::<(Seq<T::V>, int), TryError>(e));
                    return Err(e);
                },
            }
            i = i + 1;
        }
        proof {
            let vs = data@.map_values(|t: T| t@);
            assert(seq![] + vs =~= vs);
            assert(vs + seq![] =~= vs);
            assert(spec_read_items::<T>(buf@, 0) == Ok::<(Seq<T::V>, int), TryError>((seq![], 0)));
            assert(total == Ok::<(Seq<T::V>, int), TryError>((vs, s0.len() - buf@.len() - n0)));
            assert(P::spec_read(s0) == Ok::<(P::V, int), TryError>((p@, n0)));
            assert(Self::spec_read(s0) == Ok::<(Seq<T::V>, int), TryError>((vs, s0.len() - buf@.len())));
        }
        Ok(PrefixedVec { offset: core::marker::PhantomData, prefix: core::marker::PhantomData, data })
    }
}

proof fn lemma_write_items_push<T: WriteInto>(vs: Seq<T::V>, v: T::V)
    ensures
        spec_write_items::<T>(vs.push(v)) == spec_write_items::<T>(vs) + T::spec_write(v),
    decreases vs.len(),
{
    if vs.len() == 0 {
        assert(vs.push(v).skip(1) =~= Seq::<T::V>::empty());
        assert(vs.push(v)[0] == v);
        assert(spec_write_items::<T>(Seq::<T::V>::empty()) == Seq::<u8>::empty());
        assert(spec_write_items::<T>(vs.push(v)) =~= T::spec_write(v) + Seq::<u8>::empty());
        assert(spec_write_items::<T>(vs) == Seq::<u8>::empty());
    } else {
        lemma_write_items_push::<T>(vs.skip(1), v);
        assert(vs.push(v).skip(1) =~= vs.skip(1).push(v));
        assert(spec_write_items::<T>(vs.push(v)) =~= spec_write_items::<T>(vs) + T::spec_write(v));
    }
}

impl<P: CountPrefix, T: WriteInto, O: Offset> WriteInto for PrefixedVec<P, T, O> {
    open spec fn spec_write(vs: Seq<T::V>) -> Seq<u8> {
        P::spec_write(P::spec_from_count(vs.len() + O::spec_value())) + spec_write_items::<T>(vs)
    }

    fn write(&self, buf: &mut Vec<u8>) -> (n: usize) {
        proof {
            use_type_invariant(self);
            P::lemma_count(P::spec_from_count(0), 0, seq![]);
        }
        let start = buf.len();
        let count = P::from_count(self.data.len() as u64 + O::value() as u64);
        count.write(buf);
        let ghost head = buf@;
        let mut i: usize = 0;
        assert(self@.take(0) =~= seq![]);
        while i < self.data.len()
            invariant
                i <= self.data@.len(),
                head == old(buf)@ + P::spec_write(P::spec_from_count(self@.len() + O::spec_value())),
                buf@ == head + spec_write_items::<T>(self@.take(i as int)),
            decreases self.data@.len() - i,
        {
            self.data[i].write(buf);
            proof {
                lemma_write_items_push::<T>(self@.take(i as int), self@[i as int]);
                assert(self@.take(i + 1) =~= self@.take(i as int).push(self@[i as int]));
            }
            i = i + 1;
        }
        assert(self@.take(i as int) =~= self@);
        buf.len() - start
    }
}

proof fn lemma_items_round_trip<T: TryReadFrom + WriteInto>(vs: Seq<<T as View>::V>, rest: Seq<u8>)
    requires
        forall|v: <T as View>::V, r: Seq<u8>| #[trigger] round_trips::<T>(v, r),
    ensures
        spec_read_items::<T>(spec_write_items::<T>(vs) + rest, vs.len()) == Ok::<
            (Seq<<T as View>::V>, int),
            TryError,
        >((vs, spec_write_items::<T>(vs).len() as int)),
    decreases vs.len(),
{
    if vs.len() > 0 {
        let tail = spec_write_items::<T>(vs.skip(1)) + rest;
        assert(spec_write_items::<T>(vs) + rest =~= T::spec_write(vs[0]) + tail);
        assert(round_trips::<T>(vs[0], tail));
        assert((T::spec_write(vs[0]) + tail).skip(T::spec_write(vs[0]).len() as int) =~= tail);
        lemma_items_round_trip::<T>(vs.skip(1), rest);
        assert(seq![vs[0]] + vs.skip(1) =~= vs);
    } else {
        assert(vs =~= seq![]);
    }
}

proof fn lemma_items_run_out<T: TryReadFrom + WriteInto>(vs: Seq<<T as View>::V>, count: nat)
    requires
        forall|v: <T as View>::V, r: Seq<u8>| #[trigger] round_trips::<T>(v, r),
        T::spec_read(seq![]) == Err::<(<T as View>::V, int), TryError>(TryError::NotEnoughBytes),
        count > vs.len(),
    ensures
        spec_read_items::<T>(spec_write_items::<T>(vs), count) == Err::<
            (Seq<<T as View>::V>, int),
            TryError,
        >(TryError::NotEnoughBytes),
    decreases vs.len(),
{
    if vs.len() > 0 {
        let tail = spec_write_items::<T>(vs.skip(1));
        assert(spec_write_items::<T>(vs) =~= T::spec_write(vs[0]) + tail);
        assert(round_trips::<T>(vs[0], tail));
        assert((T::spec_write(vs[0]) + tail).skip(T::spec_write(vs[0]).len() as int) =~= tail);
        lemma_items_run_out::<T>(vs.skip(1), (count - 1) as nat);
    } else {
        assert(spec_write_items::<T>(vs) =~= seq![]);
    }
}

/// Encoding a sequence whose count fits its prefix and then decoding it,
/// followed by any bytes, gives back the same items, and consumes exactly
/// the encoding, whose prefix states the item count plus the offset.
/// Holds for every item type whose own encoding decodes back.
pub proof fn lemma_prefixed_round_trip<P: CountPrefix, T: TryReadFrom + WriteInto, O: Offset>(
    vs: Seq<<T as View>::V>,
    rest: Seq<u8>,
)
    requires
        vs.len() + O::spec_value() <= P::spec_max(),
        forall|v: <T as View>::V, r: Seq<u8>| #[trigger] round_trips::<T>(v, r),
    ensures
        round_trips::<PrefixedVec<P, T, O>>(vs, rest),
        P::spec_count(P::spec_from_count(vs.len() + O::spec_value())) == vs.len() + O::spec_value(),
{
    let c = vs.len() + O::spec_value();
    let p = P::spec_from_count(c);
    let items = spec_write_items::<T>(vs) + rest;
    P::lemma_count(p, c, items);
    let s = PrefixedVec::<P, T, O>::spec_write(vs) + rest;
    assert(s =~= P::spec_write(p) + items);
    assert(s.skip(P::spec_write(p).len() as int) =~= items);
    lemma_items_round_trip::<T>(vs, rest);
    assert(seq![] + vs =~= vs);
}

/// A declared count smaller than the base offset is `Malformed`.
pub proof fn lemma_prefixed_under_offset<P: CountPrefix, T: TryReadFrom, O: Offset>(
    p: <P as View>::V,
    rest: Seq<u8>,
)
    requires
        P::spec_count(p) < O::spec_value(),
    ensures
        PrefixedVec::<P, T, O>::spec_read(P::spec_write(p) + rest) == Err::<
            (Seq<<T as View>::V>, int),
            TryError,
        >(TryError::Malformed),
{
    P::lemma_count(p, 0, rest);
}

/// A declared count larger than the number of items that follow fails with
/// `NotEnoughBytes`, for every item type that needs at least one byte.
pub proof fn lemma_prefixed_too_few_items<P: CountPrefix, T: TryReadFrom + WriteInto, O: Offset>(
    count: nat,
    vs: Seq<<T as View>::V>,
)
    requires
        vs.len() + O::spec_value() < count <= P::spec_max(),
        forall|v: <T as View>::V, r: Seq<u8>| #[trigger] round_trips::<T>(v, r),
        T::spec_read(seq![]) == Err::<(<T as View>::V, int), TryError>(TryError::NotEnoughBytes),
    ensures
        PrefixedVec::<P, T, O>::spec_read(
            P::spec_write(P::spec_from_count(count)) + spec_write_items::<T>(vs),
        ) == Err::<(Seq<<T as View>::V>, int), TryError>(TryError::NotEnoughBytes),
{
    let p = P::spec_from_count(count);
    let items = spec_write_items::<T>(vs);
    P::lemma_count(p, count, items);
    assert((P::spec_write(p) + items).skip(P::spec_write(p).len() as int) =~= items);
    lemma_items_run_out::<T>(vs, (count - O::spec_value()) as nat);
}

} // verus!
