//! Fixed-size byte encodings of the values a memory block stores.

use vstd::bytes::{
    lemma_auto_spec_u16_to_from_le_bytes, lemma_auto_spec_u32_to_from_le_bytes,
    lemma_auto_spec_u64_to_from_le_bytes, spec_u16_from_le_bytes, spec_u16_to_le_bytes,
    spec_u32_from_le_bytes, spec_u32_to_le_bytes, spec_u64_from_le_bytes, spec_u64_to_le_bytes,
    u16_from_le_bytes, u16_to_le_bytes, u32_from_le_bytes, u32_to_le_bytes, u64_from_le_bytes,
    u64_to_le_bytes,
};
use vstd::prelude::*;
use vstd::slice::slice_subrange;

verus! {

/// `s` with the bytes from `at` on replaced by `e`.
pub open spec fn overwrite(s: Seq<u8>, at: int, e: Seq<u8>) -> Seq<u8> {
    s.subrange(0, at) + e + s.subrange(at + e.len(), s.len() as int)
}

/// Copies `src` into `buf` from index `at` on.
pub fn copy_into(buf: &mut Vec<u8>, at: usize, src: &Vec<u8>)
    requires
        at + src@.len() <= old(buf)@.len(),
    ensures
        final(buf)@ == overwrite(old(buf)@, at as int, src@),
{
    let ghost orig = buf@;
    let n = buf.len();
    let mut i: usize = 0;
    while i < src.len()
        invariant
            buf@.len() == orig.len(),
            n == orig.len(),
            i <= src@.len(),
            at + src@.len() <= orig.len(),
            forall|k: int|
                0 <= k < orig.len() ==> #[trigger] buf@[k] == if at <= k < at + i {
                    src@[k - at]
                } else {
                    orig[k]
                },
        decreases src@.len() - i,
    {
        buf.set(at + i, src[i]);
        i = i + 1;
    }
    assert(buf@ =~= overwrite(orig, at as int, src@));
}

/// A value of statically known byte size, stored as that many bytes.
pub trait FixedBytes: Sized {
    /// How many bytes a value of this type occupies.
    spec fn spec_size() -> nat;

    /// The bytes that stand for `self`.
    spec fn spec_encode(self) -> Seq<u8>;

    /// The value that the bytes `b` stand for.
    spec fn spec_decode(b: Seq<u8>) -> Self;

    /// Encoding gives exactly `spec_size` bytes, and decoding them gives the
    /// value back.
    proof fn lemma_encode_decode(v: Self)
        ensures
            v.spec_encode().len() == Self::spec_size(),
            Self::spec_decode(v.spec_encode()) == v,
    ;

    fn byte_size() -> (r: usize)
        ensures
            r as nat == Self::spec_size(),
    ;

    /// Writes the encoding of `self` into `buf` from index `at` on.
    fn write_to(&self, buf: &mut Vec<u8>, at: usize)
        requires
            at + Self::spec_size() <= old(buf).len(),
        ensures
            final(buf)@ == overwrite(old(buf)@, at as int, self.spec_encode()),
    ;

    /// Reads the value whose encoding starts at index `at` of `buf`.
    fn read_from(buf: &Vec<u8>, at: usize) -> (r: Self)
        requires
            at + Self::spec_size() <= buf.len(),
        ensures
            r == Self::spec_decode(buf@.subrange(at as int, at + Self::spec_size())),
    ;
}

/// A fixed-size value of at most eight bytes: a machine integer or a `bool`.
pub trait Word: FixedBytes {
    proof fn lemma_word_size()
        ensures
            Self::spec_size() <= 8,
    ;
}

impl FixedBytes for u8 {
    open spec fn spec_size() -> nat {
        1
    }

    open spec fn spec_encode(self) -> Seq<u8> {
        seq![self]
    }

    open spec fn spec_decode(b: Seq<u8>) -> u8 {
        b[0]
    }

    proof fn lemma_encode_decode(v: u8) {
    }

    fn byte_size() -> (r: usize) {
        1
    }

    fn write_to(&self, buf: &mut Vec<u8>, at: usize) {
        let ghost orig = buf@;
        buf.set(at, *self);
        assert(buf@ =~= overwrite(orig, at as int, self.spec_encode()));
    }

    fn read_from(buf: &Vec<u8>, at: usize) -> (r: u8) {
        buf[at]
    }
}

impl Word for u8 {
    proof fn lemma_word_size() {
    }
}

impl FixedBytes for u16 {
    open spec fn spec_size() -> nat {
        2
    }

    open spec fn spec_encode(self) -> Seq<u8> {
        spec_u16_to_le_bytes(self)
    }

    open spec fn spec_decode(b: Seq<u8>) -> u16 {
        spec_u16_from_le_bytes(b)
    }

    proof fn lemma_encode_decode(v: u16) {
        lemma_auto_spec_u16_to_from_le_bytes();
        assert(spec_u16_to_le_bytes(v).len() == 2);
    }

    fn byte_size() -> (r: usize) {
        2
    }

    fn write_to(&self, buf: &mut Vec<u8>, at: usize) {
        let enc = u16_to_le_bytes(*self);
        copy_into(buf, at, &enc);
    }

    fn read_from(buf: &Vec<u8>, at: usize) -> (r: u16) {
        u16_from_le_bytes(slice_subrange(buf.as_slice(), at, at + 2))
    }
}

impl Word for u16 {
    proof fn lemma_word_size() {
    }
}

impl FixedBytes for u32 {
    open spec fn spec_size() -> nat {
        4
    }

    open spec fn spec_encode(self) -> Seq<u8> {
        spec_u32_to_le_bytes(self)
    }

    open spec fn spec_decode(b: Seq<u8>) -> u32 {
        spec_u32_from_le_bytes(b)
    }

    proof fn lemma_encode_decode(v: u32) {
        lemma_auto_spec_u32_to_from_le_bytes();
        assert(spec_u32_to_le_bytes(v).len() == 4);
    }

    fn byte_size() -> (r: usize) {
        4
    }

    fn write_to(&self, buf: &mut Vec<u8>, at: usize) {
        let enc = u32_to_le_bytes(*self);
        copy_into(buf, at, &enc);
    }

    fn read_from(buf: &Vec<u8>, at: usize) -> (r: u32) {
        u32_from_le_bytes(slice_subrange(buf.as_slice(), at, at + 4))
    }
}

impl Word for u32 {
    proof fn lemma_word_size() {
    }
}

impl FixedBytes for u64 {
    open spec fn spec_size() -> nat {
        8
    }

    open spec fn spec_encode(self) -> Seq<u8> {
        spec_u64_to_le_bytes(self)
    }

    open spec fn spec_decode(b: Seq<u8>) -> u64 {
        spec_u64_from_le_bytes(b)
    }

    proof fn lemma_encode_decode(v: u64) {
        lemma_auto_spec_u64_to_from_le_bytes();
    }

    fn byte_size() -> (r: usize) {
        8
    }

    fn write_to(&self, buf: &mut Vec<u8>, at: usize) {
        let enc = u64_to_le_bytes(*self);
        copy_into(buf, at, &enc);
    }

    fn read_from(buf: &Vec<u8>, at: usize) -> (r: u64) {
        u64_from_le_bytes(slice_subrange(buf.as_slice(), at, at + 8))
    }
}

impl Word for u64 {
    proof fn lemma_word_size() {
    }
}

/// Stored as the one byte of the `u8` with the same bits.
impl FixedBytes for i8 {
    open spec fn spec_size() -> nat {
        1
    }

    open spec fn spec_encode(self) -> Seq<u8> {
        seq![self as u8]
    }

    open spec fn spec_decode(b: Seq<u8>) -> i8 {
        b[0] as i8
    }

    proof fn lemma_encode_decode(v: i8) {
        assert((v as u8) as i8 == v) by (bit_vector);
    }

    fn byte_size() -> (r: usize) {
        1
    }

    fn write_to(&self, buf: &mut Vec<u8>, at: usize) {
        let ghost orig = buf@;
        buf.set(at, *self as u8);
        assert(buf@ =~= overwrite(orig, at as int, self.spec_encode()));
    }

    fn read_from(buf: &Vec<u8>, at: usize) -> (r: i8) {
        buf[at] as i8
    }
}

impl Word for i8 {
    proof fn lemma_word_size() {
    }
}

/// Stored as the two's-complement bytes of the `u16` with the same bits.
impl FixedBytes for i16 {
    open spec fn spec_size() -> nat {
        2
    }

    open spec fn spec_encode(self) -> Seq<u8> {
        spec_u16_to_le_bytes(self as u16)
    }

    open spec fn spec_decode(b: Seq<u8>) -> i16 {
        spec_u16_from_le_bytes(b) as i16
    }

    proof fn lemma_encode_decode(v: i16) {
        lemma_auto_spec_u16_to_from_le_bytes();
        assert(spec_u16_to_le_bytes(v as u16).len() == 2);
        assert((v as u16) as i16 == v) by (bit_vector);
    }

    fn byte_size() -> (r: usize) {
        2
    }

    fn write_to(&self, buf: &mut Vec<u8>, at: usize) {
        let enc = u16_to_le_bytes(*self as u16);
        copy_into(buf, at, &enc);
    }

    fn read_from(buf: &Vec<u8>, at: usize) -> (r: i16) {
        u16_from_le_bytes(slice_subrange(buf.as_slice(), at, at + 2)) as i16
    }
}

impl Word for i16 {
    proof fn lemma_word_size() {
    }
}

/// Stored as the two's-complement bytes of the `u32` with the same bits.
impl FixedBytes for i32 {
    open spec fn spec_size() -> nat {
        4
    }

    open spec fn spec_encode(self) -> Seq<u8> {
        spec_u32_to_le_bytes(self as u32)
    }

    open spec fn spec_decode(b: Seq<u8>) -> i32 {
        spec_u32_from_le_bytes(b) as i32
    }

    proof fn lemma_encode_decode(v: i32) {
        lemma_auto_spec_u32_to_from_le_bytes();
        assert(spec_u32_to_le_bytes(v as u32).len() == 4);
        assert((v as u32) as i32 == v) by (bit_vector);
    }

    fn byte_size() -> (r: usize) {
        4
    }

    fn write_to(&self, buf: &mut Vec<u8>, at: usize) {
        let enc = u32_to_le_bytes(*self as u32);
        copy_into(buf, at, &enc);
    }

    fn read_from(buf: &Vec<u8>, at: usize) -> (r: i32) {
        u32_from_le_bytes(slice_subrange(buf.as_slice(), at, at + 4)) as i32
    }
}

impl Word for i32 {
    proof fn lemma_word_size() {
    }
}

/// Stored as the two's-complement bytes of the `u64` with the same bits.
impl FixedBytes for i64 {
    open spec fn spec_size() -> nat {
        8
    }

    open spec fn spec_encode(self) -> Seq<u8> {
        spec_u64_to_le_bytes(self as u64)
    }

    open spec fn spec_decode(b: Seq<u8>) -> i64 {
        spec_u64_from_le_bytes(b) as i64
    }

    proof fn lemma_encode_decode(v: i64) {
        lemma_auto_spec_u64_to_from_le_bytes();
        assert(spec_u64_to_le_bytes(v as u64).len() == 8);
        assert((v as u64) as i64 == v) by (bit_vector);
    }

    fn byte_size() -> (r: usize) {
        8
    }

    fn write_to(&self, buf: &mut Vec<u8>, at: usize) {
        let enc = u64_to_le_bytes(*self as u64);
        copy_into(buf, at, &enc);
    }

    fn read_from(buf: &Vec<u8>, at: usize) -> (r: i64) {
        u64_from_le_bytes(slice_subrange(buf.as_slice(), at, at + 8)) as i64
    }
}

impl Word for i64 {
    proof fn lemma_word_size() {
    }
}

/// Stored in eight bytes, as the `u64` of the same value, whatever the
/// platform's pointer width.
impl FixedBytes for usize {
    open spec fn spec_size() -> nat {
        8
    }

    open spec fn spec_encode(self) -> Seq<u8> {
        spec_u64_to_le_bytes(self as u64)
    }

    open spec fn spec_decode(b: Seq<u8>) -> usize {
        spec_u64_from_le_bytes(b) as usize
    }

    proof fn lemma_encode_decode(v: usize) {
        lemma_auto_spec_u64_to_from_le_bytes();
        assert(spec_u64_to_le_bytes(v as u64).len() == 8);
    }

    fn byte_size() -> (r: usize) {
        8
    }

    fn write_to(&self, buf: &mut Vec<u8>, at: usize) {
        let enc = u64_to_le_bytes(*self as u64);
        copy_into(buf, at, &enc);
    }

    fn read_from(buf: &Vec<u8>, at: usize) -> (r: usize) {
        u64_from_le_bytes(slice_subrange(buf.as_slice(), at, at + 8)) as usize
    }
}

impl Word for usize {
    proof fn lemma_word_size() {
    }
}

/// Stored as one byte: 1 for `true`, 0 for `false`; any nonzero byte reads
/// as `true`.
impl FixedBytes for bool {
    open spec fn spec_size() -> nat {
        1
    }

    open spec fn spec_encode(self) -> Seq<u8> {
        seq![if self { 1u8 } else { 0u8 }]
    }

    open spec fn spec_decode(b: Seq<u8>) -> bool {
        b[0] != 0
    }

    proof fn lemma_encode_decode(v: bool) {
    }

    fn byte_size() -> (r: usize) {
        1
    }

    fn write_to(&self, buf: &mut Vec<u8>, at: usize) {
        let ghost orig = buf@;
        buf.set(at, if *self { 1u8 } else { 0u8 });
        assert(buf@ =~= overwrite(orig, at as int, self.spec_encode()));
    }

    fn read_from(buf: &Vec<u8>, at: usize) -> (r: bool) {
        buf[at] != 0
    }
}

impl Word for bool {
    proof fn lemma_word_size() {
    }
}

/// A two-field record: the first field's bytes, then the second's.
impl<A: Word, B: Word> FixedBytes for (A, B) {
    open spec fn spec_size() -> nat {
        A::spec_size() + B::spec_size()
    }

    open spec fn spec_encode(self) -> Seq<u8> {
        self.0.spec_encode() + self.1.spec_encode()
    }

    open spec fn spec_decode(b: Seq<u8>) -> (A, B) {
        (
            A::spec_decode(b.subrange(0, A::spec_size() as int)),
            B::spec_decode(b.subrange(A::spec_size() as int, (A::spec_size() + B::spec_size()) as int)),
        )
    }

    proof fn lemma_encode_decode(v: (A, B)) {
        A::lemma_encode_decode(v.0);
        B::lemma_encode_decode(v.1);
        let e = v.spec_encode();
        assert(e.subrange(0, A::spec_size() as int) =~= v.0.spec_encode());
        assert(e.subrange(A::spec_size() as int, (A::spec_size() + B::spec_size()) as int)
            =~= v.1.spec_encode());
    }

    fn byte_size() -> (r: usize) {
        proof {
            A::lemma_word_size();
            B::lemma_word_size();
        }
        A::byte_size() + B::byte_size()
    }

    fn write_to(&self, buf: &mut Vec<u8>, at: usize) {
        let ghost orig = buf@;
        proof {
            A::lemma_word_size();
            B::lemma_word_size();
            A::lemma_encode_decode(self.0);
            B::lemma_encode_decode(self.1);
        }
        let asz = A::byte_size();
        self.0.write_to(buf, at);
        self.1.write_to(buf, at + asz);
        assert(buf@ =~= overwrite(orig, at as int, self.spec_encode()));
    }

    fn read_from(buf: &Vec<u8>, at: usize) -> (r: (A, B)) {
        proof {
            A::lemma_word_size();
            B::lemma_word_size();
        }
        let asz = A::byte_size();
        let a = A::read_from(buf, at);
        let b = B::read_from(buf, at + asz);
        let ghost s = buf@.subrange(at as int, at + Self::spec_size());
        assert(s.subrange(0, A::spec_size() as int) =~= buf@.subrange(
            at as int,
            at + A::spec_size(),
        ));
        assert(s.subrange(A::spec_size() as int, (A::spec_size() + B::spec_size()) as int) =~= buf@.subrange(
            at + A::spec_size(),
            at + A::spec_size() + B::spec_size(),
        ));
        (a, b)
    }
}

} // verus!
