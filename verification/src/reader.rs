//! The primitive reader: big-endian integers, byte runs and length-prefixed
//! UTF-8 strings, taken from a byte string at a moving position.

use crate::error::{DeserializationError, ErrorView, Parsed};
use byteorder::{BigEndian, ByteOrder};
use std::rc::Rc;
use vstd::prelude::*;
use vstd::slice::{slice_subrange, slice_to_vec};
use vstd::utf8::{decode_utf8, valid_utf8};

verus! {

/// The number that two bytes spell, most significant byte first.
pub open spec fn spec_be_u16(b: Seq<u8>) -> u16 {
    (b[0] as int * 0x100 + b[1] as int) as u16
}

/// The number that four bytes spell, most significant byte first.
pub open spec fn spec_be_u32(b: Seq<u8>) -> u32 {
    (b[0] as int * 0x100_0000 + b[1] as int * 0x1_0000 + b[2] as int * 0x100 + b[3] as int) as u32
}

/// The number that eight bytes spell, most significant byte first.
pub open spec fn spec_be_u64(b: Seq<u8>) -> u64 {
    let high = spec_be_u32(b.subrange(0, 4)) as int;
    let low = spec_be_u32(b.subrange(4, 8)) as int;
    (high * 0x1_0000_0000 + low) as u64
}

/// The two's-complement reading of four big-endian bytes.
pub open spec fn spec_be_i32(b: Seq<u8>) -> i32 {
    let u = spec_be_u32(b) as int;
    if u < 0x8000_0000 {
        u as i32
    } else {
        (u - 0x1_0000_0000) as i32
    }
}

/// The two's-complement reading of eight big-endian bytes.
pub open spec fn spec_be_i64(b: Seq<u8>) -> i64 {
    let u = spec_be_u64(b) as int;
    if u < 0x8000_0000_0000_0000 {
        u as i64
    } else {
        (u - 0x1_0000_0000_0000_0000) as i64
    }
}

/// `byteorder::BigEndian::read_u16`: the first two bytes of `buf` read as a
/// big-endian number. The crate panics on a shorter buffer, which `requires`
/// leaves out.
#[verifier::external_body]
fn be_u16(buf: &[u8]) -> (v: u16)
    requires
        buf@.len() >= 2,
    ensures
        v == spec_be_u16(buf@),
{
    BigEndian::read_u16(buf)
}

/// `byteorder::BigEndian::read_u32`: the first four bytes of `buf` read as a
/// big-endian number. The crate panics on a shorter buffer.
#[verifier::external_body]
fn be_u32(buf: &[u8]) -> (v: u32)
    requires
        buf@.len() >= 4,
    ensures
        v == spec_be_u32(buf@),
{
    BigEndian::read_u32(buf)
}

/// `byteorder::BigEndian::read_u64`: the first eight bytes of `buf` read as a
/// big-endian number. The crate panics on a shorter buffer.
#[verifier::external_body]
fn be_u64(buf: &[u8]) -> (v: u64)
    requires
        buf@.len() >= 8,
    ensures
        v == spec_be_u64(buf@),
{
    BigEndian::read_u64(buf)
}

/// `byteorder::BigEndian::read_i32`: the unsigned big-endian reading of the
/// first four bytes, reinterpreted in two's complement. The crate panics on a
/// shorter buffer.
#[verifier::external_body]
fn be_i32(buf: &[u8]) -> (v: i32)
    requires
        buf@.len() >= 4,
    ensures
        v == spec_be_i32(buf@),
{
    BigEndian::read_i32(buf)
}

/// `byteorder::BigEndian::read_i64`: the unsigned big-endian reading of the
/// first eight bytes, reinterpreted in two's complement. The crate panics on a
/// shorter buffer.
#[verifier::external_body]
fn be_i64(buf: &[u8]) -> (v: i64)
    requires
        buf@.len() >= 8,
    ensures
        v == spec_be_i64(buf@),
{
    BigEndian::read_i64(buf)
}

/// The error of `String::from_utf8`. The decoder hands it on in its own
/// error and never looks into it.
#[verifier::external_type_specification]
#[verifier::external_body]
pub struct ExFromUtf8Error(std::string::FromUtf8Error);

/// `String::from_utf8`: the bytes become a `String` exactly when they are
/// valid UTF-8, and the string then holds the characters they encode.
pub assume_specification[ std::string::String::from_utf8 ](bytes: std::vec::Vec<u8>) -> (r: Result<
    std::string::String,
    std::string::FromUtf8Error,
>)
    ensures
        r is Ok <==> valid_utf8(bytes@),
        r matches Ok(text) ==> text@ == decode_utf8(bytes@),
;

/// `Rc::clone`: another handle to the same value.
#[verifier::external_body]
pub(crate) fn share<T>(handle: &Rc<T>) -> (other: Rc<T>)
    ensures
        other == *handle,
{
    Rc::clone(handle)
}

/// Whether `n` bytes lie at position `pos` of `s`.
pub open spec fn available(s: Seq<u8>, pos: int, n: int) -> bool {
    0 <= pos && 0 <= n && pos + n <= s.len()
}

/// One byte.
pub open spec fn spec_read_u8(s: Seq<u8>, pos: int) -> Parsed<u8> {
    if available(s, pos, 1) {
        Ok((s[pos], pos + 1))
    } else {
        Err(ErrorView::CannotRead)
    }
}

/// A big-endian `u16`.
pub open spec fn spec_read_u16(s: Seq<u8>, pos: int) -> Parsed<u16> {
    if available(s, pos, 2) {
        Ok((spec_be_u16(s.subrange(pos, pos + 2)), pos + 2))
    } else {
        Err(ErrorView::CannotRead)
    }
}

/// A big-endian `u32`.
pub open spec fn spec_read_u32(s: Seq<u8>, pos: int) -> Parsed<u32> {
    if available(s, pos, 4) {
        Ok((spec_be_u32(s.subrange(pos, pos + 4)), pos + 4))
    } else {
        Err(ErrorView::CannotRead)
    }
}

/// A big-endian `u64`.
pub open spec fn spec_read_u64(s: Seq<u8>, pos: int) -> Parsed<u64> {
    if available(s, pos, 8) {
        Ok((spec_be_u64(s.subrange(pos, pos + 8)), pos + 8))
    } else {
        Err(ErrorView::CannotRead)
    }
}

/// A big-endian two's-complement `i32`.
pub open spec fn spec_read_i32(s: Seq<u8>, pos: int) -> Parsed<i32> {
    if available(s, pos, 4) {
        Ok((spec_be_i32(s.subrange(pos, pos + 4)), pos + 4))
    } else {
        Err(ErrorView::CannotRead)
    }
}

/// A big-endian two's-complement `i64`.
pub open spec fn spec_read_i64(s: Seq<u8>, pos: int) -> Parsed<i64> {
    if available(s, pos, 8) {
        Ok((spec_be_i64(s.subrange(pos, pos + 8)), pos + 8))
    } else {
        Err(ErrorView::CannotRead)
    }
}

/// A run of exactly `n` bytes.
pub open spec fn spec_read_bytes(s: Seq<u8>, pos: int, n: int) -> Parsed<Seq<u8>> {
    if available(s, pos, n) {
        Ok((s.subrange(pos, pos + n), pos + n))
    } else {
        Err(ErrorView::CannotRead)
    }
}

/// A run of exactly `n` bytes whose content is dropped.
pub open spec fn spec_skip(s: Seq<u8>, pos: int, n: int) -> Parsed<()> {
    if available(s, pos, n) {
        Ok(((), pos + n))
    } else {
        Err(ErrorView::CannotRead)
    }
}

/// A `u16` length followed by that many bytes of standard UTF-8.
pub open spec fn spec_read_utf8(s: Seq<u8>, pos: int) -> Parsed<Seq<char>> {
    match spec_read_u16(s, pos) {
        Err(e) => Err(e),
        Ok((n, p)) => match spec_read_bytes(s, p, n as int) {
            Err(e) => Err(e),
            Ok((body, q)) => if valid_utf8(body) {
                Ok((decode_utf8(body), q))
            } else {
                Err(ErrorView::Encoding)
            },
        },
    }
}

/// A position in a byte string. Reads move the position forward and never
/// look behind it or beyond the end of the string.
pub struct ByteCursor<'a> {
    data: &'a [u8],
    pos: usize,
}

/// The relation between a read and the grammar: the cursor still stands on
/// the same input, and the outcome is what `expected` says, with the cursor
/// left just behind the value that was read.
pub open spec fn parsed<T: DeepView>(
    r: Result<T, DeserializationError>,
    before: ByteCursor,
    after: ByteCursor,
    expected: Parsed<T::V>,
) -> bool {
    &&& after.bytes() == before.bytes()
    &&& match expected {
        Ok((v, end)) => r matches Ok(x) && x.deep_view() == v && after.position() == end,
        Err(e) => r matches Err(x) && x.deep_view() == e,
    }
}

impl<'a> ByteCursor<'a> {
    #[verifier::type_invariant]
    spec fn within(&self) -> bool {
        self.pos <= self.data@.len()
    }

    /// The whole input.
    pub closed spec fn bytes(&self) -> Seq<u8> {
        self.data@
    }

    /// The position of the next byte to be read.
    pub closed spec fn position(&self) -> int {
        self.pos as int
    }

    /// A cursor at the start of `data`.
    pub fn new(data: &'a [u8]) -> (c: Self)
        ensures
            c.bytes() == data@,
            c.position() == 0,
    {
        ByteCursor { data, pos: 0 }
    }

    /// The number of bytes read so far.
    pub fn consumed(&self) -> (n: usize)
        ensures
            n == self.position(),
            n <= self.bytes().len(),
    {
        proof {
            use_type_invariant(self);
        }
        self.pos
    }

    /// Reads one byte.
    pub fn read_u8(&mut self) -> (r: Result<u8, DeserializationError>)
        ensures
            parsed(
                r,
                *old(self),
                *final(self),
                spec_read_u8(old(self).bytes(), old(self).position()),
            ),
    {
        proof {
            use_type_invariant(&*self);
        }
        if self.data.len() - self.pos < 1 {
            return Err(DeserializationError::CannotRead);
        }
        let v = self.data[self.pos];
        self.pos = self.pos + 1;
        Ok(v)
    }

    /// Reads a big-endian `u16`.
    pub fn read_u16(&mut self) -> (r: Result<u16, DeserializationError>)
        ensures
            parsed(
                r,
                *old(self),
                *final(self),
                spec_read_u16(old(self).bytes(), old(self).position()),
            ),
    {
        proof {
            use_type_invariant(&*self);
        }
        if self.data.len() - self.pos < 2 {
            return Err(DeserializationError::CannotRead);
        }
        let v = be_u16(slice_subrange(self.data, self.pos, self.pos + 2));
        self.pos = self.pos + 2;
        Ok(v)
    }

    /// Reads a big-endian `u32`.
    pub fn read_u32(&mut self) -> (r: Result<u32, DeserializationError>)
        ensures
            parsed(
                r,
                *old(self),
                *final(self),
                spec_read_u32(old(self).bytes(), old(self).position()),
            ),
    {
        proof {
            use_type_invariant(&*self);
        }
        if self.data.len() - self.pos < 4 {
            return Err(DeserializationError::CannotRead);
        }
        let v = be_u32(slice_subrange(self.data, self.pos, self.pos + 4));
        self.pos = self.pos + 4;
        Ok(v)
    }

    /// Reads a big-endian `u64`.
    pub fn read_u64(&mut self) -> (r: Result<u64, DeserializationError>)
        ensures
            parsed(
                r,
                *old(self),
                *final(self),
                spec_read_u64(old(self).bytes(), old(self).position()),
            ),
    {
        proof {
            use_type_invariant(&*self);
        }
        if self.data.len() - self.pos < 8 {
            return Err(DeserializationError::CannotRead);
        }
        let v = be_u64(slice_subrange(self.data, self.pos, self.pos + 8));
        self.pos = self.pos + 8;
        Ok(v)
    }

    /// Reads a big-endian two's-complement `i32`.
    pub fn read_i32(&mut self) -> (r: Result<i32, DeserializationError>)
        ensures
            parsed(
                r,
                *old(self),
                *final(self),
                spec_read_i32(old(self).bytes(), old(self).position()),
            ),
    {
        proof {
            use_type_invariant(&*self);
        }
        if self.data.len() - self.pos < 4 {
            return Err(DeserializationError::CannotRead);
        }
        let v = be_i32(slice_subrange(self.data, self.pos, self.pos + 4));
        self.pos = self.pos + 4;
        Ok(v)
    }

    /// Reads a big-endian two's-complement `i64`.
    pub fn read_i64(&mut self) -> (r: Result<i64, DeserializationError>)
        ensures
            parsed(
                r,
                *old(self),
                *final(self),
                spec_read_i64(old(self).bytes(), old(self).position()),
            ),
    {
        proof {
            use_type_invariant(&*self);
        }
        if self.data.len() - self.pos < 8 {
            return Err(DeserializationError::CannotRead);
        }
        let v = be_i64(slice_subrange(self.data, self.pos, self.pos + 8));
        self.pos = self.pos + 8;
        Ok(v)
    }

    /// Reads the bit pattern of a big-endian IEEE-754 single.
    pub fn read_f32(&mut self) -> (r: Result<u32, DeserializationError>)
        ensures
            parsed(
                r,
                *old(self),
                *final(self),
                spec_read_u32(old(self).bytes(), old(self).position()),
            ),
    {
        self.read_u32()
    }

    /// Reads the bit pattern of a big-endian IEEE-754 double.
    pub fn read_f64(&mut self) -> (r: Result<u64, DeserializationError>)
        ensures
            parsed(
                r,
                *old(self),
                *final(self),
                spec_read_u64(old(self).bytes(), old(self).position()),
            ),
    {
        self.read_u64()
    }

    /// Reads exactly `n` bytes.
    pub fn read_exact(&mut self, n: usize) -> (r: Result<Vec<u8>, DeserializationError>)
        ensures
            parsed(
                r,
                *old(self),
                *final(self),
                spec_read_bytes(old(self).bytes(), old(self).position(), n as int),
            ),
    {
        proof {
            use_type_invariant(&*self);
        }
        if self.data.len() - self.pos < n {
            return Err(DeserializationError::CannotRead);
        }
        let run = slice_to_vec(slice_subrange(self.data, self.pos, self.pos + n));
        self.pos = self.pos + n;
        assert(run.deep_view() =~= run@);
        Ok(run)
    }

    /// Moves over exactly `n` bytes without keeping them.
    pub fn skip(&mut self, n: usize) -> (r: Result<(), DeserializationError>)
        ensures
            parsed(
                r,
                *old(self),
                *final(self),
                spec_skip(old(self).bytes(), old(self).position(), n as int),
            ),
    {
        proof {
            use_type_invariant(&*self);
        }
        if self.data.len() - self.pos < n {
            return Err(DeserializationError::CannotRead);
        }
        self.pos = self.pos + n;
        Ok(())
    }

    /// Reads a `u16` length and that many bytes of standard UTF-8.
    pub fn read_utf8(&mut self) -> (r: Result<Rc<String>, DeserializationError>)
        ensures
            parsed(
                r,
                *old(self),
                *final(self),
                spec_read_utf8(old(self).bytes(), old(self).position()),
            ),
    {
        let n = self.read_u16()?;
        let body = self.read_exact(n as usize)?;
        assert(body.deep_view() =~= body@);
        match String::from_utf8(body) {
            Ok(text) => Ok(Rc::new(text)),
            Err(e) => Err(DeserializationError::Encoding(e)),
        }
    }
}

} // verus!
