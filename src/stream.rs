//! An in-memory byte stream that is zlib-compressed as one unit when it is
//! finished, and the length-prefixed string writer.
use vstd::prelude::*;
use std::io::Write;
use vstd::string::StringSliceAdditionalSpecFns;
use crate::le::{le32, le64, words_le, push_u32_le, push_u64_le, push_words_le, push_bytes};

verus! {

/// What flate2's zlib encoder at the default level makes of `data`.
pub uninterp spec fn zlib_of(data: Seq<u8>) -> Seq<u8>;

/// Relies on flate2::write::ZlibEncoder over a `Vec<u8>` at
/// `Compression::default()`: `write_all` of the bytes, then `finish`, which
/// hands back the compressed stream. With the default miniz_oxide backend
/// and an in-memory `Vec` neither step reports an error: the compressor
/// fails only when written to after it has finished or through a custom
/// output callback, and writing into a `Vec` does not fail.
#[verifier::external_body]
fn zlib_compress(data: &[u8]) -> (r: Option<Vec<u8>>)
    ensures
        r is Some,
        r matches Some(c) ==> c@ == zlib_of(data@),
{
    let mut enc = flate2::write::ZlibEncoder::new(Vec::new(), flate2::Compression::default());
    match enc.write_all(data) {
        Ok(()) => enc.finish().ok(),
        Err(_) => None,
    }
}

/// A length-prefixed string: the byte length as a 32-bit little-endian
/// word, then the bytes themselves.
pub open spec fn pas_string(bytes: Seq<u8>) -> Seq<u8> {
    le32(bytes.len() as u32) + bytes
}

/// Writing of length-prefixed strings into a byte stream.
pub trait WritePascalString {
    /// The bytes written so far.
    spec fn written(&self) -> Seq<u8>;

    /// Appends the string's byte length, then its bytes.
    fn write_pas_string(&mut self, s: &str)
        ensures
            final(self).written() == old(self).written() + pas_string(s.spec_bytes()),
    ;
}

/// Collects writes in memory; `finish` compresses them as one zlib stream.
pub struct CompressedStream {
    buf: Vec<u8>,
}

impl View for CompressedStream {
    type V = Seq<u8>;

    closed spec fn view(&self) -> Seq<u8> {
        self.buf@
    }
}

impl CompressedStream {
    pub fn new() -> (r: Self)
        ensures
            r@ == Seq::<u8>::empty(),
    {
        CompressedStream { buf: Vec::new() }
    }

    pub fn write_u32_le(&mut self, x: u32)
        ensures
            final(self)@ == old(self)@ + le32(x),
    {
        push_u32_le(&mut self.buf, x);
    }

    pub fn write_u64_le(&mut self, x: u64)
        ensures
            final(self)@ == old(self)@ + le64(x),
    {
        push_u64_le(&mut self.buf, x);
    }

    pub fn write_words(&mut self, ws: &[u32])
        ensures
            final(self)@ == old(self)@ + words_le(ws@),
    {
        push_words_le(&mut self.buf, ws);
    }

    pub fn write_all(&mut self, data: &[u8])
        ensures
            final(self)@ == old(self)@ + data@,
    {
        push_bytes(&mut self.buf, data);
    }

    /// The compressed form of everything written.
    pub fn finish(self) -> (r: Vec<u8>)
        ensures
            r@ == zlib_of(self@),
    {
        zlib_compress(self.buf.as_slice()).unwrap()
    }
}

impl WritePascalString for CompressedStream {
    open spec fn written(&self) -> Seq<u8> {
        self@
    }

    fn write_pas_string(&mut self, s: &str) {
        let bytes = s.as_bytes();
        self.write_u32_le(bytes.len() as u32);
        self.write_all(bytes);
    }
}

impl WritePascalString for Vec<u8> {
    open spec fn written(&self) -> Seq<u8> {
        self@
    }

    fn write_pas_string(&mut self, s: &str) {
        let bytes = s.as_bytes();
        push_u32_le(self, bytes.len() as u32);
        push_bytes(self, bytes);
    }
}

/// `data` compressed on its own, as a stream of its own.
pub fn compress_bytes(data: &[u8]) -> (r: Vec<u8>)
    ensures
        r@ == zlib_of(data@),
{
    let mut enc = CompressedStream::new();
    enc.write_all(data);
    enc.finish()
}

} // verus!
