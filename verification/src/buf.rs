//! The dual-ownership output buffer model.
//!
//! Compressed JPEG data lands either in a fixed-capacity region the caller
//! provided (the codec must signal overflow instead of growing it) or in a
//! region the codec may grow at will. `OutputBuf` holds both cases in one
//! type; its ownership tag decides which rules apply. Converting a buffer
//! into an `OwnedBuf` consumes it, so the bytes can never be released twice.

use vstd::prelude::*;
use vstd::slice::slice_to_vec;
use crate::common::Error;

verus! {

/// An owned, growable buffer of JPEG data.
#[derive(Debug)]
pub struct OwnedBuf {
    data: Vec<u8>,
}

impl OwnedBuf {
    /// The bytes held by the buffer.
    pub closed spec fn view(&self) -> Seq<u8> {
        self.data@
    }

    /// Creates an empty buffer.
    pub fn new() -> (r: OwnedBuf)
        ensures
            r@ == Seq::<u8>::empty(),
    {
        OwnedBuf { data: Vec::new() }
    }

    /// Allocates a zero-filled buffer with the given length.
    pub fn allocate(len: usize) -> (r: OwnedBuf)
        ensures
            r@.len() == len,
            forall|i: int| 0 <= i < len ==> r@[i] == 0u8,
    {
        let mut data: Vec<u8> = Vec::new();
        data.resize(len, 0u8);
        OwnedBuf { data }
    }

    /// Creates a new buffer holding a copy of `data`.
    pub fn copy_from_slice(data: &[u8]) -> (r: OwnedBuf)
        ensures
            r@ == data@,
    {
        OwnedBuf { data: slice_to_vec(data) }
    }

    /// The length of the buffer in bytes.
    pub fn len(&self) -> (r: usize)
        ensures
            r == self@.len(),
    {
        self.data.len()
    }

    /// The bytes of the buffer as a slice.
    pub fn as_slice(&self) -> (r: &[u8])
        ensures
            r@ == self@,
    {
        self.data.as_slice()
    }

    /// The bytes of the buffer as a new vector.
    pub fn to_vec(&self) -> (r: Vec<u8>)
        ensures
            r@ == self@,
    {
        self.data.clone()
    }
}

/// An output buffer for compressed JPEG data: either a fixed-capacity region
/// provided by the caller (borrowed) or a region the codec owns and may grow
/// (owned).
#[derive(Debug)]
pub struct OutputBuf {
    data: Vec<u8>,
    capacity: usize,
    is_owned: bool,
}

impl OutputBuf {
    /// The bytes currently held by the buffer.
    pub closed spec fn view(&self) -> Seq<u8> {
        self.data@
    }

    /// Whether the buffer is owned by the codec layer (growable) rather than
    /// borrowed from the caller (fixed capacity).
    pub closed spec fn spec_is_owned(&self) -> bool {
        self.is_owned
    }

    /// The fixed capacity of a borrowed buffer. Meaningless for owned buffers,
    /// which can grow without bound.
    pub closed spec fn spec_capacity(&self) -> nat {
        self.capacity as nat
    }

    /// A borrowed buffer never holds more bytes than its fixed capacity.
    pub open spec fn inv(&self) -> bool {
        !self.spec_is_owned() ==> self@.len() <= self.spec_capacity()
    }

    /// Wraps caller-provided bytes as a borrowed, fixed-capacity buffer. The
    /// length of `data` is both the initial contents and the capacity: a codec
    /// call must fail rather than grow the buffer past it.
    pub fn borrowed(data: Vec<u8>) -> (r: OutputBuf)
        ensures
            r@ == data@,
            !r.spec_is_owned(),
            r.spec_capacity() == data@.len(),
            r.inv(),
    {
        let capacity = data.len();
        OutputBuf { data, capacity, is_owned: false }
    }

    /// Converts an `OwnedBuf` into an owned `OutputBuf`, transferring the
    /// bytes; `buf` is consumed, so only the new buffer can release them.
    pub fn owned(buf: OwnedBuf) -> (r: OutputBuf)
        ensures
            r@ == buf@,
            r.spec_is_owned(),
            r.inv(),
    {
        let capacity = buf.len();
        let OwnedBuf { data } = buf;
        OutputBuf { data, capacity, is_owned: true }
    }

    /// Creates an empty owned buffer.
    pub fn new_owned() -> (r: OutputBuf)
        ensures
            r@ == Seq::<u8>::empty(),
            r.spec_is_owned(),
            r.inv(),
    {
        Self::owned(OwnedBuf::new())
    }

    /// Allocates an owned, zero-filled buffer with the given length.
    pub fn allocate_owned(cap: usize) -> (r: OutputBuf)
        ensures
            r@.len() == cap,
            r.spec_is_owned(),
            r.inv(),
    {
        Self::owned(OwnedBuf::allocate(cap))
    }

    /// The length of the buffer in bytes.
    pub fn len(&self) -> (r: usize)
        ensures
            r == self@.len(),
    {
        self.data.len()
    }

    /// Whether this buffer is owned (growable) rather than borrowed.
    pub fn is_owned(&self) -> (r: bool)
        ensures
            r == self.spec_is_owned(),
    {
        self.is_owned
    }

    /// The fixed capacity of a borrowed buffer.
    pub fn capacity(&self) -> (r: usize)
        ensures
            r == self.spec_capacity(),
    {
        self.capacity
    }

    /// The bytes of the buffer as a slice.
    pub fn as_slice(&self) -> (r: &[u8])
        ensures
            r@ == self@,
    {
        self.data.as_slice()
    }

    /// The bytes of the buffer as a new vector.
    pub fn to_vec(&self) -> (r: Vec<u8>)
        ensures
            r@ == self@,
    {
        self.data.clone()
    }

    /// Converts this buffer into an owned buffer holding the same bytes.
    ///
    /// The buffer is consumed: exactly one of the two values ever releases
    /// the bytes, so the conversion can never lead to a double free.
    pub fn into_owned(self) -> (r: OwnedBuf)
        ensures
            r@ == self@,
    {
        OwnedBuf { data: self.data }
    }
}

/// The result of one native compress or transform call, handed back to the
/// library as plain values: the status code, whether the output pointer came
/// back null, the bytes the codec produced, and the native diagnostic string
/// (meaningful only when the status is non-zero).
pub struct CodecReply {
    /// Status code of the native call; zero means success.
    pub status: i32,
    /// Whether the native call reported success but a null output pointer.
    pub output_null: bool,
    /// The bytes the native call produced.
    pub data: Vec<u8>,
    /// The native diagnostic string fetched right after the call.
    pub error_message: String,
}

/// Commits the result of one native compress or transform call to `output`.
///
/// Mirrors the native contract: the reported length is recorded even when the
/// call failed; a failure status carries the native diagnostic as an error; a
/// null output pointer on success empties the buffer and is an error of its
/// own. A borrowed output can never be committed past its fixed capacity.
pub fn commit_codec_reply(output: &mut OutputBuf, reply: CodecReply) -> (r: Result<(), Error>)
    requires
        old(output).inv(),
        !old(output).spec_is_owned() ==> reply.data@.len() <= old(output).spec_capacity(),
    ensures
        final(output).inv(),
        final(output).spec_is_owned() == old(output).spec_is_owned(),
        final(output).spec_capacity() == old(output).spec_capacity(),
        reply.status != 0 ==> r == Err::<(), Error>(Error::TurboJpegError(reply.error_message))
            && final(output)@ == reply.data@,
        reply.status == 0 && reply.output_null ==> r == Err::<(), Error>(Error::Null)
            && final(output)@ == Seq::<u8>::empty(),
        reply.status == 0 && !reply.output_null ==> r == Ok::<(), Error>(())
            && final(output)@ == reply.data@,
{
    output.data = reply.data;
    if reply.status != 0 {
        return Err(Error::TurboJpegError(reply.error_message));
    }
    if reply.output_null {
        output.data = Vec::new();
        return Err(Error::Null);
    }
    Ok(())
}

} // verus!
