//! Component Firmware Update (CFU) protocol core.
//!
//! The crate provides the wire codec for the fixed-size CFU command and
//! response frames, the host-side update engine that streams a firmware
//! image to a component in sequenced blocks, and the capability traits
//! (transport writer, image source, component hooks) that an application
//! implements around the core.

use vstd::prelude::*;

pub mod client;
pub mod codec;
pub mod components;
pub mod host;
pub mod protocol_definitions;
pub mod writer;

use crate::writer::CfuWriterError;

verus! {

/// Number of payload bytes carried by one content command frame.
pub const DEFAULT_DATA_LENGTH: usize = 52;

/// The payload of one content command: a fixed 52-byte block.
pub type DataChunk = [u8; DEFAULT_DATA_LENGTH];

/// Byte `j` of an image: the stored byte inside the image, zero past its
/// end. Short reads at the image tail are zero-padded.
pub open spec fn spec_image_byte(contents: Seq<u8>, j: int) -> u8 {
    if 0 <= j < contents.len() {
        contents[j]
    } else {
        0
    }
}

/// Source of the firmware image that the host streams to a component.
/// An implementation hands out the image size and random-access chunks
/// by byte offset.
pub trait CfuImage {
    /// Ghost model of the image: the bytes it holds.
    spec fn spec_contents(&self) -> Seq<u8>;

    /// Total size in bytes of the image.
    fn get_total_size(&self) -> (r: usize)
        ensures
            r == self.spec_contents().len(),
    ;

    /// Fills `buf` with `buf.len()` bytes of the image starting at
    /// `offset`, zero-padded past the image's end. Must not change the
    /// length of `buf`; may fail instead of reading.
    fn get_bytes_for_chunk(&self, buf: &mut Vec<u8>, offset: usize) -> (r: Result<
        (),
        CfuWriterError,
    >)
        ensures
            final(buf)@.len() == old(buf)@.len(),
            r is Ok ==> forall|k: int|
                0 <= k < final(buf)@.len() ==> final(buf)@[k] == spec_image_byte(
                    self.spec_contents(),
                    offset + k,
                ),
    ;
}

/// An image held in memory: the simplest image source, and the one the
/// tests and examples stream from.
pub struct MemoryImage {
    pub bytes: Vec<u8>,
}

impl MemoryImage {
    /// An image over the given bytes.
    pub fn new(bytes: Vec<u8>) -> (r: MemoryImage)
        ensures
            r.spec_contents() == bytes@,
    {
        MemoryImage { bytes }
    }
}

impl CfuImage for MemoryImage {
    open spec fn spec_contents(&self) -> Seq<u8> {
        self.bytes@
    }

    fn get_total_size(&self) -> (r: usize)
        ensures
            r == self.spec_contents().len(),
    {
        self.bytes.len()
    }

    fn get_bytes_for_chunk(&self, buf: &mut Vec<u8>, offset: usize) -> (r: Result<
        (),
        CfuWriterError,
    >)
        ensures
            final(buf)@.len() == old(buf)@.len(),
            r is Ok,
            r is Ok ==> forall|k: int|
                0 <= k < final(buf)@.len() ==> final(buf)@[k] == spec_image_byte(
                    self.spec_contents(),
                    offset + k,
                ),
    {
        let n = buf.len();
        let mut k: usize = 0;
        while k < n
            invariant
                k <= n,
                buf@.len() == n,
                forall|j: int|
                    0 <= j < k ==> buf@[j] == spec_image_byte(self.bytes@, offset + j),
            decreases n - k,
        {
            let len = self.bytes.len();
            let b = if offset <= usize::MAX - k && offset + k < len {
                self.bytes[offset + k]
            } else {
                0
            };
            buf.set(k, b);
            k += 1;
        }
        Ok(())
    }
}

/// Image read offset of the chunk with the given sequence number: chunks
/// are consecutive 52-byte windows of the image.
pub open spec fn spec_chunk_offset(seq_num: nat) -> nat {
    seq_num * (DEFAULT_DATA_LENGTH as nat)
}

/// Reads the chunk of `image` at the offset matching the sequence number
/// into `buf`.
///
/// A window that runs past the image's end is not an error here: the
/// image capability zero-pads the tail, which is exactly what the last,
/// partial chunk of a stream carries on the wire. An image source that
/// prefers to refuse out-of-range reads may fail instead, and the engine
/// then reports a storage failure.
pub fn read_from_exact<I: CfuImage>(image: &I, seq_num: usize, buf: &mut Vec<u8>) -> (r: Result<
    (),
    CfuWriterError,
>)
    requires
        seq_num * DEFAULT_DATA_LENGTH + old(buf)@.len() <= usize::MAX,
    ensures
        final(buf)@.len() == old(buf)@.len(),
        r is Ok ==> forall|k: int|
            0 <= k < final(buf)@.len() ==> final(buf)@[k] == spec_image_byte(
                image.spec_contents(),
                spec_chunk_offset(seq_num as nat) + k,
            ),
{
    let offset = seq_num * DEFAULT_DATA_LENGTH;
    image.get_bytes_for_chunk(buf, offset)
}

} // verus!
