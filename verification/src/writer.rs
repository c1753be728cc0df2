//! Transport capability: write and read-back access to the peer that
//! receives the CFU frames.

use vstd::prelude::*;

verus! {

/// Error kind that the transport layer reports.
#[derive(Clone, Copy, Debug, PartialEq, Eq, Structural)]
pub enum CfuWriterError {
    /// The bus or the backing storage failed.
    StorageError,
    /// A response buffer could not be decoded as a frame.
    ByteConversionError,
    /// Any other transport failure.
    Other,
}

/// Transport that moves raw frame bytes between the host and a component
/// or client. The optional `mem_offset` is a hint the transport may use to
/// address a region of the peer's command surface; `None` means the
/// transport's current position.
pub trait CfuWriterSync {
    /// Writes `data` to the peer and reads the paired response back into
    /// `read`. Must not change the length of `read`.
    fn cfu_write_read(&mut self, mem_offset: Option<usize>, data: &[u8], read: &mut Vec<u8>) -> (r:
        Result<(), CfuWriterError>)
        ensures
            final(read)@.len() == old(read)@.len(),
    ;

    /// Fills `read` with data from the peer. Must not change the length of
    /// `read`.
    fn cfu_read(&mut self, mem_offset: Option<usize>, read: &mut Vec<u8>) -> (r: Result<
        (),
        CfuWriterError,
    >)
        ensures
            final(read)@.len() == old(read)@.len(),
    ;

    /// Writes `data` to the peer.
    fn cfu_write(&mut self, mem_offset: Option<usize>, data: &[u8]) -> Result<(), CfuWriterError>;

    /// Stages `data` into the peer's storage at the given offset.
    fn cfu_storage(&mut self, mem_offset: usize, data: &[u8]) -> Result<(), CfuWriterError>;
}

/// Transport that accepts everything and hands back whatever is already in
/// the read buffer. Useful as a placeholder and in tests.
pub struct CfuWriterNop;

impl CfuWriterSync for CfuWriterNop {
    fn cfu_write_read(
        &mut self,
        _mem_offset: Option<usize>,
        _data: &[u8],
        read: &mut Vec<u8>,
    ) -> (r: Result<(), CfuWriterError>)
        ensures
            final(read)@ == old(read)@,
            r is Ok,
    {
        Ok(())
    }

    fn cfu_read(&mut self, _mem_offset: Option<usize>, read: &mut Vec<u8>) -> (r: Result<
        (),
        CfuWriterError,
    >)
        ensures
            final(read)@ == old(read)@,
            r is Ok,
    {
        Ok(())
    }

    fn cfu_write(&mut self, _mem_offset: Option<usize>, _data: &[u8]) -> (r: Result<
        (),
        CfuWriterError,
    >)
        ensures
            r is Ok,
    {
        Ok(())
    }

    fn cfu_storage(&mut self, _mem_offset: usize, _data: &[u8]) -> (r: Result<
        (),
        CfuWriterError,
    >)
        ensures
            r is Ok,
    {
        Ok(())
    }
}

} // verus!
