//! Bounded writes into a memory-mapped output file.
use vstd::prelude::*;
use crate::client::EngineError;

verus! {

#[verifier::external_type_specification]
#[verifier::external_body]
pub struct ExMmapMut(memmap2::MmapMut);

/// The bytes of a writable mapping, as this process sees them.
pub uninterp spec fn mapped_bytes(m: memmap2::MmapMut) -> Seq<u8>;

/// Calls `MmapMut::len` (through its slice), the number of mapped bytes.
#[verifier::external_body]
fn mapped_len(m: &memmap2::MmapMut) -> (n: usize)
    ensures
        n == mapped_bytes(*m).len(),
{
    m.len()
}

/// Copies `data` into the mapping at `offset` through the mapping's mutable
/// slice (`copy_from_slice`); the other bytes stay as they were.
#[verifier::external_body]
fn copy_into(m: &mut memmap2::MmapMut, offset: usize, data: &[u8])
    requires
        offset + data@.len() <= mapped_bytes(*old(m)).len(),
    ensures
        mapped_bytes(*final(m)) == mapped_bytes(*old(m)).take(offset as int) + data@ + mapped_bytes(
            *old(m),
        ).skip(offset + data@.len()),
{
    m[offset..offset + data.len()].copy_from_slice(data)
}

/// Calls `MmapMut::flush`, which writes the modified pages to the file; an
/// I/O error is kept as its text. Nothing is promised of its outcome.
#[verifier::external_body]
fn flush_map(m: &memmap2::MmapMut) -> (r: Result<(), String>) {
    m.flush().map_err(|e| e.to_string())
}

/// The bytes after writing `data` at `offset` into `old`.
pub open spec fn written(old: Seq<u8>, offset: int, data: Seq<u8>) -> Seq<u8> {
    old.take(offset) + data + old.skip(offset + data.len())
}

/// A write within the file keeps its size, reads back as the data written,
/// and leaves every byte outside the written range as it was.
pub proof fn law_write_in_place(old: Seq<u8>, offset: int, data: Seq<u8>)
    requires
        0 <= offset,
        offset + data.len() <= old.len(),
    ensures
        written(old, offset, data).len() == old.len(),
        written(old, offset, data).subrange(offset, offset + data.len()) == data,
        forall|k: int|
            0 <= k < old.len() && !(offset <= k < offset + data.len()) ==> #[trigger] written(
                old,
                offset,
                data,
            )[k] == old[k],
{
    assert(written(old, offset, data).subrange(offset, offset + data.len()) =~= data);
}

/// Writes at given offsets into a file mapped into memory.
pub struct MemoryMappedFileWriter {
    mmap: memmap2::MmapMut,
}

impl View for MemoryMappedFileWriter {
    type V = Seq<u8>;

    closed spec fn view(&self) -> Seq<u8> {
        mapped_bytes(self.mmap)
    }
}

impl MemoryMappedFileWriter {
    /// A writer over an existing writable mapping.
    pub fn from_mapping(mmap: memmap2::MmapMut) -> (w: Self)
        ensures
            w@ == mapped_bytes(mmap),
    {
        MemoryMappedFileWriter { mmap }
    }

    /// The size of the mapped file.
    pub fn len(&self) -> (n: usize)
        ensures
            n == self@.len(),
    {
        mapped_len(&self.mmap)
    }

    /// Writes `data` at `offset`; a write that would end past the file is
    /// refused and changes nothing.
    pub fn write_at_offset(&mut self, offset: usize, data: &[u8]) -> (r: Result<(), EngineError>)
        requires
            offset + data@.len() <= usize::MAX,
        ensures
            offset + data@.len() <= old(self)@.len() ==> r is Ok && final(self)@ == written(
                old(self)@,
                offset as int,
                data@,
            ),
            offset + data@.len() > old(self)@.len() ==> final(self)@ == old(self)@ && (r matches Err(
                e,
            ) && e matches EngineError::FileSystemError(m) && m@ == "Write out of bounds"@),
    {
        let n = mapped_len(&self.mmap);
        if offset + data.len() > n {
            return Err(EngineError::FileSystemError(String::from_str("Write out of bounds")));
        }
        copy_into(&mut self.mmap, offset, data);
        Ok(())
    }

    /// Writes the modified pages to the file; an I/O failure is reported by
    /// its message and leaves the bytes as they are.
    pub fn flush_mmap(&mut self) -> (r: Result<(), EngineError>)
        ensures
            final(self)@ == old(self)@,
            r matches Err(e) ==> e matches EngineError::FileSystemError(_),
    {
        match flush_map(&self.mmap) {
            Ok(()) => Ok(()),
            Err(m) => Err(EngineError::FileSystemError(m)),
        }
    }
}

} // verus!
