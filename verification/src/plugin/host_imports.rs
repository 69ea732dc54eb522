//! Bounds arithmetic of the host functions offered to WASM plugins.
use vstd::prelude::*;

verus! {

/// Whether the guest memory range `[ptr, ptr + len)` lies within a memory of
/// `size` bytes.
pub fn check_memory_bounds(size: u64, ptr: u32, len: u32) -> (b: bool)
    ensures
        b == (ptr + len <= size),
{
    (ptr as u64 + len as u64) <= size
}

/// How many bytes of a response of `available` bytes are copied into a guest
/// buffer of `out_max_len` bytes: the response length, taken modulo 2^32 as
/// a `u32`, capped at the buffer length.
pub fn bytes_to_write(available: usize, out_max_len: u32) -> (n: u32)
    ensures
        n == if (available as u32) < out_max_len { available as u32 } else { out_max_len },
{
    let a = available as u32;
    if a < out_max_len {
        a
    } else {
        out_max_len
    }
}

/// Whether a network request of the guest may go ahead: both the URL it
/// names and the buffer the answer goes into lie within its memory of `size`
/// bytes.
pub fn network_request_in_bounds(size: u64, url_ptr: u32, url_len: u32, out_ptr: u32, out_max_len: u32) -> (b: bool)
    ensures
        b == (url_ptr + url_len <= size && out_ptr + out_max_len <= size),
{
    check_memory_bounds(size, url_ptr, url_len) && check_memory_bounds(size, out_ptr, out_max_len)
}

/// The bytes of the guest memory range `[ptr, ptr + len)`, copied out (the
/// URL a guest asks for).
pub fn guest_bytes(memory: &[u8], ptr: u32, len: u32) -> (r: Vec<u8>)
    requires
        ptr + len <= memory@.len(),
    ensures
        r@ == memory@.subrange(ptr as int, ptr + len),
{
    let size = memory.len();
    let start = ptr as usize;
    let end = start + len as usize;
    let mut r: Vec<u8> = Vec::new();
    let mut i = start;
    while i < end
        invariant
            start <= i <= end,
            end <= memory@.len(),
            start == ptr,
            end == ptr + len,
            r@ == memory@.subrange(start as int, i as int),
        decreases end - i,
    {
        r.push(memory[i]);
        i = i + 1;
        assert(r@ =~= memory@.subrange(start as int, i as int));
    }
    r
}

/// Copies the first `n` bytes of a response `body` into the guest memory at
/// `out_ptr`, leaving every other byte of the memory as it was.
pub fn write_response(memory: &mut [u8], out_ptr: u32, body: &[u8], n: u32)
    requires
        out_ptr + n <= old(memory)@.len(),
        n <= body@.len(),
    ensures
        final(memory)@ == old(memory)@.take(out_ptr as int) + body@.take(n as int) + old(memory)@.skip(
            out_ptr + n,
        ),
{
    let ghost before = memory@;
    let size = memory.len();
    let start = out_ptr as usize;
    let mut i: usize = 0;
    while i < n as usize
        invariant
            i <= n,
            start == out_ptr,
            out_ptr + n <= before.len(),
            n <= body@.len(),
            memory@.len() == before.len(),
            size == before.len(),
            forall|k: int|
                0 <= k < memory@.len() ==> #[trigger] memory@[k] == if start <= k < start + i {
                    body@[k - start]
                } else {
                    before[k]
                },
        decreases n - i,
    {
        memory[start + i] = body[i];
        i = i + 1;
    }
    assert(memory@ =~= before.take(out_ptr as int) + body@.take(n as int) + before.skip(out_ptr + n));
}

} // verus!
