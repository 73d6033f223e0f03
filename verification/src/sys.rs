//! What is taken on trust about `memmap2` and `std::io::Error`.
//!
//! Nothing in this file is proved. Each item says which outside function it stands for and
//! what it claims of it; the handle is verified against these claims and nothing else.

use vstd::prelude::*;

verus! {

/// `memmap2::MmapMut`: a mapping that hands out its bytes as slices. Nothing inside it is
/// visible here.
#[verifier::external_type_specification]
#[verifier::external_body]
pub struct ExMmapMut(memmap2::MmapMut);

/// `memmap2::MmapRaw`: a mapping that hands out nothing but its start address and its
/// length. Nothing inside it is visible here.
#[verifier::external_type_specification]
#[verifier::external_body]
pub struct ExMmapRaw(memmap2::MmapRaw);

/// `std::io::Error`, carried through as it came.
#[verifier::external_type_specification]
#[verifier::external_body]
pub struct ExIoError(std::io::Error);

/// The bytes of a `MmapMut`, the one at its start address first: what its `Deref` impl
/// borrows.
pub uninterp spec fn mapped_bytes(map: memmap2::MmapMut) -> Seq<u8>;

/// The address of the first byte of a `MmapMut`.
pub uninterp spec fn mapped_start(map: memmap2::MmapMut) -> usize;

/// The address that `MmapRaw::as_mut_ptr` returns.
pub uninterp spec fn raw_start(raw: memmap2::MmapRaw) -> usize;

/// The length that `MmapRaw::len` returns.
pub uninterp spec fn raw_len(raw: memmap2::MmapRaw) -> usize;

/// `memmap2::MmapMut::map_anon` asks the operating system for `length` bytes of anonymous
/// memory, readable and writable and private to this process. Whether it succeeds is the
/// system's to say. A mapping that comes back is `length` bytes long.
pub assume_specification[ memmap2::MmapMut::map_anon ](length: usize) -> (outcome: Result<
    memmap2::MmapMut,
    std::io::Error,
>)
    ensures
        outcome matches Ok(map) ==> mapped_bytes(map).len() == length,
;

/// `memmap2::MmapOptions::map_raw`, with the length and the offset set, maps `len` bytes of
/// the file behind the descriptor `fd`, from byte `offset` on, readable, writable and shared
/// with whoever else maps the file. Whether it succeeds is the system's to say. A mapping that
/// comes back is `len` bytes long.
#[verifier::external_body]
pub(crate) fn map_descriptor(len: usize, offset: usize, fd: i32) -> (outcome: Result<
    memmap2::MmapRaw,
    std::io::Error,
>)
    ensures
        outcome matches Ok(raw) ==> raw_len(raw) == len,
{
    memmap2::MmapOptions::new().len(len).offset(offset as u64).map_raw(fd)
}

/// `<[u8]>::as_ptr` on the slice that a `MmapMut` dereferences to: the address of its first
/// byte, as an integer.
#[verifier::external_body]
pub(crate) fn mapped_start_of(map: &memmap2::MmapMut) -> (addr: usize)
    ensures
        addr == mapped_start(*map),
{
    map.as_ptr() as usize
}

/// `<memmap2::MmapMut as Deref>::deref` borrows the mapped bytes, all of them, in order.
#[verifier::external_body]
pub(crate) fn mapped_slice(map: &memmap2::MmapMut) -> (bytes: &[u8])
    ensures
        bytes@ == mapped_bytes(*map),
{
    &map[..]
}

/// `<memmap2::MmapMut as DerefMut>::deref_mut` borrows the mapped bytes for writing. What
/// the slice holds when the borrow ends is what the mapping holds from then on. A slice keeps
/// its length, and making the borrow cannot panic.
#[verifier::external_body]
pub(crate) fn mapped_slice_mut(map: &mut memmap2::MmapMut) -> (bytes: &mut [u8])
    ensures
        bytes@ == mapped_bytes(*old(map)),
        final(bytes)@.len() == bytes@.len(),
        mapped_bytes(*final(map)) == final(bytes)@,
    no_unwind
{
    &mut map[..]
}

/// `memmap2::MmapRaw::as_mut_ptr` gives the address of the first mapped byte, here as an
/// integer.
#[verifier::external_body]
pub(crate) fn raw_start_of(raw: &memmap2::MmapRaw) -> (addr: usize)
    ensures
        addr == raw_start(*raw),
{
    raw.as_mut_ptr() as usize
}

/// `memmap2::MmapRaw::len` gives the length of the mapping in bytes.
pub assume_specification[ memmap2::MmapRaw::len ](raw: &memmap2::MmapRaw) -> (len: usize)
    ensures
        len == raw_len(*raw),
;

} // verus!
