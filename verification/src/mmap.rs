//! The mapping handle.

use crate::error::MapError;
use crate::sys::{
    map_descriptor, mapped_bytes, mapped_slice, mapped_slice_mut, mapped_start, mapped_start_of,
    raw_len, raw_start, raw_start_of,
};
use std::sync::Arc;
use vstd::prelude::*;

verus! {

/// What stands behind a handle, as contracts see it.
pub enum BackingView {
    /// Memory that only the handle can reach, with the bytes it holds.
    Private(Seq<u8>),
    /// A mapping that others may reach as well. The handle keeps it alive and says nothing
    /// of its bytes.
    Shared(memmap2::MmapRaw),
    /// A region that the caller vouched for. Nothing but the handle's word keeps it mapped.
    Adopted,
}

/// A handle, as contracts see it.
pub struct MmapView {
    /// The address of the first byte of the region.
    pub addr: usize,
    /// The number of bytes in the region.
    pub len: usize,
    /// What stands behind the handle.
    pub backing: BackingView,
}

/// A call that unmaps `len` bytes at `addr`.
#[derive(Clone, Copy, Debug, PartialEq, Eq, Structural)]
pub struct Unmap {
    /// The address of the first byte to unmap.
    pub addr: usize,
    /// The number of bytes to unmap.
    pub len: usize,
}

impl MmapView {
    /// The byte at offset `i`, where the handle can vouch for one.
    pub open spec fn read(self, i: int) -> Option<u8> {
        match self.backing {
            BackingView::Private(bytes) if 0 <= i < bytes.len() => Some(bytes[i]),
            _ => None,
        }
    }

    /// Whether a byte can be stored at offset `i`.
    pub open spec fn writable(self, i: int) -> bool {
        self.backing matches BackingView::Private(bytes) && 0 <= i < bytes.len()
    }

    /// The handle after `value` was stored at offset `i`; the handle itself where nothing
    /// can be stored there.
    pub open spec fn write(self, i: int, value: u8) -> MmapView {
        match self.backing {
            BackingView::Private(bytes) if 0 <= i < bytes.len() => MmapView {
                backing: BackingView::Private(bytes.update(i, value)),
                ..self
            },
            _ => self,
        }
    }

    /// The unmap call that is left to whoever lets the handle go: one for an adopted region,
    /// with the address and the length that the handle was given; none where the handle keeps
    /// a mapping that takes itself down.
    pub open spec fn owed(self) -> Option<Unmap> {
        match self.backing {
            BackingView::Adopted => Some(Unmap { addr: self.addr, len: self.len }),
            _ => None,
        }
    }
}

/// What stands behind a handle.
#[derive(Debug)]
enum Backing {
    Private(memmap2::MmapMut),
    Shared(Arc<memmap2::MmapRaw>),
    Adopted,
}

impl View for Backing {
    type V = BackingView;

    closed spec fn view(&self) -> BackingView {
        match self {
            Backing::Private(map) => BackingView::Private(mapped_bytes(*map)),
            Backing::Shared(raw) => BackingView::Shared(**raw),
            Backing::Adopted => BackingView::Adopted,
        }
    }
}

/// A handle to one region of mapped memory.
///
/// The address is never zero, and neither it nor the length changes while the handle lives.
#[derive(Debug)]
pub struct Mmap {
    addr: usize,
    len: usize,
    backing: Backing,
}

impl View for Mmap {
    type V = MmapView;

    closed spec fn view(&self) -> MmapView {
        MmapView { addr: self.addr, len: self.len, backing: self.backing@ }
    }
}

impl Mmap {
    #[verifier::type_invariant]
    spec fn well_formed(self) -> bool {
        &&& self.addr != 0
        &&& self.backing matches Backing::Private(map) ==> mapped_bytes(map).len() == self.len
    }

    /// Wraps what a request for anonymous memory came to.
    ///
    /// A refusal is handed on as it came. A mapping at address zero is let go and reported.
    /// Any other mapping becomes a handle to private memory, with the mapping's address,
    /// length and bytes.
    pub fn from_anonymous(outcome: Result<memmap2::MmapMut, std::io::Error>) -> (made: Result<
        Mmap,
        MapError,
    >)
        ensures
            match outcome {
                Err(e) => made == Err::<Mmap, MapError>(MapError::Rejected(e)),
                Ok(map) => if mapped_start(map) == 0 {
                    made == Err::<Mmap, MapError>(MapError::NullAddress)
                } else {
                    &&& made matches Ok(m)
                    &&& m@ == (MmapView {
                        addr: mapped_start(map),
                        len: mapped_bytes(map).len() as usize,
                        backing: BackingView::Private(mapped_bytes(map)),
                    })
                    &&& m@.len == mapped_bytes(map).len()
                },
            },
    {
        match outcome {
            Err(e) => Err(MapError::Rejected(e)),
            Ok(map) => {
                let addr = mapped_start_of(&map);
                if addr == 0 {
                    Err(MapError::NullAddress)
                } else {
                    let len = mapped_slice(&map).len();
                    Ok(Mmap { addr, len, backing: Backing::Private(map) })
                }
            },
        }
    }

    /// Wraps what a request to map a file came to.
    ///
    /// A refusal is handed on as it came. A mapping at address zero is let go and reported.
    /// Any other mapping becomes a handle that keeps it, with the mapping's address and
    /// length.
    pub fn from_descriptor(outcome: Result<memmap2::MmapRaw, std::io::Error>) -> (made: Result<
        Mmap,
        MapError,
    >)
        ensures
            match outcome {
                Err(e) => made == Err::<Mmap, MapError>(MapError::Rejected(e)),
                Ok(raw) => if raw_start(raw) == 0 {
                    made == Err::<Mmap, MapError>(MapError::NullAddress)
                } else {
                    &&& made matches Ok(m)
                    &&& m@ == (MmapView {
                        addr: raw_start(raw),
                        len: raw_len(raw),
                        backing: BackingView::Shared(raw),
                    })
                },
            },
    {
        match outcome {
            Err(e) => Err(MapError::Rejected(e)),
            Ok(raw) => {
                let addr = raw_start_of(&raw);
                if addr == 0 {
                    Err(MapError::NullAddress)
                } else {
                    let len = raw.len();
                    Ok(Mmap { addr, len, backing: Backing::Shared(Arc::new(raw)) })
                }
            },
        }
    }

    /// Maps a new region of `len` bytes and makes a handle to it.
    ///
    /// Without a descriptor the region is anonymous memory that only the handle can reach, and
    /// `offset` plays no part. With one, the region is the file behind it from byte `offset`
    /// on, shared with whoever else maps the file. Whether the request succeeds is the
    /// operating system's to say; a handle that comes back is `len` bytes long.
    pub fn new(len: usize, offset: usize, fd: Option<i32>) -> (made: Result<Mmap, MapError>)
        ensures
            made matches Ok(m) ==> {
                &&& m@.len == len
                &&& m@.addr != 0
                &&& match fd {
                    None => m@.backing matches BackingView::Private(bytes) && bytes.len() == len,
                    Some(_) => m@.backing matches BackingView::Shared(raw) && raw_start(raw)
                        == m@.addr && raw_len(raw) == len,
                }
            },
    {
        match fd {
            None => Mmap::from_anonymous(memmap2::MmapMut::map_anon(len)),
            Some(fd) => Mmap::from_descriptor(map_descriptor(len, offset, fd)),
        }
    }

    /// The address of the first byte of the region.
    pub fn addr(&self) -> (addr: usize)
        ensures
            addr == self@.addr,
            addr != 0,
    {
        proof {
            use_type_invariant(self);
        }
        self.addr
    }

    /// The number of bytes in the region.
    pub fn len(&self) -> (len: usize)
        ensures
            len == self@.len,
    {
        self.len
    }

    /// Makes a handle to a mapping that is shared with others.
    ///
    /// The handle holds the mapping as they do, so it stays mapped until the last of them is
    /// gone and is unmapped once.
    pub fn convert(existing: Arc<memmap2::MmapRaw>) -> (made: Mmap)
        requires
            raw_start(*existing) != 0,
        ensures
            made@ == (MmapView {
                addr: raw_start(*existing),
                len: raw_len(*existing),
                backing: BackingView::Shared(*existing),
            }),
    {
        let addr = raw_start_of(&existing);
        let len = existing.len();
        Mmap { addr, len, backing: Backing::Shared(existing) }
    }

    /// Makes a handle to a shared mapping as [`Mmap::convert`] does, unless the mapping
    /// starts at address zero: then there is no handle, and the mapping is let go.
    pub fn try_convert(existing: Arc<memmap2::MmapRaw>) -> (made: Option<Mmap>)
        ensures
            match made {
                Some(m) => raw_start(*existing) != 0 && m@ == (MmapView {
                    addr: raw_start(*existing),
                    len: raw_len(*existing),
                    backing: BackingView::Shared(*existing),
                }),
                None => raw_start(*existing) == 0,
            },
    {
        if raw_start_of(&existing) == 0 {
            None
        } else {
            Some(Mmap::convert(existing))
        }
    }

    /// Makes a handle to `len` bytes at `addr`, on the caller's word that such a region is
    /// mapped and is the handle's to let go. Nothing is checked.
    pub fn from_raw_parts(addr: usize, len: usize) -> (made: Mmap)
        requires
            addr != 0,
        ensures
            made@ == (MmapView { addr, len, backing: BackingView::Adopted }),
    {
        Mmap { addr, len, backing: Backing::Adopted }
    }

    /// The bytes of the region, where only the handle can reach them.
    pub fn as_slice(&self) -> (bytes: Option<&[u8]>)
        ensures
            match bytes {
                Some(b) => self@.backing == BackingView::Private(b@) && b@.len() == self@.len,
                None => !(self@.backing is Private),
            },
    {
        proof {
            use_type_invariant(self);
        }
        match &self.backing {
            Backing::Private(map) => Some(mapped_slice(map)),
            _ => None,
        }
    }

    /// The bytes of the region for writing, where only the handle can reach them. What the
    /// slice holds when it is given back is what the region holds from then on.
    pub fn as_mut_slice(&mut self) -> (bytes: Option<&mut [u8]>)
        ensures
            match bytes {
                Some(b) => {
                    &&& old(self)@.backing == BackingView::Private(b@)
                    &&& b@.len() == old(self)@.len
                    &&& final(b)@.len() == b@.len()
                    &&& final(self)@ == (MmapView {
                        backing: BackingView::Private(final(b)@),
                        ..old(self)@
                    })
                },
                None => !(old(self)@.backing is Private) && final(self)@ == old(self)@,
            },
    {
        proof {
            use_type_invariant(&*self);
        }
        self.backing.bytes_mut()
    }

    /// The byte at offset `i`, where only the handle can reach the region and `i` lies inside
    /// it.
    pub fn read(&self, i: usize) -> (byte: Option<u8>)
        ensures
            byte == self@.read(i as int),
    {
        match self.as_slice() {
            Some(bytes) => if i < bytes.len() {
                Some(bytes[i])
            } else {
                None
            },
            None => None,
        }
    }

    /// Stores `value` at offset `i` and says whether it did: it does where only the handle
    /// can reach the region and `i` lies inside it. Nothing else changes.
    pub fn write(&mut self, i: usize, value: u8) -> (stored: bool)
        ensures
            stored == old(self)@.writable(i as int),
            final(self)@ == old(self)@.write(i as int, value),
    {
        match self.as_mut_slice() {
            Some(bytes) => if i < bytes.len() {
                bytes[i] = value;
                true
            } else {
                false
            },
            None => false,
        }
    }

    /// Lets the handle go and says which unmap call is left to the caller.
    ///
    /// A mapping that the handle keeps is let go with it and takes itself down when nobody
    /// holds it any more. For an adopted region the one call that unmaps it is handed out,
    /// with the address and the length that the handle was given.
    pub fn release(self) -> (owed: Option<Unmap>)
        ensures
            owed == self@.owed(),
    {
        match self.backing {
            Backing::Adopted => Some(Unmap { addr: self.addr, len: self.len }),
            _ => None,
        }
    }
}

impl Backing {
    fn bytes_mut(&mut self) -> (bytes: Option<&mut [u8]>)
        ensures
            match bytes {
                Some(b) => {
                    &&& old(self)@ == BackingView::Private(b@)
                    &&& final(b)@.len() == b@.len()
                    &&& final(self)@ == BackingView::Private(final(b)@)
                },
                None => !(old(self)@ is Private) && *final(self) == *old(self),
            },
        no_unwind
    {
        match self {
            Backing::Private(map) => Some(mapped_slice_mut(map)),
            _ => None,
        }
    }
}

/// A byte stored at an offset inside the region is the byte that is read there afterwards.
pub proof fn lemma_read_after_write(view: MmapView, i: int, value: u8)
    requires
        view.writable(i),
    ensures
        view.write(i, value).read(i) == Some(value),
{
}

/// Storing a byte changes nothing but that byte: the address, the length, the unmap call that
/// is owed and what is read at any other offset stay as they were.
pub proof fn lemma_write_keeps_rest(view: MmapView, i: int, value: u8, j: int)
    requires
        j != i,
    ensures
        view.write(i, value).addr == view.addr,
        view.write(i, value).len == view.len,
        view.write(i, value).owed() == view.owed(),
        view.write(i, value).read(j) == view.read(j),
{
}

} // verus!
