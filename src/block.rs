//! The memory block: one owned, fixed-size byte region, with checked typed
//! writes and reads at positions that the caller keeps track of.
//!
//! A block's region lies in an address space of its own. It starts at the
//! block's base address, the lowest nonzero address that the alignment allows
//! (the alignment itself), and positions are addresses in that space, not
//! offsets from the base.

use crate::bytes::{overwrite, FixedBytes};
use crate::defs::{is_pow2, is_power_of_two, BlockSize, MAX_MEMBLOCK_SIZE};
use vstd::prelude::*;

verus! {

/// Why an operation on a memory block failed.
#[derive(Debug, Clone, Copy, PartialEq, Eq, Structural)]
pub enum MemAllocError {
    EmptyMemory,
    InvalidBlockSize,
    InvalidAlignment,
    LayoutError,
    MemoryAlreadyFreed,
    MemoryOverflow,
    NotEnoughMemory,
    NotPowerOfTwo,
    NullPointer,
}

/// What an operation on a memory block reports when it succeeds.
#[derive(Debug, Clone, Copy, PartialEq, Eq, Structural)]
pub enum MemAllocSuccess {
    MemoryFreed,
    MemoryAlreadyFreed,
    DataPushedToMemory,
}

/// `size` bytes aligned to `align` form a valid layout: the alignment is a
/// power of two, and the size rounded up to it stays within `isize::MAX`.
pub open spec fn layout_ok(size: nat, align: nat) -> bool {
    is_pow2(align) && size + (align - 1) <= isize::MAX
}

/// What a memory block is, as a value: where its region starts, how long it
/// is, its alignment, whether it was released, and the bytes it holds.
pub ghost struct MemBlockView {
    pub base: nat,
    pub size: nat,
    pub align: nat,
    pub freed: bool,
    pub bytes: Seq<u8>,
}

impl MemBlockView {
    pub open spec fn wf(self) -> bool {
        &&& is_pow2(self.size)
        &&& self.size <= MAX_MEMBLOCK_SIZE
        &&& layout_ok(self.size, self.align)
        &&& self.base == self.align
        &&& self.freed ==> self.bytes.len() == 0
        &&& !self.freed ==> self.bytes.len() == self.size
    }

    /// The block that `new(size, align)` hands out: live, zero-filled.
    pub open spec fn fresh(size: nat, align: nat) -> MemBlockView {
        MemBlockView { base: align, size, align, freed: false, bytes: Seq::new(size, |i: int| 0u8) }
    }

    /// The block is live and `len` bytes from address `pos` on lie inside it.
    pub open spec fn fits(self, pos: int, len: nat) -> bool {
        &&& !self.freed
        &&& self.base <= pos
        &&& pos + len <= self.base + self.size
    }

    /// The value of type `T` whose bytes start at address `pos`.
    pub open spec fn read<T: FixedBytes>(self, pos: int) -> T {
        let at = pos - self.base;
        T::spec_decode(self.bytes.subrange(at, at + T::spec_size()))
    }

    /// The block after `v` is written from address `pos` on.
    pub open spec fn write<T: FixedBytes>(self, pos: int, v: T) -> MemBlockView {
        MemBlockView { bytes: overwrite(self.bytes, pos - self.base, v.spec_encode()), ..self }
    }

    /// The address at which `push` writes a `T`: one value's size above
    /// the base.
    pub open spec fn push_pos<T: FixedBytes>(self) -> int {
        (self.base + T::spec_size()) as int
    }

    /// What writing a `T` at address `pos` reports.
    pub open spec fn deposit_result<T: FixedBytes>(self, pos: int) -> Result<usize, MemAllocError> {
        if self.freed {
            Err(MemAllocError::MemoryAlreadyFreed)
        } else if !self.fits(pos, T::spec_size()) {
            Err(MemAllocError::MemoryOverflow)
        } else {
            Ok(pos as usize)
        }
    }

    /// What withdrawing a `T` at cursor `pos` reports: the value, its size
    /// and the cursor one value lower. A cursor at the base has nothing
    /// below it.
    pub open spec fn withdraw_result<T: FixedBytes>(self, pos: int) -> Result<
        (T, usize, usize),
        MemAllocError,
    > {
        if self.freed {
            Err(MemAllocError::MemoryAlreadyFreed)
        } else if pos < self.base + T::spec_size() {
            Err(MemAllocError::EmptyMemory)
        } else if pos + T::spec_size() > self.base + self.size {
            Err(MemAllocError::MemoryOverflow)
        } else {
            Ok((self.read::<T>(pos), T::spec_size() as usize, (pos - T::spec_size()) as usize))
        }
    }

    /// What releasing the block reports.
    pub open spec fn release_result(self) -> Result<MemAllocSuccess, MemAllocError> {
        if self.freed {
            Err(MemAllocError::MemoryAlreadyFreed)
        } else {
            Ok(MemAllocSuccess::MemoryFreed)
        }
    }

    /// The block once released: its region is given back.
    pub open spec fn released(self) -> MemBlockView {
        MemBlockView { freed: true, bytes: Seq::empty(), ..self }
    }
}

/// A memory block: an owned byte region of power-of-two size, with its base
/// address, its alignment, and whether it was released.
pub struct MemBlock {
    bytes: Option<Vec<u8>>,
    base: usize,
    size: BlockSize,
    align: usize,
    is_freed: bool,
}

impl View for MemBlock {
    type V = MemBlockView;

    closed spec fn view(&self) -> MemBlockView {
        MemBlockView {
            base: self.base as nat,
            size: self.size as nat,
            align: self.align as nat,
            freed: self.is_freed,
            bytes: match self.bytes {
                Some(b) => b@,
                None => Seq::empty(),
            },
        }
    }
}

/// Decides whether `size` bytes aligned to `align` form a valid layout.
fn layout_fits(size: usize, align: usize) -> (r: bool)
    ensures
        r == layout_ok(size as nat, align as nat),
{
    let limit = isize::MAX as usize;
    is_power_of_two(align) && align - 1 <= limit && size <= limit - (align - 1)
}

impl MemBlock {
    /// The block is well formed, and its region is held exactly while it is
    /// live.
    pub closed spec fn wf(&self) -> bool {
        &&& self@.wf()
        &&& self.is_freed == self.bytes is None
    }

    /// A well-formed block has a well-formed view.
    pub proof fn lemma_view_wf(&self)
        requires
            self.wf(),
        ensures
            self@.wf(),
    {
    }

    /// Creates a live block of `size` bytes aligned to `align`. The size is
    /// checked first against the largest block size, then for being a power
    /// of two; only then is the layout checked and the region allocated.
    pub fn new(size: BlockSize, align: usize) -> (r: Result<MemBlock, MemAllocError>)
        ensures
            size > MAX_MEMBLOCK_SIZE ==> r == Err::<MemBlock, _>(MemAllocError::InvalidBlockSize),
            size <= MAX_MEMBLOCK_SIZE && !is_pow2(size as nat) ==> r == Err::<MemBlock, _>(
                MemAllocError::NotPowerOfTwo,
            ),
            size <= MAX_MEMBLOCK_SIZE && is_pow2(size as nat) && !layout_ok(
                size as nat,
                align as nat,
            ) ==> r == Err::<MemBlock, _>(MemAllocError::LayoutError),
            size <= MAX_MEMBLOCK_SIZE && is_pow2(size as nat) && layout_ok(
                size as nat,
                align as nat,
            ) ==> r is Ok && r->Ok_0@ == MemBlockView::fresh(size as nat, align as nat),
            r is Ok ==> r->Ok_0.wf(),
    {
        if size > MAX_MEMBLOCK_SIZE {
            return Err(MemAllocError::InvalidBlockSize);
        }
        if !is_power_of_two(size) {
            return Err(MemAllocError::NotPowerOfTwo);
        }
        match Self::alloc_memblock(size, align) {
            Ok(bytes) => Ok(MemBlock { bytes: Some(bytes), base: align, size, align, is_freed: false }),
            Err(e) => Err(e),
        }
    }

    /// Checks the layout and allocates a zero-filled region of `size` bytes.
    fn alloc_memblock(size: BlockSize, align: usize) -> (r: Result<Vec<u8>, MemAllocError>)
        ensures
            layout_ok(size as nat, align as nat) ==> r is Ok && r->Ok_0@ == Seq::new(
                size as nat,
                |i: int| 0u8,
            ),
            !layout_ok(size as nat, align as nat) ==> r == Err::<Vec<u8>, _>(
                MemAllocError::LayoutError,
            ),
    {
        if !layout_fits(size, align) {
            return Err(MemAllocError::LayoutError);
        }
        let mut bytes: Vec<u8> = Vec::with_capacity(size);
        let mut i: usize = 0;
        while i < size
            invariant
                i <= size,
                bytes@ == Seq::new(i as nat, |k: int| 0u8),
            decreases size - i,
        {
            bytes.push(0u8);
            i = i + 1;
            assert(bytes@ =~= Seq::new(i as nat, |k: int| 0u8));
        }
        Ok(bytes)
    }

    /// Gives the region back. A second release is reported as
    /// `MemoryAlreadyFreed` and changes nothing.
    pub fn free(&mut self) -> (r: Result<MemAllocSuccess, MemAllocError>)
        ensures
            r == old(self)@.release_result(),
            final(self)@ == if old(self)@.freed {
                old(self)@
            } else {
                old(self)@.released()
            },
            old(self).wf() ==> final(self).wf(),
        opens_invariants none
        no_unwind
    {
        if !self.is_freed {
            self.bytes = None;
            self.is_freed = true;
            Ok(MemAllocSuccess::MemoryFreed)
        } else {
            Err(MemAllocError::MemoryAlreadyFreed)
        }
    }

    /// The base address of the block's region.
    pub fn as_ptr(&self) -> (r: usize)
        ensures
            r == self@.base,
    {
        self.base
    }

    /// Writes `data` from address `pos` on and returns `pos`. The value's
    /// bytes must lie inside the live block, else nothing is written.
    pub fn push_at<T: FixedBytes>(&mut self, pos: usize, data: T) -> (r: Result<usize, MemAllocError>)
        requires
            old(self).wf(),
        ensures
            r == old(self)@.deposit_result::<T>(pos as int),
            final(self)@ == if r is Ok {
                old(self)@.write(pos as int, data)
            } else {
                old(self)@
            },
            final(self).wf(),
    {
        if self.is_freed {
            return Err(MemAllocError::MemoryAlreadyFreed);
        }
        let sz = T::byte_size();
        if pos < self.base || sz > self.size || pos - self.base > self.size - sz {
            return Err(MemAllocError::MemoryOverflow);
        }
        proof {
            T::lemma_encode_decode(data);
        }
        match &mut self.bytes {
            Some(b) => {
                data.write_to(b, pos - self.base);
                Ok(pos)
            },
            None => Err(MemAllocError::MemoryAlreadyFreed),
        }
    }

    /// Writes `data` one value's size above the base address and returns
    /// that address. Fails with `MemoryOverflow` when the value's end address
    /// would pass the end of the block.
    pub fn push<T: FixedBytes>(&mut self, data: T) -> (r: Result<usize, MemAllocError>)
        requires
            old(self).wf(),
        ensures
            r == old(self)@.deposit_result::<T>(old(self)@.push_pos::<T>()),
            !old(self)@.freed && old(self)@.base + 2 * T::spec_size() > old(self)@.base + old(
                self,
            )@.size ==> r == Err::<usize, _>(MemAllocError::MemoryOverflow),
            final(self)@ == if r is Ok {
                old(self)@.write(old(self)@.push_pos::<T>(), data)
            } else {
                old(self)@
            },
            final(self).wf(),
    {
        if self.is_freed {
            return Err(MemAllocError::MemoryAlreadyFreed);
        }
        let sz = T::byte_size();
        if sz > self.size {
            return Err(MemAllocError::MemoryOverflow);
        }
        self.push_at(self.base + sz, data)
    }

    /// Reads the `T` at cursor `cursor_ptr` and returns it with its byte size
    /// and the cursor moved one value down. The bytes stay as they are.
    pub fn pop<T: FixedBytes>(&mut self, cursor_ptr: usize) -> (r: Result<(T, usize, usize), MemAllocError>)
        requires
            old(self).wf(),
        ensures
            r == old(self)@.withdraw_result::<T>(cursor_ptr as int),
            final(self)@ == old(self)@,
            final(self).wf(),
    {
        if self.is_freed {
            return Err(MemAllocError::MemoryAlreadyFreed);
        }
        let sz = T::byte_size();
        if cursor_ptr < self.base || cursor_ptr - self.base < sz {
            return Err(MemAllocError::EmptyMemory);
        }
        if sz > self.size || cursor_ptr - self.base > self.size - sz {
            return Err(MemAllocError::MemoryOverflow);
        }
        match &self.bytes {
            Some(b) => Ok((T::read_from(b, cursor_ptr - self.base), sz, cursor_ptr - sz)),
            None => Err(MemAllocError::MemoryAlreadyFreed),
        }
    }

    /// Reads the `T` whose bytes start at address `ptr`. The caller names a
    /// position inside the live block; nothing else is checked.
    pub fn peek<T: FixedBytes>(&mut self, ptr: usize) -> (r: T)
        requires
            old(self).wf(),
            old(self)@.fits(ptr as int, T::spec_size()),
        ensures
            r == old(self)@.read::<T>(ptr as int),
            final(self)@ == old(self)@,
            final(self).wf(),
    {
        match &self.bytes {
            Some(b) => T::read_from(b, ptr - self.base),
            None => unreached(),
        }
    }
}

impl Drop for MemBlock {
    /// Releases the region if that was not done yet; a block that was
    /// already released stays as it is.
    fn drop(&mut self)
        ensures
            final(self)@ == if old(self)@.freed {
                old(self)@
            } else {
                old(self)@.released()
            },
        opens_invariants none
        no_unwind
    {
        let _ = self.free();
    }
}

/// A value written into a live block at an address where the write succeeds
/// reads back unchanged from that address, and the block stays well formed.
pub proof fn lemma_deposit_then_inspect<T: FixedBytes>(b: MemBlockView, pos: int, v: T)
    requires
        b.wf(),
        b.deposit_result::<T>(pos) is Ok,
    ensures
        b.write(pos, v).wf(),
        b.write(pos, v).fits(pos, T::spec_size()),
        b.write(pos, v).read::<T>(pos) == v,
{
    T::lemma_encode_decode(v);
    let at = pos - b.base;
    let after = b.write(pos, v);
    assert(after.bytes.subrange(at, at + T::spec_size()) =~= v.spec_encode());
}

/// Pushing one value into a freshly created block succeeds where it fits,
/// and withdrawing at the address it returned gives back the value, its size,
/// and the block's base address as the new cursor.
pub proof fn lemma_fresh_push_then_pop<T: FixedBytes>(size: nat, align: nat, v: T)
    requires
        size <= MAX_MEMBLOCK_SIZE,
        is_pow2(size),
        layout_ok(size, align),
        MemBlockView::fresh(size, align).deposit_result::<T>(
            MemBlockView::fresh(size, align).push_pos::<T>(),
        ) is Ok,
    ensures
        ({
            let b = MemBlockView::fresh(size, align);
            let p = b.push_pos::<T>();
            &&& b.deposit_result::<T>(p) == Ok::<usize, MemAllocError>(p as usize)
            &&& b.write(p, v).withdraw_result::<T>(p) == Ok::<_, MemAllocError>(
                (v, T::spec_size() as usize, b.base as usize),
            )
        }),
{
    let b = MemBlockView::fresh(size, align);
    lemma_deposit_then_inspect(b, b.push_pos::<T>(), v);
}

/// Releasing a live block reports `MemoryFreed`; releasing it once more
/// reports `MemoryAlreadyFreed`, and that second release changes nothing.
pub proof fn lemma_release_twice(b: MemBlockView)
    requires
        b.wf(),
        !b.freed,
    ensures
        b.release_result() == Ok::<MemAllocSuccess, MemAllocError>(MemAllocSuccess::MemoryFreed),
        b.released().wf(),
        b.released().release_result() == Err::<MemAllocSuccess, MemAllocError>(
            MemAllocError::MemoryAlreadyFreed,
        ),
{
}

} // verus!
