//! Memory layout records handed over by the boot loader, and the
//! page-granular sizing helpers built on them.

use vstd::prelude::*;

pub mod page;

verus! {

/// What a region of the boot memory map may be used for.
#[derive(Debug, Clone, Copy, PartialEq, Eq, Structural)]
pub enum MemLayoutKind {
    Usable,
    Reserved,
    ACPIReclaimableMemory,
    ACPINVSMemory,
    BadMemory,
}

impl MemLayoutKind {
    /// The numeric tag the boot protocol uses for this kind.
    pub open spec fn as_u32(self) -> u32 {
        match self {
            MemLayoutKind::Usable => 1,
            MemLayoutKind::Reserved => 2,
            MemLayoutKind::ACPIReclaimableMemory => 3,
            MemLayoutKind::ACPINVSMemory => 4,
            MemLayoutKind::BadMemory => 5,
        }
    }

    /// The numeric tag the boot protocol uses for this kind.
    pub fn to_u32(self) -> (r: u32)
        ensures
            r == self.as_u32(),
    {
        match self {
            MemLayoutKind::Usable => 1,
            MemLayoutKind::Reserved => 2,
            MemLayoutKind::ACPIReclaimableMemory => 3,
            MemLayoutKind::ACPINVSMemory => 4,
            MemLayoutKind::BadMemory => 5,
        }
    }

    /// The kind a numeric tag of the boot protocol stands for.
    pub fn from_u32(value: u32) -> (r: Option<MemLayoutKind>)
        ensures
            1 <= value <= 5 ==> r is Some && r.unwrap().as_u32() == value,
            value < 1 || value > 5 ==> r is None,
    {
        match value {
            1 => Some(MemLayoutKind::Usable),
            2 => Some(MemLayoutKind::Reserved),
            3 => Some(MemLayoutKind::ACPIReclaimableMemory),
            4 => Some(MemLayoutKind::ACPINVSMemory),
            5 => Some(MemLayoutKind::BadMemory),
            _ => None,
        }
    }
}

/// One region of the boot memory map: where it starts, how long it is,
/// and what it may be used for.
#[derive(Debug, Clone, Copy, PartialEq, Eq, Structural)]
pub struct MemLayout {
    addr: u64,
    len: u64,
    kind: MemLayoutKind,
}

impl MemLayout {
    /// A region record with the given start, length and kind.
    pub fn new(addr: u64, len: u64, kind: MemLayoutKind) -> (r: MemLayout)
        ensures
            r.spec_addr() == addr,
            r.spec_len() == len,
            r.spec_kind() == kind,
    {
        MemLayout { addr, len, kind }
    }

    /// The region's start address.
    pub closed spec fn spec_addr(self) -> u64 {
        self.addr
    }

    /// The region's length in bytes.
    pub closed spec fn spec_len(self) -> u64 {
        self.len
    }

    /// The region's kind.
    pub closed spec fn spec_kind(self) -> MemLayoutKind {
        self.kind
    }

    /// The region's start address.
    pub fn addr(&self) -> (r: u64)
        ensures
            r == self.spec_addr(),
    {
        self.addr
    }

    /// The region's length in bytes.
    pub fn len(&self) -> (r: u64)
        ensures
            r == self.spec_len(),
    {
        self.len
    }

    /// The region's kind.
    pub fn kind(&self) -> (r: MemLayoutKind)
        ensures
            r == self.spec_kind(),
    {
        self.kind
    }
}

/// A region the running kernel may hand to the page allocator: marked
/// usable, and above the first megabyte.
pub open spec fn usable_region(m: MemLayout) -> bool {
    m.spec_kind() == MemLayoutKind::Usable && m.spec_addr() >= 0x100000
}

/// One step of the size count: a usable region extends the covered
/// range to its end, counting only the part beyond what was already
/// covered; any other region changes nothing.  The pair is the end of
/// the covered range and the bytes counted so far.
pub open spec fn avail_step(p: (int, int), m: MemLayout) -> (int, int) {
    if usable_region(m) {
        let le = if m.spec_addr() > p.0 {
            m.spec_addr() as int
        } else {
            p.0
        };
        (m.spec_addr() + m.spec_len(), p.1 + (m.spec_addr() + m.spec_len() - le))
    } else {
        p
    }
}

/// The covered-range end and byte count after the whole map.
pub open spec fn avail_fold(s: Seq<MemLayout>) -> (int, int)
    decreases s.len(),
{
    if s.len() == 0 {
        (0, 0)
    } else {
        avail_step(avail_fold(s.drop_last()), s.last())
    }
}

/// The count never runs backwards on this map: every usable region ends
/// at or beyond the range covered before it, and no region's end
/// overflows.  Maps the loader hands over, sorted and disjoint, satisfy
/// this.
pub open spec fn avail_ok(s: Seq<MemLayout>) -> bool {
    forall|i: int|
        0 <= i < s.len() ==> (usable_region(#[trigger] s[i]) ==> s[i].spec_addr() + s[i].spec_len()
            <= u64::MAX && avail_fold(s.subrange(0, i)).0 <= s[i].spec_addr() + s[i].spec_len())
}

/// The number of bytes of usable memory above the first megabyte that
/// the map describes, overlaps counted once.
pub fn available_mem_size(mems: &[MemLayout]) -> (r: u64)
    requires
        avail_ok(mems@),
    ensures
        r == avail_fold(mems@).1,
{
    let mut last_end: u64 = 0;
    let mut size: u64 = 0;
    let mut i: usize = 0;
    while i < mems.len()
        invariant
            i <= mems@.len(),
            avail_ok(mems@),
            (last_end as int, size as int) == avail_fold(mems@.subrange(0, i as int)),
            size <= last_end,
        decreases mems@.len() - i,
    {
        let m = mems[i];
        proof {
            assert(mems@.subrange(0, i + 1 as int).drop_last() =~= mems@.subrange(0, i as int));
            assert(mems@.subrange(0, i + 1 as int).last() == mems@[i as int]);
        }
        if m.kind() == MemLayoutKind::Usable && m.addr() >= 0x100000 {
            if m.addr() > last_end {
                last_end = m.addr();
            }
            let this_end = m.addr() + m.len();
            size = size + (this_end - last_end);
            last_end = this_end;
        }
        i = i + 1;
    }
    proof {
        assert(mems@.subrange(0, mems@.len() as int) =~= mems@);
    }
    size
}

/// The address rounded down to its 4 KiB page boundary.
pub fn pg_round_down(addr: usize) -> (r: usize)
    ensures
        r == addr & !0xfffusize,
        r % 4096 == 0,
        r <= addr,
        addr - r < 4096,
{
    proof {
        assert(1usize << 12 >= 1) by (bit_vector);
    }
    let r = addr & !((1usize << 12) - 1);
    proof {
        assert(addr & !(((1usize << 12) - 1) as usize) == addr & !0xfffusize) by (bit_vector);
        assert((addr & !0xfffusize) % 4096 == 0 && (addr & !0xfffusize) <= addr && addr - (addr
            & !0xfffusize) < 4096) by (bit_vector);
    }
    r
}

/// The byte-sized allocation front end over the page allocator: sizes
/// are rounded up to whole pages.
pub struct Allocator {
    /// The page allocator the kernel's allocations come from.
    pub pages: page::PageAllocator,
}

impl Allocator {
    /// Allocates enough whole pages to cover `size` bytes; the address
    /// of the first page, or nothing when no run of free pages is large
    /// enough.
    pub fn allocate(&mut self, size: usize) -> (r: Option<usize>)
        requires
            old(self).pages.wf(),
            size <= usize::MAX - 4095,
            old(self).pages.spec_base() + old(self).pages.bits().len() * 4096 <= usize::MAX,
        ensures
            final(self).pages.wf(),
            final(self).pages.spec_base() == old(self).pages.spec_base(),
            final(self).pages.bits().len() == old(self).pages.bits().len(),
            r is Some ==> page::alloc_transition(
                old(self).pages.bits(),
                final(self).pages.bits(),
                ((r->0 as int) - old(self).pages.spec_base()) / 4096,
                ((size + 4095) / 4096) as int,
            ) && r->0 == old(self).pages.spec_base() + ((r->0 as int) - old(
                self,
            ).pages.spec_base()) / 4096 * 4096,
            r is None ==> final(self).pages.bits() == old(self).pages.bits(),
    {
        let cnt = (size + 4095) / 4096;
        self.pages.get_page(cnt)
    }

    /// Returns the pages covering `size` bytes at `ptr` to the free
    /// pool.
    pub fn deallocate(&mut self, ptr: usize, size: usize)
        requires
            old(self).pages.wf(),
            size <= usize::MAX - 4095,
            ptr % 4096 == 0,
            ptr >= old(self).pages.spec_base(),
            (ptr - old(self).pages.spec_base()) / 4096 + (size + 4095) / 4096 <= old(
                self,
            ).pages.bits().len(),
            forall|j: int|
                (ptr - old(self).pages.spec_base()) / 4096 <= j < (ptr - old(
                    self,
                ).pages.spec_base()) / 4096 + (size + 4095) / 4096 ==> old(self).pages.bits()[j],
        ensures
            final(self).pages.wf(),
            final(self).pages.spec_base() == old(self).pages.spec_base(),
            forall|j: int|
                0 <= j < old(self).pages.bits().len() ==> final(self).pages.bits()[j] == if (ptr
                    - old(self).pages.spec_base()) / 4096 <= j < (ptr - old(
                    self,
                ).pages.spec_base()) / 4096 + (size + 4095) / 4096 {
                    false
                } else {
                    old(self).pages.bits()[j]
                },
    {
        let cnt = (size + 4095) / 4096;
        self.pages.free_page(ptr, cnt);
    }
}

} // verus!
